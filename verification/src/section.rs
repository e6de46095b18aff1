use vstd::prelude::*;

use crate::error::FormatError;

verus! {

/// A read-only view over the generic PSI section header: the table_id
/// byte and the two bytes holding the syntax indicator, the private
/// indicator and the 12-bit section length.
pub struct Section<'b> {
    buf: &'b [u8],
}

/// The table_id of the section: byte 0.
pub open spec fn spec_table_id(b: Seq<u8>) -> u8 {
    b[0]
}

/// Section syntax indicator: bit 7 of byte 1.
pub open spec fn spec_section_syntax_indicator(b: Seq<u8>) -> bool {
    b[1] & 0x80 != 0
}

/// Private indicator: bit 6 of byte 1.
pub open spec fn spec_private_indicator(b: Seq<u8>) -> bool {
    b[1] & 0x40 != 0
}

/// The 12-bit section length: bits 3..0 of byte 1 and all of byte 2. It
/// counts the bytes that follow the 3 header bytes already consumed.
pub open spec fn spec_section_length(b: Seq<u8>) -> u16 {
    (((b[1] & 0x0f) as u16) << 8) | (b[2] as u16)
}

impl<'b> View for Section<'b> {
    type V = Seq<u8>;

    closed spec fn view(&self) -> Seq<u8> {
        self.buf@
    }
}

impl<'b> Section<'b> {
    #[verifier::type_invariant]
    spec fn wf(self) -> bool {
        self@.len() >= 3
    }

    /// Construct a section header view, failing with `Truncated` exactly
    /// when the buffer holds fewer than the 3 header bytes.
    pub fn new(buf: &'b [u8]) -> (r: Result<Section<'b>, FormatError>)
        ensures
            r is Ok <==> buf@.len() >= 3,
            r is Ok ==> r->Ok_0@ == buf@,
            r is Err ==> r->Err_0 == FormatError::Truncated,
    {
        if buf.len() < 3 {
            Err(FormatError::Truncated)
        } else {
            Ok(Section { buf })
        }
    }

    /// The table_id byte of this section.
    pub fn table_id(&self) -> (r: u8)
        ensures
            r == spec_table_id(self@),
    {
        proof {
            use_type_invariant(self);
        }
        self.buf[0]
    }

    /// Section syntax indicator flag of this section.
    pub fn section_syntax_indicator(&self) -> (r: bool)
        ensures
            r == spec_section_syntax_indicator(self@),
    {
        proof {
            use_type_invariant(self);
        }
        self.buf[1] & 0x80 != 0
    }

    /// Private indicator flag of this section.
    pub fn private_indicator(&self) -> (r: bool)
        ensures
            r == spec_private_indicator(self@),
    {
        proof {
            use_type_invariant(self);
        }
        self.buf[1] & 0x40 != 0
    }

    /// The 12-bit section length, always in [0, 4095].
    pub fn section_length(&self) -> (r: u16)
        ensures
            r == spec_section_length(self@),
            r <= 0xfff,
    {
        proof {
            use_type_invariant(self);
        }
        let b1 = self.buf[1];
        let b2 = self.buf[2];
        proof {
            assert((((b1 & 0x0f) as u16) << 8) | (b2 as u16) <= 0xfff) by (bit_vector);
        }
        (((b1 & 0x0f) as u16) << 8) | (b2 as u16)
    }
}

} // verus!
