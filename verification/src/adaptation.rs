use vstd::prelude::*;

use crate::error::FormatError;

verus! {

// Sizes of the fixed-size conditional sub-fields.
pub const PCR_LENGTH: usize = 6;
pub const OPCR_LENGTH: usize = 6;
pub const SLICE_COUNT_LENGTH: usize = 1;

/// A read-only view over the adaptation-field region of a packet.
///
/// Byte 0 of the region is the self-declared field length (which excludes
/// the length byte itself); byte 1, present only when that length is at
/// least 1, carries the eight flags; the conditional sub-fields follow in
/// the fixed order PCR, OPCR, splice countdown, private data, extension.
/// A sub-field whose flag is clear occupies no bytes and yields no value.
pub struct AdaptationFiled<'b> {
    buf: &'b [u8],
}

/// The self-declared adaptation field length: the value of byte 0.
pub open spec fn spec_af_length(af: Seq<u8>) -> int {
    af[0] as int
}

/// Discontinuity indicator: bit 7 of the flags byte.
pub open spec fn spec_discontinuity_indicator(af: Seq<u8>) -> bool {
    af[1] & 0x80 != 0
}

/// Random access indicator: bit 6 of the flags byte.
pub open spec fn spec_random_access_indicator(af: Seq<u8>) -> bool {
    af[1] & 0x40 != 0
}

/// Elementary stream priority indicator: bit 5 of the flags byte.
pub open spec fn spec_elementary_stream_priority_indicator(af: Seq<u8>) -> bool {
    af[1] & 0x20 != 0
}

/// PCR flag: bit 4 of the flags byte.
pub open spec fn spec_pcr_flag(af: Seq<u8>) -> bool {
    af[1] & 0x10 != 0
}

/// OPCR flag: bit 3 of the flags byte.
pub open spec fn spec_opcr_flag(af: Seq<u8>) -> bool {
    af[1] & 0x08 != 0
}

/// Splicing point flag: bit 2 of the flags byte.
pub open spec fn spec_splicing_point_flag(af: Seq<u8>) -> bool {
    af[1] & 0x04 != 0
}

/// Transport private data flag: bit 1 of the flags byte.
pub open spec fn spec_transport_private_data_flag(af: Seq<u8>) -> bool {
    af[1] & 0x02 != 0
}

/// Adaptation field extension flag: bit 0 of the flags byte.
pub open spec fn spec_adaptation_field_extension_flag(af: Seq<u8>) -> bool {
    af[1] & 0x01 != 0
}

/// The offset, from the start of the region, of the first byte after the
/// fixed-size sub-fields whose flags are set in `flags`: 2 (length byte and
/// flags byte), plus 6 for a present PCR, 6 for a present OPCR and 1 for a
/// present splice countdown.
///
/// Every sub-field offset is this sum over the flags of the sub-fields
/// that precede it, so the offset of a sub-field depends on those flags
/// alone and never on the flags of later sub-fields.
pub open spec fn spec_offset_after(flags: u8) -> int {
    2 + (if flags & 0x10 != 0 {
        6int
    } else {
        0int
    }) + (if flags & 0x08 != 0 {
        6int
    } else {
        0int
    }) + (if flags & 0x04 != 0 {
        1int
    } else {
        0int
    })
}

/// Offset of the PCR sub-field: nothing precedes it but the length and
/// flags bytes.
pub open spec fn spec_pcr_offset(af: Seq<u8>) -> int {
    spec_offset_after(af[1] & 0x00)
}

/// Offset of the OPCR sub-field: only a present PCR precedes it.
pub open spec fn spec_opcr_offset(af: Seq<u8>) -> int {
    spec_offset_after(af[1] & 0x10)
}

/// Offset of the splice countdown sub-field: a present PCR and a present
/// OPCR precede it.
pub open spec fn spec_splice_offset(af: Seq<u8>) -> int {
    spec_offset_after(af[1] & 0x18)
}

/// Offset of the private data sub-field: a present PCR, OPCR and splice
/// countdown precede it.
pub open spec fn spec_private_data_offset(af: Seq<u8>) -> int {
    spec_offset_after(af[1] & 0x1c)
}

/// Offset of the extension sub-field: private data, when present, also
/// precedes it, occupying one length byte plus as many bytes as that
/// length byte declares.
pub open spec fn spec_extension_offset(af: Seq<u8>) -> int {
    spec_private_data_offset(af) + (if spec_transport_private_data_flag(af) {
        1 + af[spec_private_data_offset(af)] as int
    } else {
        0int
    })
}

/// What a conditional sub-field of fixed size decodes to: no value when
/// the field length declares no flags byte at all or the flag is clear, the
/// bytes at [off, off + size) when they lie within both the declared region
/// and the buffer, and `Truncated` otherwise.
pub open spec fn spec_sub_field(
    af: Seq<u8>,
    flag: bool,
    off: int,
    size: int,
) -> Result<Option<Seq<u8>>, FormatError> {
    if spec_af_length(af) == 0 {
        Ok(None)
    } else if af.len() < 2 {
        Err(FormatError::Truncated)
    } else if !flag {
        Ok(None)
    } else if off + size <= 1 + spec_af_length(af) && off + size <= af.len() {
        Ok(Some(af.subrange(off, off + size)))
    } else {
        Err(FormatError::Truncated)
    }
}

/// What the PCR sub-field decodes to.
pub open spec fn spec_pcr_bytes(af: Seq<u8>) -> Result<Option<Seq<u8>>, FormatError> {
    spec_sub_field(af, spec_pcr_flag(af), spec_pcr_offset(af), PCR_LENGTH as int)
}

/// What the OPCR sub-field decodes to.
pub open spec fn spec_opcr_bytes(af: Seq<u8>) -> Result<Option<Seq<u8>>, FormatError> {
    spec_sub_field(af, spec_opcr_flag(af), spec_opcr_offset(af), OPCR_LENGTH as int)
}

/// What the splice countdown sub-field decodes to.
pub open spec fn spec_splice_countdown_byte(af: Seq<u8>) -> Result<Option<Seq<u8>>, FormatError> {
    spec_sub_field(af, spec_splicing_point_flag(af), spec_splice_offset(af), SLICE_COUNT_LENGTH as int)
}

/// What a length-prefixed sub-field starting at `off` decodes to: its own
/// length byte must lie in bounds, and then the length byte together with
/// the bytes it declares.
pub open spec fn spec_length_prefixed_field(af: Seq<u8>, off: int) -> Result<
    Option<Seq<u8>>,
    FormatError,
> {
    if off + 1 <= 1 + spec_af_length(af) && off + 1 <= af.len() {
        let n = af[off] as int;
        if off + 1 + n <= 1 + spec_af_length(af) && off + 1 + n <= af.len() {
            Ok(Some(af.subrange(off, off + 1 + n)))
        } else {
            Err(FormatError::Truncated)
        }
    } else {
        Err(FormatError::Truncated)
    }
}

/// What the private data sub-field decodes to: its length byte followed by
/// the declared number of data bytes.
pub open spec fn spec_transport_private_date_bytes(af: Seq<u8>) -> Result<
    Option<Seq<u8>>,
    FormatError,
> {
    if spec_af_length(af) == 0 {
        Ok(None)
    } else if af.len() < 2 {
        Err(FormatError::Truncated)
    } else if !spec_transport_private_data_flag(af) {
        Ok(None)
    } else {
        spec_length_prefixed_field(af, spec_private_data_offset(af))
    }
}

/// What the extension sub-field decodes to: its length byte followed by
/// the declared number of bytes. When private data is present, its length
/// byte must itself lie in bounds for the extension offset to be defined.
pub open spec fn spec_adaptation_extension_bytes(af: Seq<u8>) -> Result<
    Option<Seq<u8>>,
    FormatError,
> {
    if spec_af_length(af) == 0 {
        Ok(None)
    } else if af.len() < 2 {
        Err(FormatError::Truncated)
    } else if !spec_adaptation_field_extension_flag(af) {
        Ok(None)
    } else if spec_transport_private_data_flag(af) && !(spec_private_data_offset(af) + 1 <= 1
        + spec_af_length(af) && spec_private_data_offset(af) + 1 <= af.len()) {
        Err(FormatError::Truncated)
    } else {
        spec_length_prefixed_field(af, spec_extension_offset(af))
    }
}

/// The view of a conditional accessor's result, with the returned bytes
/// abstracted to the sequence they hold.
pub open spec fn bytes_result_view(r: Result<Option<&[u8]>, FormatError>) -> Result<
    Option<Seq<u8>>,
    FormatError,
> {
    match r {
        Ok(Some(s)) => Ok(Some(s@)),
        Ok(None) => Ok(None),
        Err(e) => Err(e),
    }
}

/// The offset of each conditional sub-field depends only on the flags of
/// the sub-fields that precede it in the fixed order: two regions whose
/// flag bytes agree on those flags place the sub-field at the same
/// offset, however the later flags differ. In particular, enabling an
/// unrelated later flag never moves an earlier-declared sub-field.
pub proof fn lemma_offset_ignores_later_flags(a: Seq<u8>, b: Seq<u8>)
    ensures
        spec_pcr_offset(a) == spec_pcr_offset(b),
        spec_pcr_flag(a) == spec_pcr_flag(b) ==> spec_opcr_offset(a) == spec_opcr_offset(b),
        spec_pcr_flag(a) == spec_pcr_flag(b) && spec_opcr_flag(a) == spec_opcr_flag(b)
            ==> spec_splice_offset(a) == spec_splice_offset(b),
        spec_pcr_flag(a) == spec_pcr_flag(b) && spec_opcr_flag(a) == spec_opcr_flag(b)
            && spec_splicing_point_flag(a) == spec_splicing_point_flag(b)
            ==> spec_private_data_offset(a) == spec_private_data_offset(b),
        spec_pcr_flag(a) == spec_pcr_flag(b) && spec_opcr_flag(a) == spec_opcr_flag(b)
            && spec_splicing_point_flag(a) == spec_splicing_point_flag(b)
            && spec_transport_private_data_flag(a) == spec_transport_private_data_flag(b) && (
        spec_transport_private_data_flag(a) ==> a[spec_private_data_offset(a)]
            == b[spec_private_data_offset(b)]) ==> spec_extension_offset(a)
            == spec_extension_offset(b),
{
    let x = a[1];
    let y = b[1];
    assert(x & 0x00 == 0 && y & 0x00 == 0) by (bit_vector);
    assert(0u8 & 0x10 == 0 && 0u8 & 0x08 == 0 && 0u8 & 0x04 == 0) by (bit_vector);
    assert(((x & 0x10) & 0x10 != 0) == (x & 0x10 != 0) && (x & 0x10) & 0x08 == 0 && (x & 0x10)
        & 0x04 == 0) by (bit_vector);
    assert(((y & 0x10) & 0x10 != 0) == (y & 0x10 != 0) && (y & 0x10) & 0x08 == 0 && (y & 0x10)
        & 0x04 == 0) by (bit_vector);
    assert(((x & 0x18) & 0x10 != 0) == (x & 0x10 != 0) && ((x & 0x18) & 0x08 != 0) == (x & 0x08
        != 0) && (x & 0x18) & 0x04 == 0) by (bit_vector);
    assert(((y & 0x18) & 0x10 != 0) == (y & 0x10 != 0) && ((y & 0x18) & 0x08 != 0) == (y & 0x08
        != 0) && (y & 0x18) & 0x04 == 0) by (bit_vector);
    assert(((x & 0x1c) & 0x10 != 0) == (x & 0x10 != 0) && ((x & 0x1c) & 0x08 != 0) == (x & 0x08
        != 0) && ((x & 0x1c) & 0x04 != 0) == (x & 0x04 != 0)) by (bit_vector);
    assert(((y & 0x1c) & 0x10 != 0) == (y & 0x10 != 0) && ((y & 0x1c) & 0x08 != 0) == (y & 0x08
        != 0) && ((y & 0x1c) & 0x04 != 0) == (y & 0x04 != 0)) by (bit_vector);
}

/// Round trip for a PCR-only field: an adaptation field whose flags byte
/// enables the PCR alone, with a declared length that covers it, yields
/// exactly the six bytes at [2, 8) as its PCR and no OPCR.
pub proof fn lemma_pcr_only_round_trip(af: Seq<u8>)
    requires
        af.len() >= 8,
        spec_af_length(af) >= 7,
        af[1] == 0x10,
    ensures
        spec_pcr_bytes(af) == Ok::<Option<Seq<u8>>, FormatError>(Some(af.subrange(2, 8))),
        spec_opcr_bytes(af) == Ok::<Option<Seq<u8>>, FormatError>(None),
{
    let x = af[1];
    assert(x & 0x00 == 0 && x & 0x10 != 0 && x & 0x08 == 0 && 0u8 & 0x10 == 0 && 0u8 & 0x08 == 0
        && 0u8 & 0x04 == 0) by (bit_vector)
        requires
            x == 0x10u8,
    ;
}

impl<'b> View for AdaptationFiled<'b> {
    type V = Seq<u8>;

    closed spec fn view(&self) -> Seq<u8> {
        self.buf@
    }
}

impl<'b> AdaptationFiled<'b> {
    #[verifier::type_invariant]
    spec fn wf(self) -> bool {
        self@.len() >= 1
    }

    /// Construct an adaptation field view over a region whose first byte
    /// is the length byte, failing with `Truncated` exactly when the
    /// region is empty.
    pub fn new(buf: &'b [u8]) -> (r: Result<AdaptationFiled<'b>, FormatError>)
        ensures
            r is Ok <==> buf@.len() >= 1,
            r is Ok ==> r->Ok_0@ == buf@,
            r is Err ==> r->Err_0 == FormatError::Truncated,
    {
        if buf.len() == 0 {
            Err(FormatError::Truncated)
        } else {
            Ok(AdaptationFiled { buf })
        }
    }

    /// The self-declared field length, excluding the length byte itself.
    /// A length of 0 is valid and means there is no flags byte.
    pub fn length(&self) -> (r: usize)
        ensures
            r == spec_af_length(self@),
            r <= 255,
    {
        proof {
            use_type_invariant(self);
        }
        self.buf[0] as usize
    }

    /// Discontinuity indicator flag.
    pub fn discontinuity_indicator(&self) -> (r: bool)
        requires
            spec_af_length(self@) >= 1,
            self@.len() >= 2,
        ensures
            r == spec_discontinuity_indicator(self@),
    {
        proof {
            use_type_invariant(self);
        }
        self.buf[1] & 0x80 != 0
    }

    /// Random access indicator flag.
    pub fn random_access_indicator(&self) -> (r: bool)
        requires
            spec_af_length(self@) >= 1,
            self@.len() >= 2,
        ensures
            r == spec_random_access_indicator(self@),
    {
        proof {
            use_type_invariant(self);
        }
        self.buf[1] & 0x40 != 0
    }

    /// Elementary stream priority indicator flag.
    pub fn elementary_stream_priority_indicator(&self) -> (r: bool)
        requires
            spec_af_length(self@) >= 1,
            self@.len() >= 2,
        ensures
            r == spec_elementary_stream_priority_indicator(self@),
    {
        proof {
            use_type_invariant(self);
        }
        self.buf[1] & 0x20 != 0
    }

    /// PCR flag.
    pub fn pcr_flag(&self) -> (r: bool)
        requires
            spec_af_length(self@) >= 1,
            self@.len() >= 2,
        ensures
            r == spec_pcr_flag(self@),
    {
        proof {
            use_type_invariant(self);
        }
        self.buf[1] & 0x10 != 0
    }

    /// OPCR flag.
    pub fn opcr_flag(&self) -> (r: bool)
        requires
            spec_af_length(self@) >= 1,
            self@.len() >= 2,
        ensures
            r == spec_opcr_flag(self@),
    {
        proof {
            use_type_invariant(self);
        }
        self.buf[1] & 0x08 != 0
    }

    /// Splicing point flag.
    pub fn splicing_point_flag(&self) -> (r: bool)
        requires
            spec_af_length(self@) >= 1,
            self@.len() >= 2,
        ensures
            r == spec_splicing_point_flag(self@),
    {
        proof {
            use_type_invariant(self);
        }
        self.buf[1] & 0x04 != 0
    }

    /// Transport private data flag.
    pub fn transport_private_data_flag(&self) -> (r: bool)
        requires
            spec_af_length(self@) >= 1,
            self@.len() >= 2,
        ensures
            r == spec_transport_private_data_flag(self@),
    {
        proof {
            use_type_invariant(self);
        }
        self.buf[1] & 0x02 != 0
    }

    /// Adaptation field extension flag.
    pub fn adaptation_field_extension_flag(&self) -> (r: bool)
        requires
            spec_af_length(self@) >= 1,
            self@.len() >= 2,
        ensures
            r == spec_adaptation_field_extension_flag(self@),
    {
        proof {
            use_type_invariant(self);
        }
        self.buf[1] & 0x01 != 0
    }

    /// The one shared offset-accumulation routine: the offset of the first
    /// byte after the fixed-size sub-fields selected in `flags`. Each
    /// conditional accessor passes the flags byte masked down to the flags
    /// of the sub-fields that precede its own.
    fn offset_after(flags: u8) -> (r: usize)
        ensures
            r == spec_offset_after(flags),
            2 <= r <= 15,
    {
        let mut off: usize = 2;
        if flags & 0x10 != 0 {
            off += PCR_LENGTH;
        }
        if flags & 0x08 != 0 {
            off += OPCR_LENGTH;
        }
        if flags & 0x04 != 0 {
            off += SLICE_COUNT_LENGTH;
        }
        off
    }

    /// The 6-byte PCR, present exactly when the PCR flag is set; fails
    /// with `Truncated` when the field does not fit in the declared region
    /// or the buffer.
    pub fn pcr_bytes(&self) -> (r: Result<Option<&'b [u8]>, FormatError>)
        ensures
            bytes_result_view(r) == spec_pcr_bytes(self@),
    {
        proof {
            use_type_invariant(self);
        }
        let declared = self.buf[0] as usize;
        if declared == 0 {
            return Ok(None);
        }
        if self.buf.len() < 2 {
            return Err(FormatError::Truncated);
        }
        let flags = self.buf[1];
        if flags & 0x10 == 0 {
            return Ok(None);
        }
        let offset = Self::offset_after(flags & 0x00);
        if offset + PCR_LENGTH <= 1 + declared && offset + PCR_LENGTH <= self.buf.len() {
            Ok(Some(&self.buf[offset..offset + PCR_LENGTH]))
        } else {
            Err(FormatError::Truncated)
        }
    }

    /// The 6-byte OPCR, present exactly when the OPCR flag is set; fails
    /// with `Truncated` when the field does not fit in the declared region
    /// or the buffer.
    pub fn opcr_bytes(&self) -> (r: Result<Option<&'b [u8]>, FormatError>)
        ensures
            bytes_result_view(r) == spec_opcr_bytes(self@),
    {
        proof {
            use_type_invariant(self);
        }
        let declared = self.buf[0] as usize;
        if declared == 0 {
            return Ok(None);
        }
        if self.buf.len() < 2 {
            return Err(FormatError::Truncated);
        }
        let flags = self.buf[1];
        if flags & 0x08 == 0 {
            return Ok(None);
        }
        let offset = Self::offset_after(flags & 0x10);
        if offset + OPCR_LENGTH <= 1 + declared && offset + OPCR_LENGTH <= self.buf.len() {
            Ok(Some(&self.buf[offset..offset + OPCR_LENGTH]))
        } else {
            Err(FormatError::Truncated)
        }
    }

    /// The 1-byte splice countdown, present exactly when the splicing
    /// point flag is set; fails with `Truncated` when the field does not
    /// fit in the declared region or the buffer.
    pub fn splice_countdown_byte(&self) -> (r: Result<Option<&'b [u8]>, FormatError>)
        ensures
            bytes_result_view(r) == spec_splice_countdown_byte(self@),
    {
        proof {
            use_type_invariant(self);
        }
        let declared = self.buf[0] as usize;
        if declared == 0 {
            return Ok(None);
        }
        if self.buf.len() < 2 {
            return Err(FormatError::Truncated);
        }
        let flags = self.buf[1];
        if flags & 0x04 == 0 {
            return Ok(None);
        }
        let offset = Self::offset_after(flags & 0x18);
        if offset + SLICE_COUNT_LENGTH <= 1 + declared && offset + SLICE_COUNT_LENGTH
            <= self.buf.len() {
            Ok(Some(&self.buf[offset..offset + SLICE_COUNT_LENGTH]))
        } else {
            Err(FormatError::Truncated)
        }
    }

    /// The private data sub-field (its length byte followed by the
    /// declared data bytes), present exactly when the private data flag is
    /// set; fails with `Truncated` when it does not fit in the declared
    /// region or the buffer.
    pub fn transport_private_date_bytes(&self) -> (r: Result<Option<&'b [u8]>, FormatError>)
        ensures
            bytes_result_view(r) == spec_transport_private_date_bytes(self@),
    {
        proof {
            use_type_invariant(self);
        }
        let declared = self.buf[0] as usize;
        if declared == 0 {
            return Ok(None);
        }
        if self.buf.len() < 2 {
            return Err(FormatError::Truncated);
        }
        let flags = self.buf[1];
        if flags & 0x02 == 0 {
            return Ok(None);
        }
        let offset = Self::offset_after(flags & 0x1c);
        if !(offset + 1 <= 1 + declared && offset + 1 <= self.buf.len()) {
            return Err(FormatError::Truncated);
        }
        let data_length = self.buf[offset] as usize;
        if offset + 1 + data_length <= 1 + declared && offset + 1 + data_length
            <= self.buf.len() {
            Ok(Some(&self.buf[offset..offset + 1 + data_length]))
        } else {
            Err(FormatError::Truncated)
        }
    }

    /// The extension sub-field (its length byte followed by the declared
    /// bytes), present exactly when the extension flag is set; fails with
    /// `Truncated` when it, or the private data length byte its offset
    /// depends on, does not fit in the declared region or the buffer.
    pub fn adaptation_extension_bytes(&self) -> (r: Result<Option<&'b [u8]>, FormatError>)
        ensures
            bytes_result_view(r) == spec_adaptation_extension_bytes(self@),
    {
        proof {
            use_type_invariant(self);
        }
        let declared = self.buf[0] as usize;
        if declared == 0 {
            return Ok(None);
        }
        if self.buf.len() < 2 {
            return Err(FormatError::Truncated);
        }
        let flags = self.buf[1];
        if flags & 0x01 == 0 {
            return Ok(None);
        }
        let mut offset = Self::offset_after(flags & 0x1c);
        if flags & 0x02 != 0 {
            if !(offset + 1 <= 1 + declared && offset + 1 <= self.buf.len()) {
                return Err(FormatError::Truncated);
            }
            let private_data_len = self.buf[offset] as usize;
            offset = offset + 1 + private_data_len;
        }
        if !(offset + 1 <= 1 + declared && offset + 1 <= self.buf.len()) {
            return Err(FormatError::Truncated);
        }
        let length = self.buf[offset] as usize;
        if offset + 1 + length <= 1 + declared && offset + 1 + length <= self.buf.len() {
            Ok(Some(&self.buf[offset..offset + 1 + length]))
        } else {
            Err(FormatError::Truncated)
        }
    }
}

} // verus!
