use vstd::prelude::*;

use crate::adaptation::AdaptationFiled;
use crate::error::FormatError;

verus! {

/// Decoded transport_scrambling_control code (bits 7-6 of byte 3).
///
/// Code 0 means the payload is in the clear; codes 2 and 3 mean it is
/// scrambled; code 1 is reserved and is reported as an explicit unknown,
/// never coerced to a default meaning.
#[derive(Clone, Copy, Debug, PartialEq, Eq, Structural)]
pub enum TransportScramblingControl {
    NOTSCRAMBLED,
    SCRAMBLED,
    UNKNOWN,
}

/// Decoded adaptation_field_control code (bits 5-4 of byte 3).
///
/// Codes 1..=3 are meaningful; code 0 is reserved and is reported as an
/// explicit unknown, never coerced to a default meaning.
#[derive(Clone, Copy, Debug, PartialEq, Eq, Structural)]
pub enum AdaptationFieldControl {
    NoAdaptationfieldPayloadOnly,
    AdaptationfieldOnlyNoPayload,
    AdaptationfieldFollowedByPayload,
    Unknown,
}

/// A read-only view over exactly 188 bytes forming one transport packet.
///
/// The view holds no ownership: it is valid for as long as the caller's
/// buffer is, and never mutates or retains the bytes.
pub struct Packet<'b> {
    buf: &'b [u8],
}

/// True of byte sequences that form a transport packet: exactly 188 bytes
/// beginning with the sync byte 0x47.
pub open spec fn spec_is_packet(b: Seq<u8>) -> bool {
    b.len() == 188 && b[0] == 0x47
}

/// Transport error indicator: bit 7 of byte 1.
pub open spec fn spec_transport_error_indicator(b: Seq<u8>) -> bool {
    b[1] & 0x80 != 0
}

/// Payload unit start indicator: bit 6 of byte 1.
pub open spec fn spec_payload_unit_start_indicator(b: Seq<u8>) -> bool {
    b[1] & 0x40 != 0
}

/// Transport priority: bit 5 of byte 1.
pub open spec fn spec_transport_priority(b: Seq<u8>) -> bool {
    b[1] & 0x20 != 0
}

/// The 13-bit packet identifier: bits 4..0 of byte 1 and all of byte 2.
pub open spec fn spec_pid(b: Seq<u8>) -> u16 {
    (((b[1] & 0x1f) as u16) << 8) | (b[2] as u16)
}

/// Continuity counter: bits 3..0 of byte 3.
pub open spec fn spec_continuity_counter(b: Seq<u8>) -> u8 {
    b[3] & 0x0f
}

/// The raw 2-bit transport_scrambling_control code: bits 7-6 of byte 3.
pub open spec fn spec_scrambling_code(b: Seq<u8>) -> u8 {
    (b[3] & 0xc0) >> 6
}

/// The scrambling code decoded to its meaning.
pub open spec fn spec_transport_scrambling_control(b: Seq<u8>) -> TransportScramblingControl {
    let v = spec_scrambling_code(b);
    if v == 0 {
        TransportScramblingControl::NOTSCRAMBLED
    } else if v & 0x02 != 0 {
        TransportScramblingControl::SCRAMBLED
    } else {
        TransportScramblingControl::UNKNOWN
    }
}

/// The raw 2-bit adaptation_field_control code: bits 5-4 of byte 3.
pub open spec fn spec_adaptation_control_code(b: Seq<u8>) -> u8 {
    (b[3] & 0x30) >> 4
}

/// The adaptation field control code decoded to its meaning: codes 1..=3
/// are meaningful, code 0 is reserved.
pub open spec fn spec_adaptation_filed_control(b: Seq<u8>) -> AdaptationFieldControl {
    let v = spec_adaptation_control_code(b);
    if v == 1 {
        AdaptationFieldControl::NoAdaptationfieldPayloadOnly
    } else if v == 2 {
        AdaptationFieldControl::AdaptationfieldOnlyNoPayload
    } else if v == 3 {
        AdaptationFieldControl::AdaptationfieldFollowedByPayload
    } else {
        AdaptationFieldControl::Unknown
    }
}

/// Whether the adaptation field control announces an adaptation field
/// (code 2: field only, or code 3: field followed by payload).
pub open spec fn spec_has_adaptation_field(b: Seq<u8>) -> bool {
    spec_adaptation_control_code(b) == 2 || spec_adaptation_control_code(b) == 3
}

/// The declared adaptation field length of the packet: the self-declared
/// length at byte 4 when a field is announced, 0 when none is.
pub open spec fn spec_adaptation_filed_length(b: Seq<u8>) -> int {
    if spec_has_adaptation_field(b) {
        b[4] as int
    } else {
        0int
    }
}

/// Where the PSI payload begins: 4 header bytes, plus the total size of
/// the adaptation field when one is announced (its length byte and the
/// bytes that byte declares), plus the pointer_field byte when the payload
/// unit start indicator is set.
pub open spec fn spec_payload_offset(b: Seq<u8>) -> int {
    4 + (if spec_has_adaptation_field(b) {
        1 + b[4] as int
    } else {
        0int
    }) + (if spec_payload_unit_start_indicator(b) {
        1int
    } else {
        0int
    })
}

impl<'b> View for Packet<'b> {
    type V = Seq<u8>;

    closed spec fn view(&self) -> Seq<u8> {
        self.buf@
    }
}

impl<'b> Packet<'b> {
    #[verifier::type_invariant]
    spec fn wf(self) -> bool {
        spec_is_packet(self@)
    }

    /// Whether one byte is the packet sync byte 0x47.
    pub fn is_sync_byte(buf: u8) -> (r: bool)
        ensures
            r == (buf == 0x47),
    {
        buf == 0x47
    }

    /// Construct a packet view, failing with `BadSync` exactly when the
    /// buffer is not 188 bytes long or does not begin with the sync byte.
    pub fn new(buf: &'b [u8]) -> (r: Result<Packet<'b>, FormatError>)
        ensures
            r is Ok <==> spec_is_packet(buf@),
            r is Ok ==> r->Ok_0@ == buf@,
            r is Err ==> r->Err_0 == FormatError::BadSync,
    {
        if buf.len() != 188 {
            return Err(FormatError::BadSync);
        }
        if !Packet::is_sync_byte(buf[0]) {
            return Err(FormatError::BadSync);
        }
        Ok(Packet { buf })
    }

    /// Transport error indicator flag of this packet.
    pub fn transport_error_indicator(&self) -> (r: bool)
        ensures
            r == spec_transport_error_indicator(self@),
    {
        proof {
            use_type_invariant(self);
        }
        self.buf[1] & 0x80 != 0
    }

    /// Payload unit start indicator flag of this packet.
    pub fn payload_unit_start_indicator(&self) -> (r: bool)
        ensures
            r == spec_payload_unit_start_indicator(self@),
    {
        proof {
            use_type_invariant(self);
        }
        self.buf[1] & 0x40 != 0
    }

    /// Transport priority flag of this packet.
    pub fn transport_priority(&self) -> (r: bool)
        ensures
            r == spec_transport_priority(self@),
    {
        proof {
            use_type_invariant(self);
        }
        self.buf[1] & 0x20 != 0
    }

    /// The 13-bit packet identifier, always in [0, 0x1FFF].
    pub fn pid(&self) -> (r: u16)
        ensures
            r == spec_pid(self@),
            r <= 0x1fff,
    {
        proof {
            use_type_invariant(self);
        }
        let b1 = self.buf[1];
        let b2 = self.buf[2];
        proof {
            assert((((b1 & 0x1f) as u16) << 8) | (b2 as u16) <= 0x1fff) by (bit_vector);
        }
        (((b1 & 0x1f) as u16) << 8) | (b2 as u16)
    }

    /// The scrambling state of this packet's payload, with the reserved
    /// code reported as the explicit unknown variant.
    pub fn transport_scrambling_control(&self) -> (r: TransportScramblingControl)
        ensures
            r == spec_transport_scrambling_control(self@),
    {
        proof {
            use_type_invariant(self);
        }
        let v = (self.buf[3] & 0xc0) >> 6;
        if v == 0 {
            TransportScramblingControl::NOTSCRAMBLED
        } else if v & 0x02 != 0 {
            TransportScramblingControl::SCRAMBLED
        } else {
            TransportScramblingControl::UNKNOWN
        }
    }

    /// How this packet's body is laid out, with the reserved code reported
    /// as the explicit unknown variant.
    pub fn adaptation_filed_control(&self) -> (r: AdaptationFieldControl)
        ensures
            r == spec_adaptation_filed_control(self@),
    {
        proof {
            use_type_invariant(self);
        }
        let v = (self.buf[3] & 0x30) >> 4;
        if v == 1 {
            AdaptationFieldControl::NoAdaptationfieldPayloadOnly
        } else if v == 2 {
            AdaptationFieldControl::AdaptationfieldOnlyNoPayload
        } else if v == 3 {
            AdaptationFieldControl::AdaptationfieldFollowedByPayload
        } else {
            AdaptationFieldControl::Unknown
        }
    }

    /// The adaptation field view over bytes [4, 188), returned exactly
    /// when the adaptation field control announces a field; none for
    /// payload-only and for the reserved code.
    pub fn adaptation_filed(&self) -> (r: Option<AdaptationFiled<'b>>)
        ensures
            r is Some <==> spec_has_adaptation_field(self@),
            r is Some ==> r->Some_0@ == self@.subrange(4, 188),
    {
        proof {
            use_type_invariant(self);
        }
        let control = self.adaptation_filed_control();
        match control {
            AdaptationFieldControl::NoAdaptationfieldPayloadOnly
            | AdaptationFieldControl::Unknown => None,
            AdaptationFieldControl::AdaptationfieldOnlyNoPayload
            | AdaptationFieldControl::AdaptationfieldFollowedByPayload => {
                match AdaptationFiled::new(&self.buf[4..188]) {
                    Ok(a) => Some(a),
                    // The region has 184 bytes, so construction cannot fail.
                    Err(_) => None,
                }
            },
        }
    }

    /// The declared adaptation field length: the self-declared length of
    /// the announced field, or 0 when none is announced.
    pub fn adaptation_filed_length(&self) -> (r: usize)
        ensures
            r == spec_adaptation_filed_length(self@),
            r <= 255,
    {
        proof {
            use_type_invariant(self);
        }
        match self.adaptation_filed() {
            Some(a) => a.length(),
            None => 0,
        }
    }

    /// The PSI payload bytes: everything from the payload offset (past the
    /// header, any adaptation field, and the pointer_field byte when the
    /// payload unit start indicator is set) to the end of the packet.
    /// Fails with `ReservedValue` when the adaptation field control
    /// carries the reserved code, so no payload offset is defined, and
    /// with `Truncated` when the declared adaptation field pushes the
    /// offset past the end of the packet.
    pub fn payload_psi(&self) -> (r: Result<&'b [u8], FormatError>)
        ensures
            r is Ok <==> spec_adaptation_control_code(self@) != 0 && spec_payload_offset(self@)
                <= 188,
            r is Ok ==> r->Ok_0@ == self@.subrange(spec_payload_offset(self@), 188),
            spec_adaptation_control_code(self@) == 0 ==> r->Err_0 == FormatError::ReservedValue,
            spec_adaptation_control_code(self@) != 0 && spec_payload_offset(self@) > 188
                ==> r->Err_0 == FormatError::Truncated,
    {
        proof {
            use_type_invariant(self);
        }
        let code = (self.buf[3] & 0x30) >> 4;
        if code == 0 {
            return Err(FormatError::ReservedValue);
        }
        let mut offset: usize = 4;
        if code == 2 || code == 3 {
            offset += 1 + self.buf[4] as usize;
        }
        if self.buf[1] & 0x40 != 0 {
            offset += 1;
        }
        if offset <= 188 {
            Ok(&self.buf[offset..188])
        } else {
            Err(FormatError::Truncated)
        }
    }

    /// The 4-bit continuity counter, always in [0, 15].
    pub fn continuity_counter(&self) -> (r: u8)
        ensures
            r == spec_continuity_counter(self@),
            r <= 15,
    {
        proof {
            use_type_invariant(self);
        }
        let b3 = self.buf[3];
        proof {
            assert(b3 & 0x0f <= 15) by (bit_vector);
        }
        b3 & 0x0f
    }
}

} // verus!
