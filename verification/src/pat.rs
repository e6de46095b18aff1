use vstd::prelude::*;

use crate::error::FormatError;
use crate::section::spec_section_length;
use crate::section::spec_section_syntax_indicator;

verus! {

/// One entry of the Program Association Table: a program number and the
/// 13-bit PID of that program's map table. Program number 0 designates
/// the Network Information Table PID rather than a program.
#[derive(Clone, Copy, Debug, PartialEq, Eq, Structural)]
pub struct ProgramEntry {
    pub program_number: u16,
    pub pid: u16,
}

/// A decoded Program Association Table: its metadata and its program
/// entries in on-the-wire order.
pub struct PatTable {
    pub transport_stream_id: u16,
    pub version: u8,
    pub current_next_indicator: bool,
    pub section_number: u8,
    pub last_section_number: u8,
    pub entries: Vec<ProgramEntry>,
}

/// The transport stream id of a PAT body: bytes 3 and 4.
pub open spec fn spec_pat_transport_stream_id(b: Seq<u8>) -> u16 {
    ((b[3] as u16) << 8) | (b[4] as u16)
}

/// The 5-bit version number: bits 5..1 of byte 5.
pub open spec fn spec_pat_version(b: Seq<u8>) -> u8 {
    (b[5] & 0x3e) >> 1
}

/// The current_next indicator: bit 0 of byte 5.
pub open spec fn spec_pat_current_next_indicator(b: Seq<u8>) -> bool {
    b[5] & 0x01 != 0
}

/// The section number: byte 6.
pub open spec fn spec_pat_section_number(b: Seq<u8>) -> u8 {
    b[6]
}

/// The last section number: byte 7.
pub open spec fn spec_pat_last_section_number(b: Seq<u8>) -> u8 {
    b[7]
}

/// Whether the section length of a PAT body is consistent with the entry
/// size: at least the 5 fixed bytes, and whole 4-byte entries after them.
pub open spec fn spec_pat_length_ok(b: Seq<u8>) -> bool {
    spec_section_length(b) >= 5 && (spec_section_length(b) - 5) % 4 == 0
}

/// The program entry decoded from bytes [8 + 4i, 12 + 4i): two bytes of
/// program number, then a PID in the low 13 bits of the next two bytes.
/// The mask is applied to the fully assembled 16-bit value, so the top 3
/// reserved bits are discarded.
pub open spec fn spec_program_entry(b: Seq<u8>, i: int) -> ProgramEntry {
    ProgramEntry {
        program_number: ((b[8 + 4 * i] as u16) << 8) | (b[9 + 4 * i] as u16),
        pid: (((b[10 + 4 * i] as u16) << 8) | (b[11 + 4 * i] as u16)) & 0x1fff,
    }
}

/// How many whole entries a decoder reads: the count the section length
/// declares, truncated to the whole entries the buffer actually holds.
pub open spec fn spec_pat_entry_count(b: Seq<u8>) -> int
    recommends
        b.len() >= 8,
        spec_section_length(b) >= 5,
{
    let declared = (spec_section_length(b) - 5) / 4;
    let avail = (b.len() - 8) / 4;
    if declared <= avail {
        declared
    } else {
        avail
    }
}

/// The decoded PID of any program entry keeps only the low 13 bits of its
/// two bytes: it never exceeds 0x1FFF, and the byte pair 0xFF, 0xFF
/// decodes to exactly 0x1FFF, never 0xFFFF.
pub proof fn lemma_pid_mask(b: Seq<u8>, i: int)
    ensures
        spec_program_entry(b, i).pid <= 0x1fff,
        b[10 + 4 * i] == 0xff && b[11 + 4 * i] == 0xff ==> spec_program_entry(b, i).pid
            == 0x1fff,
{
    let hi = b[10 + 4 * i];
    let lo = b[11 + 4 * i];
    assert((((hi as u16) << 8) | (lo as u16)) & 0x1fff <= 0x1fff) by (bit_vector);
    assert(hi == 0xff && lo == 0xff ==> (((hi as u16) << 8) | (lo as u16)) & 0x1fff == 0x1fff)
        by (bit_vector);
}

impl PatTable {
    /// Decode the payload bytes of a PID-0 section into a typed table.
    ///
    /// `bytes` must begin at the table_id byte of a section already
    /// identified as a PAT (table_id 0). The decode fails with
    /// `UnsupportedSyntax` exactly when the section syntax indicator is
    /// clear, with `BadLength` exactly when the section length is below
    /// the 5 fixed bytes or leaves a partial entry, and with `Truncated`
    /// exactly when the buffer ends before the 5 fixed bytes. It succeeds
    /// otherwise, reading the declared number of entries, truncated to
    /// the whole entries the buffer holds.
    pub fn parse(bytes: &[u8]) -> (r: Result<PatTable, FormatError>)
        requires
            bytes@.len() >= 3,
            bytes@[0] == 0x00,
        ensures
            r is Ok <==> spec_section_syntax_indicator(bytes@) && spec_pat_length_ok(bytes@)
                && bytes@.len() >= 8,
            !spec_section_syntax_indicator(bytes@) ==> r->Err_0 == FormatError::UnsupportedSyntax,
            spec_section_syntax_indicator(bytes@) && !spec_pat_length_ok(bytes@) ==> r->Err_0
                == FormatError::BadLength,
            spec_section_syntax_indicator(bytes@) && spec_pat_length_ok(bytes@) && bytes@.len()
                < 8 ==> r->Err_0 == FormatError::Truncated,
            r is Ok ==> (spec_section_length(bytes@) - 5) % 4 == 0,
            r is Ok ==> {
                let t = r->Ok_0;
                &&& t.transport_stream_id == spec_pat_transport_stream_id(bytes@)
                &&& t.version == spec_pat_version(bytes@)
                &&& t.version <= 31
                &&& t.current_next_indicator == spec_pat_current_next_indicator(bytes@)
                &&& t.section_number == spec_pat_section_number(bytes@)
                &&& t.last_section_number == spec_pat_last_section_number(bytes@)
                &&& t.entries@.len() == spec_pat_entry_count(bytes@)
                &&& forall|i: int|
                    0 <= i < t.entries@.len() ==> t.entries@[i] == spec_program_entry(bytes@, i)
            },
            r is Ok && bytes@.len() >= 3 + spec_section_length(bytes@) ==> r->Ok_0.entries@.len()
                == (spec_section_length(bytes@) - 5) / 4,
    {
        let n = bytes.len();
        if bytes[1] & 0x80 == 0 {
            return Err(FormatError::UnsupportedSyntax);
        }
        let section_length = ((((bytes[1] & 0x0f) as u16) << 8) | (bytes[2] as u16)) as usize;
        if section_length < 5 || (section_length - 5) % 4 != 0 {
            return Err(FormatError::BadLength);
        }
        if n < 8 {
            return Err(FormatError::Truncated);
        }
        let declared_count = (section_length - 5) / 4;
        let avail_count = (n - 8) / 4;
        let count = if declared_count <= avail_count {
            declared_count
        } else {
            avail_count
        };
        proof {
            assert(count == spec_pat_entry_count(bytes@));
            assert(4 * ((n - 8) as int / 4) <= n - 8) by (nonlinear_arith);
            assert(8 + 4 * count <= n);
        }
        let transport_stream_id = ((bytes[3] as u16) << 8) | (bytes[4] as u16);
        let version = (bytes[5] & 0x3e) >> 1;
        proof {
            let b5 = bytes@[5];
            assert((b5 & 0x3e) >> 1 <= 31) by (bit_vector);
        }
        let current_next_indicator = bytes[5] & 0x01 != 0;
        let section_number = bytes[6];
        let last_section_number = bytes[7];
        let mut entries: Vec<ProgramEntry> = Vec::new();
        let mut cnt: usize = 0;
        while cnt < count
            invariant
                count == spec_pat_entry_count(bytes@),
                8 + 4 * count <= bytes@.len(),
                cnt <= count,
                entries@.len() == cnt,
                forall|i: int| 0 <= i < cnt ==> entries@[i] == spec_program_entry(bytes@, i),
            decreases count - cnt,
        {
            let w = cnt * 4;
            let program_number = ((bytes[8 + w] as u16) << 8) | (bytes[9 + w] as u16);
            let pid = (((bytes[10 + w] as u16) << 8) | (bytes[11 + w] as u16)) & 0x1fff;
            entries.push(ProgramEntry { program_number, pid });
            cnt += 1;
        }
        proof {
            if bytes@.len() >= 3 + spec_section_length(bytes@) {
                vstd::arithmetic::div_mod::lemma_div_is_ordered(
                    (section_length - 5) as int,
                    (n - 8) as int,
                    4,
                );
            }
        }
        Ok(
            PatTable {
                transport_stream_id,
                version,
                current_next_indicator,
                section_number,
                last_section_number,
                entries,
            },
        )
    }
}

} // verus!
