//! The authenticated-envelope parser.
//!
//! The envelope is an executable image in the firmware's standard
//! signed-binary format.  The payload lives in a section named
//! `.initrd`; this module locates that section's raw-data range inside
//! the envelope bytes and extracts the payload in place.
//!
//! All offsets and sizes read from the envelope are untrusted and are
//! validated against the envelope bounds before use.

use vstd::prelude::*;
use vstd::pervasive::VecAdditionalExecFns;
use crate::status::Error;

verus! {

/// A half-open byte range `[start, end)` inside the envelope.
#[derive(Clone, Copy, Debug, PartialEq, Eq, Structural)]
pub struct ByteRange {
    pub start: usize,
    pub end: usize,
}

/// The little-endian 16-bit value stored at `off`.
pub open spec fn le_u16(s: Seq<u8>, off: int) -> int {
    s[off] + 0x100 * s[off + 1]
}

/// The little-endian 32-bit value stored at `off`.
pub open spec fn le_u32(s: Seq<u8>, off: int) -> int {
    s[off] + 0x100 * s[off + 1] + 0x10000 * s[off + 2] + 0x1000000 * s[off + 3]
}

/// The legacy header is present: the buffer holds at least the 0x40
/// legacy-header bytes and starts with the `MZ` magic.
pub open spec fn legacy_header_ok(s: Seq<u8>) -> bool {
    &&& s.len() >= 0x40
    &&& s[0] == 0x4du8
    &&& s[1] == 0x5au8
}

/// The offset of the modern executable header, read from the legacy
/// header.
pub open spec fn pe_offset(s: Seq<u8>) -> int {
    le_u32(s, 0x3c)
}

/// The modern header is in bounds and carries the `PE\0\0` signature.
pub open spec fn pe_signature_ok(s: Seq<u8>) -> bool {
    &&& pe_offset(s) + 24 <= s.len()
    &&& s[pe_offset(s)] == 0x50u8
    &&& s[pe_offset(s) + 1] == 0x45u8
    &&& s[pe_offset(s) + 2] == 0x00u8
    &&& s[pe_offset(s) + 3] == 0x00u8
}

/// The number of entries in the section table.
pub open spec fn num_sections(s: Seq<u8>) -> int {
    le_u16(s, pe_offset(s) + 6)
}

/// The declared size of the optional header that sits between the file
/// header and the section table.
pub open spec fn opt_header_size(s: Seq<u8>) -> int {
    le_u16(s, pe_offset(s) + 20)
}

/// The file offset of the section table.
pub open spec fn section_table_offset(s: Seq<u8>) -> int {
    pe_offset(s) + 24 + opt_header_size(s)
}

/// The whole header chain is well formed: legacy header, signature, and
/// a section table that lies entirely inside the buffer.
pub open spec fn header_ok(s: Seq<u8>) -> bool {
    &&& legacy_header_ok(s)
    &&& pe_signature_ok(s)
    &&& section_table_offset(s) + 40 * num_sections(s) <= s.len()
}

/// The file offset of section-table entry `i` (entries are 40 bytes).
pub open spec fn section_offset(s: Seq<u8>, i: int) -> int {
    section_table_offset(s) + 40 * i
}

/// The eight name bytes of the section name `.initrd` (padded with one
/// trailing NUL to the fixed name-field width).
pub open spec fn initrd_name() -> Seq<u8> {
    seq![0x2eu8, 0x69u8, 0x6eu8, 0x69u8, 0x74u8, 0x72u8, 0x64u8, 0x00u8]
}

/// Section-table entry `i` is named `.initrd`.
pub open spec fn is_initrd_section(s: Seq<u8>, i: int) -> bool {
    s.subrange(section_offset(s, i), section_offset(s, i) + 8) == initrd_name()
}

/// The declared file offset of section `i`'s raw data.
pub open spec fn section_start(s: Seq<u8>, i: int) -> int {
    le_u32(s, section_offset(s, i) + 20)
}

/// The declared size of section `i`'s raw data.
pub open spec fn section_size(s: Seq<u8>, i: int) -> int {
    le_u32(s, section_offset(s, i) + 16)
}

/// The index of the first `.initrd` section at or after `i`, or
/// `num_sections(s)` when none follows.
pub open spec fn first_initrd_from(s: Seq<u8>, i: int) -> int
    decreases num_sections(s) - i,
{
    if i < 0 || i >= num_sections(s) {
        num_sections(s)
    } else if is_initrd_section(s, i) {
        i
    } else {
        first_initrd_from(s, i + 1)
    }
}

/// The index of the section that holds the payload: the first section
/// named `.initrd`.
pub open spec fn initrd_index(s: Seq<u8>) -> int {
    first_initrd_from(s, 0)
}

/// Some section is named `.initrd`.
pub open spec fn has_initrd_section(s: Seq<u8>) -> bool {
    initrd_index(s) < num_sections(s)
}

/// The file offset where the payload starts.
pub open spec fn payload_start(s: Seq<u8>) -> int {
    section_start(s, initrd_index(s))
}

/// The payload length in bytes.
pub open spec fn payload_size(s: Seq<u8>) -> int {
    section_size(s, initrd_index(s))
}

/// The payload range lies entirely inside the envelope.
pub open spec fn payload_in_bounds(s: Seq<u8>) -> bool {
    payload_start(s) + payload_size(s) <= s.len()
}

/// A well-formed envelope: parsable headers, a `.initrd` section, and a
/// payload range that fits in the buffer.
pub open spec fn well_formed_envelope(s: Seq<u8>) -> bool {
    &&& header_ok(s)
    &&& has_initrd_section(s)
    &&& payload_in_bounds(s)
}

/// The payload bytes of a well-formed envelope: the contents of the
/// first `.initrd` section.
pub open spec fn payload_of(s: Seq<u8>) -> Seq<u8> {
    s.subrange(payload_start(s), payload_start(s) + payload_size(s))
}

/// Reads the little-endian 16-bit value at `off`.
fn read_u16(s: &Vec<u8>, off: usize) -> (r: u16)
    requires
        off + 2 <= s@.len(),
    ensures
        r == le_u16(s@, off as int),
{
    let _n: usize = s.len();
    s[off] as u16 + s[off + 1] as u16 * 0x100
}

/// Reads the little-endian 32-bit value at `off`.
fn read_u32(s: &Vec<u8>, off: usize) -> (r: u32)
    requires
        off + 4 <= s@.len(),
    ensures
        r == le_u32(s@, off as int),
{
    let _n: usize = s.len();
    s[off] as u32 + s[off + 1] as u32 * 0x100 + s[off + 2] as u32 * 0x10000
        + s[off + 3] as u32 * 0x1000000
}

/// Compares the eight name bytes of section-table entry at `off` with
/// the `.initrd` name.
fn name_is_initrd(s: &Vec<u8>, off: usize) -> (r: bool)
    requires
        off + 8 <= s@.len(),
    ensures
        r <==> s@.subrange(off as int, off as int + 8) == initrd_name(),
{
    let _n: usize = s.len();
    let r = s[off] == 0x2e && s[off + 1] == 0x69 && s[off + 2] == 0x6e && s[off + 3] == 0x69
        && s[off + 4] == 0x74 && s[off + 5] == 0x72 && s[off + 6] == 0x64 && s[off + 7] == 0x00;
    proof {
        let name = s@.subrange(off as int, off as int + 8);
        if r {
            assert(name =~= initrd_name());
        }
        if name == initrd_name() {
            assert(s@[off as int] == name[0]);
            assert(s@[off as int + 1] == name[1]);
            assert(s@[off as int + 2] == name[2]);
            assert(s@[off as int + 3] == name[3]);
            assert(s@[off as int + 4] == name[4]);
            assert(s@[off as int + 5] == name[5]);
            assert(s@[off as int + 6] == name[6]);
            assert(s@[off as int + 7] == name[7]);
        }
    }
    r
}

/// Returns the data range of the initrd payload in the envelope.
///
/// The envelope headers and the section table are parsed, and the first
/// section named `.initrd` yields the range; every offset read from the
/// envelope is validated against the buffer bounds.  Success comes
/// exactly on well-formed envelopes; a malformed header or an
/// out-of-bounds section reports `invalid-envelope`, a parsable
/// envelope without a `.initrd` section reports `payload-missing`.
pub fn initrd_location(envelope: &Vec<u8>) -> (r: Result<ByteRange, Error>)
    ensures
        r is Ok <==> well_formed_envelope(envelope@),
        match r {
            Ok(range) => {
                &&& range.start == payload_start(envelope@)
                &&& range.end == payload_start(envelope@) + payload_size(envelope@)
                &&& range.start <= range.end <= envelope@.len()
            },
            Err(e) => {
                &&& (e == Error::PayloadMissing <==> header_ok(envelope@)
                    && !has_initrd_section(envelope@))
                &&& (e == Error::InvalidEnvelope <==> !header_ok(envelope@)
                    || (has_initrd_section(envelope@) && !payload_in_bounds(envelope@)))
            },
        },
{
    let ghost s = envelope@;
    let len = envelope.len();
    if len < 0x40 {
        return Err(Error::InvalidEnvelope);
    }
    if !(envelope[0] == 0x4d && envelope[1] == 0x5a) {
        return Err(Error::InvalidEnvelope);
    }
    let pe_off = read_u32(envelope, 0x3c) as usize;
    if pe_off > len || len - pe_off < 24 {
        return Err(Error::InvalidEnvelope);
    }
    if !(envelope[pe_off] == 0x50 && envelope[pe_off + 1] == 0x45 && envelope[pe_off + 2] == 0x00
        && envelope[pe_off + 3] == 0x00) {
        return Err(Error::InvalidEnvelope);
    }
    let n_sections = read_u16(envelope, pe_off + 6) as usize;
    let opt_size = read_u16(envelope, pe_off + 20) as usize;
    if opt_size > len - pe_off - 24 {
        return Err(Error::InvalidEnvelope);
    }
    let table = pe_off + 24 + opt_size;
    if n_sections > (len - table) / 40 {
        proof {
            assert(40 * num_sections(s) > s.len() - section_table_offset(s)) by (nonlinear_arith)
                requires
                    num_sections(s) > (s.len() - section_table_offset(s)) / 40,
                    section_table_offset(s) <= s.len(),
            ;
        }
        return Err(Error::InvalidEnvelope);
    }
    proof {
        assert(40 * num_sections(s) <= s.len() - section_table_offset(s)) by (nonlinear_arith)
            requires
                num_sections(s) <= (s.len() - section_table_offset(s)) / 40,
                section_table_offset(s) <= s.len(),
        ;
        assert(header_ok(s));
    }

    let mut i: usize = 0;
    while i < n_sections
        invariant
            header_ok(s),
            s == envelope@,
            len == s.len(),
            table == section_table_offset(s),
            n_sections == num_sections(s),
            i <= n_sections,
            first_initrd_from(s, 0) == first_initrd_from(s, i as int),
        decreases n_sections - i,
    {
        proof {
            assert(40 * (i + 1) <= 40 * num_sections(s)) by (nonlinear_arith)
                requires i + 1 <= num_sections(s),
            ;
        }
        let entry = table + i * 40;
        proof {
            assert(entry == section_offset(s, i as int));
            assert(entry + 40 <= s.len());
        }
        if name_is_initrd(envelope, entry) {
            proof {
                assert(first_initrd_from(s, i as int) == i);
                assert(initrd_index(s) == i);
            }
            let start = read_u32(envelope, entry + 20) as usize;
            let size = read_u32(envelope, entry + 16) as usize;
            if start > len || size > len - start {
                return Err(Error::InvalidEnvelope);
            }
            return Ok(ByteRange { start, end: start + size });
        }
        proof {
            assert(first_initrd_from(s, i as int) == first_initrd_from(s, i + 1));
        }
        i = i + 1;
    }
    proof {
        assert(first_initrd_from(s, n_sections as int) == num_sections(s));
        assert(!has_initrd_section(s));
    }
    Err(Error::PayloadMissing)
}

/// Relies on Vec::shrink_to_fit: releases excess capacity and leaves
/// the contents unchanged.
#[verifier::external_body]
fn release_excess(data: &mut Vec<u8>)
    ensures
        final(data)@ == old(data)@,
{
    data.shrink_to_fit()
}

/// Compacts the envelope buffer in place so that it holds exactly the
/// payload bytes of `range`: the bytes before `range.start` are
/// dropped, the buffer is truncated to the range's length, and excess
/// capacity is released.  The compaction runs in place so the envelope
/// and the payload never occupy memory twice.
pub fn extract_payload(data: &mut Vec<u8>, range: ByteRange)
    requires
        range.start <= range.end <= old(data)@.len(),
    ensures
        final(data)@ == old(data)@.subrange(range.start as int, range.end as int),
{
    let n = range.end - range.start;
    let mut i: usize = 0;
    while i < n
        invariant
            n == range.end - range.start,
            range.start <= range.end <= old(data)@.len(),
            data@.len() == old(data)@.len(),
            i <= n,
            forall|j: int| 0 <= j < i ==> data@[j] == old(data)@[range.start + j],
            forall|j: int| i <= j < data@.len() ==> data@[j] == old(data)@[j],
        decreases n - i,
    {
        let b = data[range.start + i];
        data.set(i, b);
        i = i + 1;
    }
    data.truncate(n);
    release_excess(data);
    proof {
        assert(data@ =~= old(data)@.subrange(range.start as int, range.end as int));
    }
}

} // verus!
