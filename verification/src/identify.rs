use vstd::prelude::*;
use crate::device::{NvmeControllerData, NvmeNamespace};

verus! {

/// A little-endian u32 read from four consecutive bytes.
pub open spec fn le_u32(s: Seq<u8>, off: int) -> u32 {
    (s[off] + s[off + 1] * 0x100 + s[off + 2] * 0x1_0000 + s[off + 3] * 0x100_0000) as u32
}

/// A little-endian u64 read from eight consecutive bytes.
pub open spec fn le_u64(s: Seq<u8>, off: int) -> u64 {
    (s[off] + s[off + 1] * 0x100 + s[off + 2] * 0x1_0000 + s[off + 3] * 0x100_0000 + s[off + 4]
        * 0x1_0000_0000 + s[off + 5] * 0x100_0000_0000 + s[off + 6] * 0x1_0000_0000_0000 + s[off
        + 7] * 0x100_0000_0000_0000) as u64
}

/// Reads a little-endian u32 out of a byte buffer.
pub fn read_le_u32(bytes: &Vec<u8>, off: usize) -> (r: u32)
    requires
        off + 4 <= bytes@.len(),
    ensures
        r == le_u32(bytes@, off as int),
{
    // Brings the buffer length into scope, so the offsets below are known
    // to stay within usize range.
    let _n = bytes.len();
    (bytes[off] as u32) + (bytes[off + 1] as u32) * 0x100 + (bytes[off + 2] as u32) * 0x1_0000 + (
    bytes[off + 3] as u32) * 0x100_0000
}

/// Reads a little-endian u64 out of a byte buffer.
pub fn read_le_u64(bytes: &Vec<u8>, off: usize) -> (r: u64)
    requires
        off + 8 <= bytes@.len(),
    ensures
        r == le_u64(bytes@, off as int),
{
    // Brings the buffer length into scope, so the offsets below are known
    // to stay within usize range.
    let _n = bytes.len();
    (bytes[off] as u64) + (bytes[off + 1] as u64) * 0x100 + (bytes[off + 2] as u64) * 0x1_0000 + (
    bytes[off + 3] as u64) * 0x100_0000 + (bytes[off + 4] as u64) * 0x1_0000_0000 + (bytes[off + 5]
        as u64) * 0x100_0000_0000 + (bytes[off + 6] as u64) * 0x1_0000_0000_0000 + (bytes[off + 7]
        as u64) * 0x100_0000_0000_0000
}

/// ASCII whitespace, as the identify string fields are padded with it.
pub open spec fn is_space(b: u8) -> bool {
    b == 0x20 || (0x09 <= b <= 0x0D)
}

/// A byte sequence with its leading and trailing ASCII whitespace removed.
pub open spec fn trimmed(s: Seq<u8>) -> Seq<u8>
    decreases s.len(),
{
    if s.len() > 0 && is_space(s[0]) {
        trimmed(s.drop_first())
    } else if s.len() > 0 && is_space(s.last()) {
        trimmed(s.drop_last())
    } else {
        s
    }
}

/// Bytes taken as characters one for one.
pub open spec fn seq_to_chars(s: Seq<u8>) -> Seq<char> {
    s.map_values(|b: u8| b as char)
}

/// Whether a byte is ASCII whitespace.
fn space_byte(b: u8) -> (r: bool)
    ensures
        r == is_space(b),
{
    b == 0x20 || (0x09 <= b && b <= 0x0D)
}

/// If everything before `lo` and everything from `hi` on is whitespace, and
/// the range in between neither starts nor ends with whitespace, then that
/// range is exactly the trimmed sequence.
proof fn lemma_trimmed_bounds(s: Seq<u8>, lo: int, hi: int)
    requires
        0 <= lo <= hi <= s.len(),
        forall|i: int| 0 <= i < lo ==> is_space(#[trigger] s[i]),
        forall|i: int| hi <= i < s.len() ==> is_space(#[trigger] s[i]),
        lo < hi ==> !is_space(s[lo]) && !is_space(s[hi - 1]),
    ensures
        trimmed(s) == s.subrange(lo, hi),
    decreases s.len(),
{
    if s.len() == 0 {
        assert(trimmed(s) =~= s.subrange(lo, hi));
    } else if is_space(s[0]) {
        let t = s.drop_first();
        if lo > 0 {
            lemma_trimmed_bounds(t, lo - 1, hi - 1);
            assert(s.subrange(lo, hi) =~= t.subrange(lo - 1, hi - 1));
        } else {
            // lo == 0 and s starts with whitespace, so lo == hi and every
            // byte of s is whitespace.
            lemma_trimmed_bounds(t, 0, 0);
            assert(s.subrange(lo, hi) =~= t.subrange(0, 0));
        }
    } else if is_space(s.last()) {
        let t = s.drop_last();
        if hi < s.len() {
            lemma_trimmed_bounds(t, lo, hi);
            assert(s.subrange(lo, hi) =~= t.subrange(lo, hi));
        } else {
            // hi == s.len() and s ends with whitespace, so lo == hi and
            // every byte of s is whitespace.
            lemma_trimmed_bounds(t, lo - 1, lo - 1);
            assert(s.subrange(lo, hi) =~= t.subrange(lo - 1, lo - 1));
        }
    } else {
        assert(lo == 0 && hi == s.len());
        assert(trimmed(s) =~= s.subrange(lo, hi));
    }
}

/// Relies on `String`'s `FromIterator<char>` impl: collecting a vector of
/// chars yields a string holding exactly those chars in order.
#[verifier::external_body]
fn chars_to_string(chars: &Vec<char>) -> (s: String)
    ensures
        s@ == chars@,
{
    chars.iter().copied().collect()
}

/// Extracts `bytes[start..end]`, strips leading and trailing ASCII
/// whitespace, and returns the rest as a string, byte for char.
pub fn extract_string(bytes: &Vec<u8>, start: usize, end: usize) -> (s: String)
    requires
        start <= end <= bytes@.len(),
    ensures
        s@ == seq_to_chars(trimmed(bytes@.subrange(start as int, end as int))),
{
    let ghost sub = bytes@.subrange(start as int, end as int);
    let mut lo: usize = start;
    while lo < end && space_byte(bytes[lo])
        invariant
            start <= lo <= end <= bytes@.len(),
            forall|i: int| start <= i < lo ==> is_space(#[trigger] bytes@[i]),
        decreases end - lo,
    {
        lo = lo + 1;
    }
    let mut hi: usize = end;
    while hi > lo && space_byte(bytes[hi - 1])
        invariant
            start <= lo <= hi <= end <= bytes@.len(),
            forall|i: int| start <= i < lo ==> is_space(#[trigger] bytes@[i]),
            forall|i: int| hi <= i < end ==> is_space(#[trigger] bytes@[i]),
        decreases hi - lo,
    {
        hi = hi - 1;
    }
    proof {
        lemma_trimmed_bounds(sub, lo - start, hi - start);
        assert(sub.subrange(lo - start, hi - start) =~= bytes@.subrange(lo as int, hi as int));
    }
    let mut chars: Vec<char> = Vec::new();
    let mut i: usize = lo;
    while i < hi
        invariant
            lo <= i <= hi <= bytes@.len(),
            chars@ == seq_to_chars(bytes@.subrange(lo as int, i as int)),
        decreases hi - i,
    {
        chars.push(bytes[i] as char);
        i = i + 1;
        proof {
            assert(bytes@.subrange(lo as int, i as int) =~= bytes@.subrange(
                lo as int,
                i as int - 1,
            ).push(bytes@[i - 1]));
        }
    }
    proof {
        assert(chars@ =~= seq_to_chars(trimmed(sub)));
    }
    chars_to_string(&chars)
}

/// The CAP fields the core consumes.
#[derive(Debug, Clone, Copy, PartialEq, Eq, Structural)]
pub struct CapFields {
    /// DSTRD, bits 35..32: doorbells are `4 << stride` bytes apart.
    pub doorbell_stride: u8,
    /// `12 + MPSMIN`: the minimum page size as a power-of-two exponent.
    pub page_shift: u8,
    /// `2 ^ (12 + MPSMIN)`: the smallest page the controller supports.
    pub min_pagesize: u64,
    /// MQES + 1: the largest queue the controller supports, in entries.
    pub max_queue_entries: u32,
}

/// Extracts the doorbell stride, minimum page size and maximum queue size
/// from the CAP register value.
pub fn parse_cap(cap: u64) -> (r: CapFields)
    ensures
        r.doorbell_stride == ((cap >> 32) & 0xF) as u8,
        r.page_shift == (12 + ((cap >> 48) & 0xF)) as u8,
        12 <= r.page_shift <= 27,
        r.min_pagesize == 1u64 << (r.page_shift as u64),
        r.max_queue_entries == ((cap & 0xFFFF) + 1) as u32,
        r.doorbell_stride <= 15,
        4096 <= r.min_pagesize <= 0x800_0000,
        1 <= r.max_queue_entries <= 0x10000,
{
    let stride: u64 = (cap >> 32) & 0xF;
    let mps: u64 = (cap >> 48) & 0xF;
    proof {
        assert((cap >> 32) & 0xF <= 15 && (cap >> 48) & 0xF <= 15 && (cap & 0xFFFF) <= 0xFFFF)
            by (bit_vector);
        assert(4096 <= (1u64 << ((12 + ((cap >> 48) & 0xF)) as u64)) <= 0x800_0000)
            by (bit_vector);
    }
    let min_pagesize: u64 = 1u64 << (12 + mps);
    let max_queue_entries: u32 = ((cap & 0xFFFF) + 1) as u32;
    CapFields {
        doorbell_stride: stride as u8,
        page_shift: (12 + mps) as u8,
        min_pagesize,
        max_queue_entries,
    }
}

/// The maximum transfer size in bytes that an MDTS exponent allows, given
/// the controller's page shift (`log2` of its minimum page size). Values so
/// large that the byte count cannot be represented saturate to `u64::MAX`,
/// which no transfer ever reaches. An MDTS of zero is taken at face value
/// as one page; the wire protocol reads it as "no limit", so this is the
/// conservative choice — every transfer it admits is admitted by the
/// controller.
pub open spec fn spec_max_transfer(mdts: u8, page_shift: u8) -> u64 {
    if mdts + page_shift <= 63 {
        1u64 << ((mdts + page_shift) as u64)
    } else {
        u64::MAX
    }
}

/// The block size an LBA-format descriptor names: `2 ^ LBADS`, saturated at
/// `2 ^ 63` should the descriptor be malformed.
pub open spec fn spec_block_size(lbads: u32) -> u64 {
    if lbads < 64 {
        1u64 << (lbads as u64)
    } else {
        1u64 << 63u64
    }
}

/// Extracts the serial number (bytes 4..24), model number (24..64),
/// firmware revision (64..72) and maximum transfer size (from the MDTS
/// exponent in byte 77) out of an Identify-Controller response. The page
/// shift and queue bound come from CAP and are passed through.
pub fn parse_controller_data(bytes: &Vec<u8>, page_shift: u8, max_queue_entries: u32) -> (r:
    NvmeControllerData)
    requires
        bytes@.len() == 4096,
        page_shift <= 27,
    ensures
        r.serial_number@ == seq_to_chars(trimmed(bytes@.subrange(4, 24))),
        r.model_number@ == seq_to_chars(trimmed(bytes@.subrange(24, 64))),
        r.firmware_revision@ == seq_to_chars(trimmed(bytes@.subrange(64, 72))),
        r.max_transfer_size == spec_max_transfer(bytes@[77], page_shift),
        r.max_transfer_size >= 1,
        r.min_pagesize == 1u64 << (page_shift as u64),
        r.max_queue_entries == max_queue_entries,
{
    let serial_number = extract_string(bytes, 4, 24);
    let model_number = extract_string(bytes, 24, 64);
    let firmware_revision = extract_string(bytes, 64, 72);
    let mdts: u8 = bytes[77];
    let max_transfer_size: u64 = if mdts as u32 + page_shift as u32 <= 63 {
        proof {
            let sh = (mdts + page_shift) as u64;
            assert(sh <= 63 ==> 1u64 << sh >= 1) by (bit_vector);
        }
        1u64 << ((mdts as u64) + (page_shift as u64))
    } else {
        u64::MAX
    };
    proof {
        let sh = page_shift as u64;
        assert(sh <= 27 ==> 1u64 << sh >= 1) by (bit_vector);
    }
    let min_pagesize: u64 = 1u64 << (page_shift as u64);
    NvmeControllerData {
        serial_number,
        model_number,
        firmware_revision,
        max_transfer_size,
        min_pagesize,
        max_queue_entries,
    }
}

/// The 1024 namespace identifiers of an Identify-Namespace-List response.
pub open spec fn nsid_seq(s: Seq<u8>) -> Seq<u32> {
    Seq::new(1024, |i: int| le_u32(s, 4 * i))
}

/// A sequence with its zero entries dropped, order kept.
pub open spec fn filter_nonzero(s: Seq<u32>) -> Seq<u32>
    decreases s.len(),
{
    if s.len() == 0 {
        Seq::empty()
    } else if s.last() != 0 {
        filter_nonzero(s.drop_last()).push(s.last())
    } else {
        filter_nonzero(s.drop_last())
    }
}

/// Interprets an Identify-Namespace-List response: 1024 little-endian u32
/// identifiers, the zeroes dropped.
pub fn parse_namespace_list(bytes: &Vec<u8>) -> (r: Vec<u32>)
    requires
        bytes@.len() == 4096,
    ensures
        r@ == filter_nonzero(nsid_seq(bytes@)),
        r@.len() <= 1024,
        forall|i: int| 0 <= i < r@.len() ==> r@[i] != 0,
{
    let mut r: Vec<u32> = Vec::new();
    let mut i: usize = 0;
    while i < 1024
        invariant
            i <= 1024,
            bytes@.len() == 4096,
            r@ == filter_nonzero(nsid_seq(bytes@).take(i as int)),
            forall|j: int| 0 <= j < r@.len() ==> r@[j] != 0,
            r@.len() <= i,
        decreases 1024 - i,
    {
        let id = read_le_u32(bytes, 4 * i);
        proof {
            let pre = nsid_seq(bytes@).take(i as int);
            assert(nsid_seq(bytes@).take(i as int + 1) =~= pre.push(nsid_seq(bytes@)[i as int]));
            assert(nsid_seq(bytes@).take(i as int + 1).drop_last() =~= pre);
            assert(nsid_seq(bytes@)[i as int] == le_u32(bytes@, 4 * (i as int)));
        }
        if id != 0 {
            r.push(id);
        }
        i = i + 1;
    }
    proof {
        assert(nsid_seq(bytes@).take(1024) =~= nsid_seq(bytes@));
    }
    r
}

/// Interprets an Identify-Namespace response: the capacity in blocks at
/// byte 8, the selected LBA format index in the low nibble of byte 26, and
/// the block size as `2 ^ LBADS` from bits 23..16 of the selected format
/// descriptor (16 descriptors of 4 bytes each, starting at byte 128).
pub fn parse_namespace_data(id: u32, bytes: &Vec<u8>) -> (r: NvmeNamespace)
    requires
        bytes@.len() == 4096,
    ensures
        r.id == id,
        r.block_count == le_u64(bytes@, 8),
        r.block_size == spec_block_size((le_u32(bytes@, 128 + 4 * ((bytes@[26] & 0xF) as int))
            >> 16) & 0xFF),
        r.block_size >= 1,
{
    let block_count = read_le_u64(bytes, 8);
    let flba_index: usize = (bytes[26] & 0xF) as usize;
    proof {
        let b = bytes@[26];
        assert((b & 0xF) <= 15) by (bit_vector);
    }
    let lbaf = read_le_u32(bytes, 128 + 4 * flba_index);
    let lbads: u32 = (lbaf >> 16) & 0xFF;
    proof {
        assert(((lbaf >> 16) & 0xFF) < 256) by (bit_vector);
        let l = lbads as u64;
        assert(l < 64 ==> 1u64 << l >= 1) by (bit_vector);
        assert(1u64 << 63u64 >= 1) by (bit_vector);
    }
    let block_size: u64 = if lbads < 64 {
        1u64 << (lbads as u64)
    } else {
        1u64 << 63u64
    };
    NvmeNamespace { id, block_count, block_size }
}

} // verus!
