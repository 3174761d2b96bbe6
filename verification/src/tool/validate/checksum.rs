use vstd::prelude::*;

use crate::text::{decimal, push_decimal};
use crate::tool::error::{invalid_image, NanodError};

verus! {

/// Size of the extended ESP32 image header, where the segment list starts.
pub const IMAGE_HEADER_LEN: usize = 24;

/// Seed of the ESP32 image checksum.
pub const CHECKSUM_SEED: u8 = 0xEF;

/// XOR of `acc` and every byte of `s`.
pub open spec fn xor_fold(s: Seq<u8>, acc: u8) -> u8
    decreases s.len(),
{
    if s.len() == 0 {
        acc
    } else {
        xor_fold(s.drop_last(), acc) ^ s.last()
    }
}

/// Little-endian u32 at `at`.
pub open spec fn le_u32(data: Seq<u8>, at: int) -> int {
    data[at] as int + data[at + 1] as int * 0x100 + data[at + 2] as int * 0x10000 + data[at
        + 3] as int * 0x1000000
}

/// Where a walk over the segment list ends up.
pub enum SegmentWalk {
    /// All segments read; the data ends at `end` and XORs to `checksum`.
    Done { end: int, checksum: u8 },
    /// The 8-byte header of segment `seg` does not fit at `offset`.
    HeaderTruncated { seg: int, offset: int },
    /// Segment `seg` claims `need` bytes at `offset`, but only `have` remain.
    DataTruncated { seg: int, need: int, offset: int, have: int },
}

/// Walk `remaining` segments starting with segment `seg` at `offset`, XOR-ing
/// each segment's data (not its 8-byte header) into `checksum`. A segment
/// header holds the load address and then the little-endian data size.
pub open spec fn walk_segments(
    data: Seq<u8>,
    remaining: nat,
    seg: int,
    offset: int,
    checksum: u8,
) -> SegmentWalk
    decreases remaining,
{
    if remaining == 0 {
        SegmentWalk::Done { end: offset, checksum }
    } else if offset + 8 > data.len() {
        SegmentWalk::HeaderTruncated { seg, offset }
    } else {
        let size = le_u32(data, offset + 4);
        let start = offset + 8;
        if start + size > data.len() {
            SegmentWalk::DataTruncated { seg, need: size, offset: start, have: data.len() - start }
        } else {
            walk_segments(
                data,
                (remaining - 1) as nat,
                seg + 1,
                start + size,
                xor_fold(data.subrange(start, start + size), checksum),
            )
        }
    }
}

/// The byte where an image of this length keeps its checksum, given that the
/// segment data ends at `end`: the last byte of the next 16-byte boundary
/// strictly after `end`, or the file's last byte when that boundary lies past
/// the end of the file.
pub open spec fn checksum_position(len: int, end: int) -> int {
    let padded_end = (end / 16 + 1) * 16;
    if padded_end > len {
        len - 1
    } else {
        padded_end - 1
    }
}

/// What `verify_checksum` finds wrong with an image, if anything.
pub enum ChecksumFault {
    TooShort,
    HeaderTruncated { seg: int, offset: int },
    DataTruncated { seg: int, need: int, offset: int, have: int },
    Mismatch { expected: u8, actual: u8 },
}

/// What is wrong with the checksum of an ESP32 image, or `None` when it is valid.
pub open spec fn checksum_fault(data: Seq<u8>) -> Option<ChecksumFault> {
    if data.len() < IMAGE_HEADER_LEN {
        Some(ChecksumFault::TooShort)
    } else {
        match walk_segments(data, data[1] as nat, 0, IMAGE_HEADER_LEN as int, CHECKSUM_SEED) {
            SegmentWalk::HeaderTruncated { seg, offset } => Some(
                ChecksumFault::HeaderTruncated { seg, offset },
            ),
            SegmentWalk::DataTruncated { seg, need, offset, have } => Some(
                ChecksumFault::DataTruncated { seg, need, offset, have },
            ),
            SegmentWalk::Done { end, checksum } => {
                let expected = data[checksum_position(data.len() as int, end)];
                if checksum != expected {
                    Some(ChecksumFault::Mismatch { expected, actual: checksum })
                } else {
                    None
                }
            },
        }
    }
}

/// The error `verify_checksum` reports for a fault, its reason text included.
pub open spec fn reports(e: NanodError, f: ChecksumFault) -> bool {
    match f {
        ChecksumFault::TooShort => invalid_image(e, "firmware too short for checksum verification"@),
        ChecksumFault::HeaderTruncated { seg, offset } => invalid_image(
            e,
            "segment "@ + decimal(seg as nat) + " header truncated at offset "@ + decimal(
                offset as nat,
            ),
        ),
        ChecksumFault::DataTruncated { seg, need, offset, have } => invalid_image(
            e,
            "segment "@ + decimal(seg as nat) + " data truncated: need "@ + decimal(need as nat)
                + " bytes at offset "@ + decimal(offset as nat) + ", have "@ + decimal(have as nat),
        ),
        ChecksumFault::Mismatch { expected, actual } => e == NanodError::ChecksumMismatch {
            expected,
            actual,
        },
    }
}

/// XOR `data[start..end]` into `acc`.
fn xor_range(data: &[u8], start: usize, end: usize, acc: u8) -> (r: u8)
    requires
        start <= end <= data@.len(),
    ensures
        r == xor_fold(data@.subrange(start as int, end as int), acc),
{
    let mut checksum = acc;
    let mut k = start;
    while k < end
        invariant
            start <= k <= end <= data@.len(),
            checksum == xor_fold(data@.subrange(start as int, k as int), acc),
        decreases end - k,
    {
        assert(data@.subrange(start as int, k + 1).drop_last() =~= data@.subrange(
            start as int,
            k as int,
        ));
        checksum = checksum ^ data[k];
        k = k + 1;
    }
    checksum
}

/// Verify the ESP32 image checksum.
///
/// ESP32 image format: after the 24-byte extended header, there are N
/// segments, N being the header's second byte. Each segment has an 8-byte
/// header (offset + size) followed by `size` bytes of data. The checksum is
/// XOR of all segment data bytes, seeded with 0xEF. The checksum byte is at
/// the end of the image (padded to 16-byte alignment).
pub fn verify_checksum(data: &[u8]) -> (r: Result<(), NanodError>)
    ensures
        r is Ok <==> checksum_fault(data@) is None,
        r matches Err(e) ==> reports(e, checksum_fault(data@)->0),
{
    if data.len() < IMAGE_HEADER_LEN {
        return Err(
            NanodError::InvalidImage {
                reason: String::from_str("firmware too short for checksum verification"),
            },
        );
    }
    let segment_count = data[1] as usize;
    let mut offset: usize = IMAGE_HEADER_LEN;
    let mut checksum: u8 = CHECKSUM_SEED;
    let mut seg: usize = 0;
    let ghost total = walk_segments(data@, data@[1] as nat, 0, IMAGE_HEADER_LEN as int, CHECKSUM_SEED);
    while seg < segment_count
        invariant
            data@.len() >= IMAGE_HEADER_LEN,
            segment_count == data@[1],
            0 <= seg <= segment_count,
            IMAGE_HEADER_LEN <= offset <= data@.len(),
            total == walk_segments(data@, data@[1] as nat, 0, IMAGE_HEADER_LEN as int, CHECKSUM_SEED),
            walk_segments(data@, (segment_count - seg) as nat, seg as int, offset as int, checksum)
                == total,
        decreases segment_count - seg,
    {
        if offset > data.len() - 8 {
            let mut reason = String::from_str("segment ");
            push_decimal(&mut reason, seg as u64);
            reason.append(" header truncated at offset ");
            push_decimal(&mut reason, offset as u64);
            return Err(NanodError::InvalidImage { reason });
        }
        let seg_size = (data[offset + 4] as u32) + (data[offset + 5] as u32) * 0x100 + (data[offset
            + 6] as u32) * 0x10000 + (data[offset + 7] as u32) * 0x1000000;
        assert(seg_size as int == le_u32(data@, offset + 4));
        let start = offset + 8;
        if seg_size as u64 > (data.len() - start) as u64 {
            let mut reason = String::from_str("segment ");
            push_decimal(&mut reason, seg as u64);
            reason.append(" data truncated: need ");
            push_decimal(&mut reason, seg_size as u64);
            reason.append(" bytes at offset ");
            push_decimal(&mut reason, start as u64);
            reason.append(", have ");
            push_decimal(&mut reason, (data.len() - start) as u64);
            return Err(NanodError::InvalidImage { reason });
        }
        let end = start + seg_size as usize;
        checksum = xor_range(data, start, end, checksum);
        offset = end;
        seg = seg + 1;
    }
    // Checksum byte is at the end, padded to a 16-byte boundary
    let base = offset - offset % 16;
    let expected = if base > data.len() - 16 {
        data[data.len() - 1]
    } else {
        data[base + 15]
    };
    assert(base as int == (offset as int / 16) * 16);
    if checksum != expected {
        return Err(NanodError::ChecksumMismatch { expected, actual: checksum });
    }
    Ok(())
}

/// The data bytes of `remaining` segments starting at `offset`, one
/// segment after another, without their 8-byte headers.
pub open spec fn segment_bytes(data: Seq<u8>, remaining: nat, offset: int) -> Seq<u8>
    decreases remaining,
{
    if remaining == 0 || offset + 8 > data.len() {
        Seq::empty()
    } else {
        let size = le_u32(data, offset + 4);
        let start = offset + 8;
        if start + size > data.len() {
            Seq::empty()
        } else {
            data.subrange(start, start + size) + segment_bytes(data, (remaining - 1) as nat, start + size)
        }
    }
}

proof fn lemma_xor_fold_concat(a: Seq<u8>, b: Seq<u8>, acc: u8)
    ensures
        xor_fold(a + b, acc) == xor_fold(b, xor_fold(a, acc)),
    decreases b.len(),
{
    if b.len() == 0 {
        assert(a + b =~= a);
    } else {
        lemma_xor_fold_concat(a, b.drop_last(), acc);
        assert((a + b).drop_last() =~= a + b.drop_last());
        assert((a + b).last() == b.last());
    }
}

proof fn lemma_walk_checksum(data: Seq<u8>, remaining: nat, seg: int, offset: int, acc: u8)
    ensures
        walk_segments(data, remaining, seg, offset, acc) matches SegmentWalk::Done { checksum, .. }
            ==> checksum == xor_fold(segment_bytes(data, remaining, offset), acc),
    decreases remaining,
{
    if remaining > 0 && offset + 8 <= data.len() {
        let size = le_u32(data, offset + 4);
        let start = offset + 8;
        if start + size <= data.len() {
            let part = data.subrange(start, start + size);
            lemma_walk_checksum(data, (remaining - 1) as nat, seg + 1, start + size, xor_fold(part, acc));
            lemma_xor_fold_concat(part, segment_bytes(data, (remaining - 1) as nat, start + size), acc);
        }
    }
}

/// The checksum of an image is the seed XOR every data byte of every
/// segment, taken together: it is accumulated across segments, not
/// restarted at each one.
pub proof fn law_checksum_covers_all_segments(data: Seq<u8>)
    requires
        data.len() >= IMAGE_HEADER_LEN,
    ensures
        walk_segments(data, data[1] as nat, 0, IMAGE_HEADER_LEN as int, CHECKSUM_SEED) matches SegmentWalk::Done {
            checksum,
            ..
        } ==> checksum == xor_fold(segment_bytes(data, data[1] as nat, IMAGE_HEADER_LEN as int), CHECKSUM_SEED),
        forall|a: Seq<u8>, b: Seq<u8>, acc: u8| #[trigger] xor_fold(a + b, acc) == xor_fold(b, xor_fold(a, acc)),
{
    lemma_walk_checksum(data, data[1] as nat, 0, IMAGE_HEADER_LEN as int, CHECKSUM_SEED);
    assert forall|a: Seq<u8>, b: Seq<u8>, acc: u8| #[trigger] xor_fold(a + b, acc) == xor_fold(b, xor_fold(a, acc)) by {
        lemma_xor_fold_concat(a, b, acc);
    }
}

} // verus!
