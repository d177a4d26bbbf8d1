//! Logical records before serialization: the single metadata record and the
//! 256-byte payload chunks.

use vstd::prelude::*;
use vstd::slice::{slice_subrange, slice_to_vec};

use crate::options::Options;
use crate::wire::{le32, push_le32, zero_pad};
use crate::{
    BLOCK_PAYLOAD_SIZE, FLAGS_FAMILY_ID_PRESENT, FLAGS_NOT_MAIN_FLASH, MAGIC_START1,
    METADATA_PROJ_NAME_MAXLEN, METADATA_START1_OFFSET,
};

verus! {

/// One logical record prior to serialization.
pub struct UF2Block {
    /// Secondary magic; the metadata record carries
    /// `MAGIC_START1 + METADATA_START1_OFFSET`, payload records `MAGIC_START1`.
    pub start1: u32,
    /// Flag bits of the record.
    pub flags: u32,
    /// Absolute flash address the record's payload targets.
    pub target_addr: u32,
    /// Raw content, at most 476 bytes; zero-padded on serialization.
    pub payload: Vec<u8>,
}

/// The name as stored: cut down to `METADATA_PROJ_NAME_MAXLEN` bytes when
/// longer, kept whole otherwise.
pub open spec fn truncated_name(name: Seq<u8>) -> Seq<u8> {
    if name.len() > METADATA_PROJ_NAME_MAXLEN {
        name.subrange(0, METADATA_PROJ_NAME_MAXLEN as int)
    } else {
        name
    }
}

/// The fixed 8-byte descriptor prefix: ASCII "RFMETA" then ASCII "01".
pub open spec fn metadata_header() -> Seq<u8> {
    seq![0x52u8, 0x46u8, 0x4Du8, 0x45u8, 0x54u8, 0x41u8, 0x30u8, 0x31u8]
}

/// The 40-byte payload of the metadata record: header, version, the
/// little-endian bitstream size, the stored name length, the name
/// zero-padded to 23 bytes, and the little-endian autoclock frequency.
pub open spec fn metadata_payload_bytes(
    bitstream_size: u32,
    name: Seq<u8>,
    autoclock_hz: u32,
) -> Seq<u8> {
    metadata_header() + le32(bitstream_size) + seq![truncated_name(name).len() as u8]
        + zero_pad(truncated_name(name), METADATA_PROJ_NAME_MAXLEN as nat) + le32(autoclock_hz)
}

/// Builds the single metadata record. Its target address repeats the
/// payload's start address as a marker for the consumer firmware; the
/// record itself is not part of the payload's byte range.
pub fn build_metadata_block(start_offset: u32, bitstream_size: u32, opts: &Options) -> (b:
    UF2Block)
    ensures
        b.start1 == MAGIC_START1 + METADATA_START1_OFFSET,
        b.flags == (FLAGS_NOT_MAIN_FLASH | FLAGS_FAMILY_ID_PRESENT),
        b.target_addr == start_offset,
        b.payload@ == metadata_payload_bytes(bitstream_size, opts.bitstream_name@, opts.autoclock_hz),
        b.payload@.len() == 40,
{
    let mut payload: Vec<u8> = Vec::new();
    // ASCII "RFMETA" followed by ASCII "01".
    payload.push(0x52);
    payload.push(0x46);
    payload.push(0x4D);
    payload.push(0x45);
    payload.push(0x54);
    payload.push(0x41);
    payload.push(0x30);
    payload.push(0x31);
    proof {
        assert(payload@ =~= metadata_header());
    }

    push_le32(&mut payload, bitstream_size);

    let name = &opts.bitstream_name;
    let effective_len: usize = if name.len() > METADATA_PROJ_NAME_MAXLEN {
        METADATA_PROJ_NAME_MAXLEN
    } else {
        name.len()
    };
    payload.push(effective_len as u8);

    let ghost before_name = payload@;
    let mut i: usize = 0;
    while i < effective_len
        invariant
            i <= effective_len,
            effective_len <= name@.len(),
            effective_len == truncated_name(name@).len(),
            name@ == opts.bitstream_name@,
            payload@ == before_name + truncated_name(name@).subrange(0, i as int),
        decreases effective_len - i,
    {
        payload.push(name[i]);
        proof {
            assert(payload@ =~= before_name + truncated_name(name@).subrange(0, i + 1));
        }
        i += 1;
    }
    proof {
        assert(truncated_name(name@).subrange(0, effective_len as int) =~= truncated_name(name@));
    }

    while payload.len() < 13 + METADATA_PROJ_NAME_MAXLEN
        invariant
            before_name.len() == 13,
            effective_len == truncated_name(opts.bitstream_name@).len(),
            13 + effective_len <= payload@.len() <= 13 + METADATA_PROJ_NAME_MAXLEN,
            payload@ == before_name + zero_pad(
                truncated_name(opts.bitstream_name@),
                (payload@.len() - 13) as nat,
            ),
        decreases 13 + METADATA_PROJ_NAME_MAXLEN - payload@.len(),
    {
        payload.push(0);
        proof {
            assert(payload@ =~= before_name + zero_pad(
                truncated_name(opts.bitstream_name@),
                (payload@.len() - 13) as nat,
            ));
        }
    }

    push_le32(&mut payload, opts.autoclock_hz);
    proof {
        assert(payload@ =~= metadata_payload_bytes(
            bitstream_size,
            opts.bitstream_name@,
            opts.autoclock_hz,
        ));
    }

    UF2Block {
        start1: MAGIC_START1 + METADATA_START1_OFFSET,
        flags: FLAGS_NOT_MAIN_FLASH | FLAGS_FAMILY_ID_PRESENT,
        target_addr: start_offset,
        payload,
    }
}

/// How many 256-byte chunks the payload splits into (the last may be short).
pub open spec fn num_chunks(len: nat) -> nat {
    (len + (BLOCK_PAYLOAD_SIZE - 1) as nat) / (BLOCK_PAYLOAD_SIZE as nat)
}

/// `num_chunks` is the ceiling of `len / 256`.
pub proof fn lemma_num_chunks_is_ceil(len: nat)
    ensures
        len % 256 == 0 ==> num_chunks(len) == len / 256,
        len % 256 != 0 ==> num_chunks(len) == len / 256 + 1,
{
    vstd::arithmetic::div_mod::lemma_fundamental_div_mod(len as int, 256);
}

/// The `i`-th chunk of the payload: 256 bytes, or whatever remains.
pub open spec fn chunk_of(data: Seq<u8>, i: int) -> Seq<u8>
    recommends
        0 <= i < num_chunks(data.len()),
{
    data.subrange(
        i * 256,
        if i * 256 + 256 <= data.len() {
            i * 256 + 256
        } else {
            data.len() as int
        },
    )
}

/// Splits the payload into consecutive records of at most 256 bytes, each
/// targeting `start_offset + 256 * index`.
pub fn build_payload_blocks(start_offset: u32, data: &[u8]) -> (blocks: Vec<UF2Block>)
    requires
        start_offset + data@.len() <= u32::MAX,
    ensures
        blocks@.len() == num_chunks(data@.len()),
        forall|k: int| 0 <= k < blocks@.len() ==> {
            &&& (#[trigger] blocks@[k]).start1 == MAGIC_START1
            &&& blocks@[k].flags == FLAGS_FAMILY_ID_PRESENT
            &&& blocks@[k].target_addr == start_offset + k * 256
            &&& blocks@[k].payload@ == chunk_of(data@, k)
            &&& blocks@[k].payload@.len() <= 256
        },
{
    let n = data.len();
    let mut blocks: Vec<UF2Block> = Vec::new();
    let mut pos: usize = 0;
    while pos < n
        invariant
            n == data@.len(),
            start_offset + n <= u32::MAX,
            pos <= n,
            pos % 256 == 0 || pos == n,
            blocks@.len() == num_chunks(pos as nat),
            blocks@.len() * 256 <= pos + 255,
            forall|k: int| 0 <= k < blocks@.len() ==> {
                &&& (#[trigger] blocks@[k]).start1 == MAGIC_START1
                &&& blocks@[k].flags == FLAGS_FAMILY_ID_PRESENT
                &&& blocks@[k].target_addr == start_offset + k * 256
                &&& blocks@[k].payload@ == chunk_of(data@, k)
                &&& blocks@[k].payload@.len() <= 256
            },
        decreases n - pos,
    {
        let end = if n - pos > BLOCK_PAYLOAD_SIZE {
            pos + BLOCK_PAYLOAD_SIZE
        } else {
            n
        };
        let chunk = slice_to_vec(slice_subrange(data, pos, end));
        let ghost k = blocks@.len() as int;
        proof {
            assert(pos == k * 256);
            assert(chunk@ =~= chunk_of(data@, k));
        }
        blocks.push(UF2Block {
            start1: MAGIC_START1,
            flags: FLAGS_FAMILY_ID_PRESENT,
            target_addr: start_offset + pos as u32,
            payload: chunk,
        });
        proof {
            assert(num_chunks(end as nat) == k + 1) by {
                vstd::arithmetic::div_mod::lemma_fundamental_div_mod(end as int, 256);
            }
        }
        pos = end;
    }
    blocks
}

} // verus!
