//! The orchestrator: validates options, allocates the start address, builds
//! the metadata and payload records, and serializes them into one buffer.

use vstd::prelude::*;
use vstd::arithmetic::div_mod::{lemma_div_is_ordered, lemma_fundamental_div_mod};

use crate::address::{
    address_in_window, allocate_address, chosen_address, fits, page_size_bytes, pages_required,
    slot_window_first_page,
};
use crate::block::{
    build_metadata_block, build_payload_blocks, chunk_of, metadata_payload_bytes, num_chunks,
};
use crate::options::{validate_options, ConvertError, Options};
use crate::wire::{le32, le32_value, lemma_le32_value, record_bytes, serialize_block};
use crate::{
    FLAGS_FAMILY_ID_PRESENT, FLAGS_NOT_MAIN_FLASH, MAGIC_START1, METADATA_START1_OFFSET,
};

verus! {

/// Records in the container: the metadata record plus one per 256-byte chunk.
pub open spec fn total_blocks_spec(len: nat) -> nat {
    1 + num_chunks(len)
}

/// The `j`-th 512-byte record of the container produced for `data` at
/// `start_offset`: record 0 is the metadata record, record `j >= 1` carries
/// the payload's `j - 1`-th chunk.
pub open spec fn record_at(
    data: Seq<u8>,
    start_offset: u32,
    name: Seq<u8>,
    autoclock_hz: u32,
    j: int,
) -> Seq<u8>
    recommends
        0 <= j < total_blocks_spec(data.len()),
        total_blocks_spec(data.len()) <= u32::MAX,
        data.len() <= u32::MAX,
        start_offset + data.len() <= u32::MAX,
{
    let total = total_blocks_spec(data.len()) as u32;
    if j == 0 {
        record_bytes(
            0,
            total,
            (MAGIC_START1 + METADATA_START1_OFFSET) as u32,
            FLAGS_NOT_MAIN_FLASH | FLAGS_FAMILY_ID_PRESENT,
            start_offset,
            metadata_payload_bytes(data.len() as u32, name, autoclock_hz),
        )
    } else {
        record_bytes(
            j as u32,
            total,
            MAGIC_START1,
            FLAGS_FAMILY_ID_PRESENT,
            (start_offset + (j - 1) * 256) as u32,
            chunk_of(data, j - 1),
        )
    }
}

/// The converter's output: the serialized container, the chosen start
/// address, and the slot it was validated for.
pub struct ConversionOutput {
    /// The container: `total_blocks` consecutive 512-byte records.
    pub data: Vec<u8>,
    /// Byte address of the payload's first byte in flash.
    pub start_offset: u32,
    /// The validated slot, echoed back.
    pub slot: u8,
}

impl ConversionOutput {
    /// The serialized container.
    pub fn data(&self) -> (d: &Vec<u8>)
        ensures
            d@ == self.data@,
    {
        &self.data
    }

    /// The chosen start address.
    pub fn start_offset(&self) -> (s: u32)
        ensures
            s == self.start_offset,
    {
        self.start_offset
    }

    /// The slot the payload is destined for.
    pub fn slot(&self) -> (s: u8)
        ensures
            s == self.slot,
    {
        self.slot
    }
}

/// A payload that fits a slot is shorter than 121 pages of bytes.
proof fn lemma_fits_len_bound(len: nat)
    requires
        fits(len),
    ensures
        len < 495616,
{
    lemma_fundamental_div_mod(len as int, 4096);
}

/// Converts a raw bitstream into the update container. `sample` is the
/// caller's uniform random draw over all of `u64`; the allocator maps it
/// onto the valid page offsets of the slot's window.
pub fn convert(data: &[u8], opts: &Options, sample: u64) -> (r: Result<
    ConversionOutput,
    ConvertError,
>)
    ensures
        !opts.slot_ok() ==> r == Err::<ConversionOutput, ConvertError>(ConvertError::InvalidSlot),
        opts.slot_ok() && !opts.clock_ok() ==> r == Err::<ConversionOutput, ConvertError>(
            ConvertError::InvalidClockRate,
        ),
        opts.valid() && !fits(data@.len()) ==> r == Err::<ConversionOutput, ConvertError>(
            ConvertError::CapacityExceeded,
        ),
        r is Ok <==> opts.valid() && fits(data@.len()),
        r is Ok ==> {
            let out = r->Ok_0;
            &&& out.slot == opts.slot
            &&& out.start_offset as nat == chosen_address(opts.slot, data@.len(), sample)
            &&& address_in_window(opts.slot, data@.len(), out.start_offset)
            &&& out.data@.len() == 512 * total_blocks_spec(data@.len())
            &&& forall|j: int|
                0 <= j < total_blocks_spec(data@.len()) ==> #[trigger] out.data@.subrange(
                    512 * j,
                    512 * j + 512,
                ) == record_at(
                    data@,
                    out.start_offset,
                    opts.bitstream_name@,
                    opts.autoclock_hz,
                    j,
                )
        },
{
    match validate_options(opts) {
        Ok(()) => (),
        Err(e) => {
            return Err(e);
        },
    }

    let start_offset = match allocate_address(opts.slot, data.len(), sample) {
        Ok(a) => a,
        Err(e) => {
            return Err(e);
        },
    };

    proof {
        lemma_fits_len_bound(data@.len());
        // The window ends below 648 pages, so every record address fits u32.
        assert(start_offset as nat + pages_required(data@.len()) * page_size_bytes() <= (
        slot_window_first_page(opts.slot) + 128) * page_size_bytes());
        assert(data@.len() <= pages_required(data@.len()) * page_size_bytes()) by {
            lemma_fundamental_div_mod(data@.len() as int, 4096);
        }
        assert(num_chunks(data@.len()) < 2000) by {
            lemma_div_is_ordered(data@.len() as int + 255, (495616 + 255) as int, 256);
        }
    }

    let metadata_block = build_metadata_block(start_offset, data.len() as u32, opts);
    let payload_blocks = build_payload_blocks(start_offset, data);

    let total: u32 = payload_blocks.len() as u32 + 1;
    let mut output: Vec<u8> = Vec::new();

    let mut record = serialize_block(0, total, &metadata_block);
    output.append(&mut record);
    proof {
        assert(output@.subrange(0, 512) =~= output@);
    }

    let ghost gdata = data@;
    let ghost gname = opts.bitstream_name@;
    let ghost ghz = opts.autoclock_hz;
    let mut i: usize = 0;
    while i < payload_blocks.len()
        invariant
            gdata == data@,
            gname == opts.bitstream_name@,
            ghz == opts.autoclock_hz,
            payload_blocks@.len() == num_chunks(gdata.len()),
            payload_blocks@.len() < 2000,
            total == total_blocks_spec(gdata.len()),
            gdata.len() < 495616,
            start_offset as nat + gdata.len() <= u32::MAX,
            forall|k: int| 0 <= k < payload_blocks@.len() ==> {
                &&& (#[trigger] payload_blocks@[k]).start1 == MAGIC_START1
                &&& payload_blocks@[k].flags == FLAGS_FAMILY_ID_PRESENT
                &&& payload_blocks@[k].target_addr == start_offset + k * 256
                &&& payload_blocks@[k].payload@ == chunk_of(gdata, k)
                &&& payload_blocks@[k].payload@.len() <= 256
            },
            i <= payload_blocks@.len(),
            output@.len() == 512 * (i as int + 1),
            forall|j: int|
                0 <= j < i as int + 1 ==> #[trigger] output@.subrange(512 * j, 512 * j + 512)
                    == record_at(gdata, start_offset, gname, ghz, j),
        decreases payload_blocks@.len() - i,
    {
        let ghost before = output@;
        let mut record = serialize_block(i as u32 + 1, total, &payload_blocks[i]);
        output.append(&mut record);
        proof {
            assert forall|j: int| 0 <= j < i as int + 2 implies #[trigger] output@.subrange(
                512 * j,
                512 * j + 512,
            ) == record_at(gdata, start_offset, gname, ghz, j) by {
                if j < i as int + 1 {
                    assert(output@.subrange(512 * j, 512 * j + 512) =~= before.subrange(
                        512 * j,
                        512 * j + 512,
                    ));
                } else {
                    assert(output@.subrange(512 * j, 512 * j + 512) =~= record_at(
                        gdata,
                        start_offset,
                        gname,
                        ghz,
                        j,
                    ));
                }
            }
        }
        i += 1;
    }

    Ok(ConversionOutput { data: output, start_offset, slot: opts.slot })
}

/// Law: in any produced container the metadata record's secondary magic
/// exceeds every payload record's secondary magic by exactly
/// `METADATA_START1_OFFSET`. Both live in bytes 4..8 of their records.
pub proof fn lemma_metadata_magic_offset(
    data: Seq<u8>,
    start_offset: u32,
    name: Seq<u8>,
    autoclock_hz: u32,
    j: int,
)
    requires
        1 <= j < total_blocks_spec(data.len()),
    ensures
        le32_value(record_at(data, start_offset, name, autoclock_hz, 0).subrange(4, 8))
            == le32_value(record_at(data, start_offset, name, autoclock_hz, j).subrange(4, 8))
            + METADATA_START1_OFFSET,
{
    let meta = record_at(data, start_offset, name, autoclock_hz, 0);
    let rec = record_at(data, start_offset, name, autoclock_hz, j);
    assert(meta.subrange(4, 8) =~= le32((MAGIC_START1 + METADATA_START1_OFFSET) as u32));
    assert(rec.subrange(4, 8) =~= le32(MAGIC_START1));
    lemma_le32_value((MAGIC_START1 + METADATA_START1_OFFSET) as u32);
    lemma_le32_value(MAGIC_START1);
}

/// Law: a name longer than 23 bytes is stored as exactly its first 23
/// bytes, and the length byte of the metadata payload reports 23.
pub proof fn lemma_name_truncation(bitstream_size: u32, name: Seq<u8>, autoclock_hz: u32)
    requires
        name.len() > 23,
    ensures
        metadata_payload_bytes(bitstream_size, name, autoclock_hz)[12] == 23u8,
        metadata_payload_bytes(bitstream_size, name, autoclock_hz).subrange(13, 36)
            == name.subrange(0, 23),
{
    let payload = metadata_payload_bytes(bitstream_size, name, autoclock_hz);
    assert(payload.subrange(13, 36) =~= name.subrange(0, 23));
}

} // verus!
