//! Address allocation: each slot owns a fixed window of flash pages, and the
//! payload's start page is drawn pseudo-randomly inside that window so that
//! repeated writes do not wear the same cells.

use vstd::prelude::*;
use vstd::arithmetic::div_mod::{
    lemma_div_is_ordered, lemma_fundamental_div_mod, lemma_fundamental_div_mod_converse,
    lemma_mod_multiples_basic,
};
use vstd::arithmetic::mul::{lemma_mul_inequality, lemma_mul_upper_bound};

use crate::options::ConvertError;
use crate::{BASE_BITSTREAM_STORAGE_ADDRESS_KB, PAGE_BLOCKS, RESERVED_KB_FOR_BITSTREAM_SLOT};

verus! {

/// Bytes per flash page: 4096.
pub open spec fn page_size_bytes() -> nat {
    (PAGE_BLOCKS * 1024) as nat
}

/// Pages reserved for each slot: 128.
pub open spec fn reserved_pages() -> nat {
    (RESERVED_KB_FOR_BITSTREAM_SLOT / PAGE_BLOCKS) as nat
}

/// First page of the reserved storage region: 136.
pub open spec fn base_page() -> nat {
    (BASE_BITSTREAM_STORAGE_ADDRESS_KB / PAGE_BLOCKS) as nat
}

/// Pages the payload claims: its full pages plus a fixed 4-page headroom.
/// The margin is policy, preserved exactly; rounding it away would move
/// every produced address.
pub open spec fn pages_required(len: nat) -> nat {
    len / page_size_bytes() + 4
}

/// First page of the window reserved for `slot`.
pub open spec fn slot_window_first_page(slot: u8) -> nat
    recommends
        1 <= slot <= 4,
{
    base_page() + reserved_pages() * (slot - 1) as nat
}

/// A payload fits its slot when its required pages and the fixed 4-page
/// margin before it still leave a nonempty offset range.
pub open spec fn fits(len: nat) -> bool {
    pages_required(len) + 4 <= reserved_pages()
}

/// How many page offsets the random draw chooses among.
pub open spec fn offset_choices(len: nat) -> nat
    recommends
        fits(len),
{
    (reserved_pages() - pages_required(len) - 4 + 1) as nat
}

/// Where a uniform `sample` over all of `u64` lands when mapped linearly
/// onto `range` choices and floored.
pub open spec fn scaled_offset(sample: u64, range: nat) -> nat {
    (sample as nat * range) / 0x1_0000_0000_0000_0000
}

/// The page the allocator picks: the slot window's first page, the fixed
/// 4-page margin, and the random offset.
pub open spec fn chosen_page(slot: u8, len: nat, sample: u64) -> nat
    recommends
        1 <= slot <= 4,
        fits(len),
{
    slot_window_first_page(slot) + 4 + scaled_offset(sample, offset_choices(len))
}

/// The byte address the allocator returns.
pub open spec fn chosen_address(slot: u8, len: nat, sample: u64) -> nat
    recommends
        1 <= slot <= 4,
        fits(len),
{
    chosen_page(slot, len, sample) * page_size_bytes()
}

/// The produced address is page-aligned, lies strictly inside the slot's
/// window, and leaves the required page count free before the window ends.
pub open spec fn address_in_window(slot: u8, len: nat, addr: u32) -> bool {
    &&& addr as nat % page_size_bytes() == 0
    &&& slot_window_first_page(slot) * page_size_bytes() < addr as nat
    &&& addr as nat + pages_required(len) * page_size_bytes() <= (slot_window_first_page(slot)
        + reserved_pages()) * page_size_bytes()
}

/// Scaling a `u64` sample into `range` choices never reaches `range`.
proof fn lemma_scaled_offset_bound(sample: u64, range: nat)
    requires
        1 <= range <= 0x1_0000_0000_0000_0000,
    ensures
        scaled_offset(sample, range) < range,
{
    let d = 0x1_0000_0000_0000_0000 as int;
    lemma_mul_inequality(sample as int, d - 1, range as int);
    lemma_div_is_ordered(sample as int * range as int, (d - 1) * range as int, d);
    assert((d - 1) * range as int == (range as int - 1) * d + (d - range as int)) by (nonlinear_arith);
    lemma_fundamental_div_mod_converse((d - 1) * range as int, d, range as int - 1, d - range as int);
}

/// Law: the sample mapping covers its whole range — every value of
/// `min..=max` is produced by some `u64` sample. Together with
/// `rand_between`'s bounds this pins the draw onto exactly that range;
/// that the draw is also uniform is a property of the caller's entropy,
/// outside what the code can state.
pub proof fn lemma_every_offset_reachable(min: u32, max: u32, v: u32)
    requires
        min <= v <= max,
    ensures
        exists|sample: u64| min + #[trigger] scaled_offset(sample, (max - min + 1) as nat) == v,
{
    let d = 0x1_0000_0000_0000_0000 as int;
    let r: int = max as int - min as int + 1;
    let k: int = v as int - min as int;
    // The witness: the least sample whose scaled value reaches k.
    let sq: int = (k * d + r - 1) / r;
    lemma_fundamental_div_mod(k * d + r - 1, r);
    let m: int = (k * d + r - 1) % r;
    assert(sq * r == k * d + (r - 1 - m));
    lemma_mul_inequality(k, r - 1, d);
    assert(sq >= 0) by {
        lemma_div_is_ordered(0, k * d + r - 1, r);
    }
    assert(sq < d) by {
        if sq >= d {
            lemma_mul_inequality(d, sq, r);
        }
    }
    let sample = sq as u64;
    lemma_fundamental_div_mod_converse(sq * r, d, k, r - 1 - m);
    assert(min + #[trigger] scaled_offset(sample, (max - min + 1) as nat) == v);
}

/// Maps a uniform `u64` sample onto the integers `min..=max` by linear
/// scaling and flooring. An inverted range means the payload left no page
/// to choose, reported as `CapacityExceeded`.
pub fn rand_between(min: u32, max: u32, sample: u64) -> (r: Result<u32, ConvertError>)
    ensures
        max < min ==> r == Err::<u32, ConvertError>(ConvertError::CapacityExceeded),
        min <= max ==> {
            &&& r is Ok
            &&& r->Ok_0 == min + scaled_offset(sample, (max - min + 1) as nat)
            &&& min <= r->Ok_0 <= max
        },
{
    if max < min {
        return Err(ConvertError::CapacityExceeded);
    }

    let range: u64 = (max - min) as u64 + 1;
    proof {
        lemma_mul_upper_bound(sample as int, u64::MAX as int, range as int, 0x1_0000_0000 as int);
        lemma_scaled_offset_bound(sample, range as nat);
    }
    let prod: u128 = (sample as u128) * (range as u128);
    let offset: u32 = (prod / 0x1_0000_0000_0000_0000u128) as u32;
    Ok(min + offset)
}

/// Computes the reserved window for the validated slot and draws the
/// payload's start address inside it from the caller's uniform sample.
pub fn allocate_address(slot: u8, payload_len: usize, sample: u64) -> (r: Result<
    u32,
    ConvertError,
>)
    requires
        1 <= slot <= 4,
    ensures
        r is Ok <==> fits(payload_len as nat),
        !fits(payload_len as nat) ==> r == Err::<u32, ConvertError>(ConvertError::CapacityExceeded),
        r is Ok ==> r->Ok_0 as nat == chosen_address(slot, payload_len as nat, sample),
        r is Ok ==> address_in_window(slot, payload_len as nat, r->Ok_0),
{
    let slot_index = (slot - 1) as u32;
    let reserved_pages_for_bitstream_slot = RESERVED_KB_FOR_BITSTREAM_SLOT / PAGE_BLOCKS;
    let base_page = BASE_BITSTREAM_STORAGE_ADDRESS_KB / PAGE_BLOCKS;
    let pages_needed = payload_len / (PAGE_BLOCKS as usize * 1024) + 4;

    if pages_needed >= reserved_pages_for_bitstream_slot as usize {
        return Err(ConvertError::CapacityExceeded);
    }
    let pages_required: u32 = pages_needed as u32;

    let lowest_page_for_slot = base_page + reserved_pages_for_bitstream_slot * slot_index;
    let upper_random = reserved_pages_for_bitstream_slot - pages_required;
    let random_offset_pages = match rand_between(4, upper_random, sample) {
        Ok(offset) => offset,
        Err(e) => {
            return Err(e);
        },
    };
    let start_page = lowest_page_for_slot + random_offset_pages;
    let start_offset = start_page * (PAGE_BLOCKS * 1024);

    proof {
        lemma_mod_multiples_basic(start_page as int, page_size_bytes() as int);
    }
    Ok(start_offset)
}

} // verus!
