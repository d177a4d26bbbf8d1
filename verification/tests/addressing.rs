//! Placement of the payload inside its slot's reserved flash window.

use converter::address::rand_between;
use converter::convert::convert;
use converter::options::{ConvertError, Options};

const PAGE: u32 = 4096;
const BASE_PAGE: u32 = 544 / 4; // 136
const RESERVED_PAGES: u32 = 512 / 4; // 128

fn opts(slot: u8) -> Options {
    Options {
        slot,
        bitstream_name: b"demo".to_vec(),
        autoclock_hz: 0,
    }
}

/// A simple deterministic generator standing in for the host's entropy.
fn lcg(state: &mut u64) -> u64 {
    *state = state.wrapping_mul(6364136223846793005).wrapping_add(1442695040888963407);
    *state
}

#[test]
fn start_address_lies_inside_slot_window() {
    // For every slot and a spread of payload sizes and samples, the start
    // address is page-aligned, strictly inside the slot's window, and leaves
    // the required pages before the window's end.
    let mut state = 1u64;
    for slot in 1..=4u8 {
        for len in [0usize, 1, 600, 4096, 100_000, 495_615] {
            let payload = vec![3u8; len];
            let pages_required = (len as u32 / PAGE) + 4;
            for _ in 0..8 {
                let sample = lcg(&mut state);
                let out = convert(&payload, &opts(slot), sample).expect("fits");
                let start = out.start_offset();
                let window_start = (BASE_PAGE + RESERVED_PAGES * (slot as u32 - 1)) * PAGE;
                let window_end = window_start + RESERVED_PAGES * PAGE;
                assert_eq!(start % PAGE, 0);
                assert!(start > window_start);
                assert!(start + pages_required * PAGE <= window_end);
                // The fixed 4-page margin before the payload region.
                assert!(start >= window_start + 4 * PAGE);
                assert_eq!(out.slot(), slot);
            }
        }
    }
}

#[test]
fn extreme_samples_hit_range_ends() {
    // Sample 0 maps to the lowest page offset, sample u64::MAX to the highest.
    let payload = vec![0u8; 600]; // 4 full pages required
    let low = convert(&payload, &opts(1), 0).expect("fits");
    assert_eq!(low.start_offset(), (BASE_PAGE + 4) * PAGE);
    let high = convert(&payload, &opts(1), u64::MAX).expect("fits");
    assert_eq!(high.start_offset(), (BASE_PAGE + RESERVED_PAGES - 4) * PAGE);
}

#[test]
fn rand_between_maps_sample_linearly() {
    assert_eq!(rand_between(4, 124, 0), Ok(4));
    assert_eq!(rand_between(4, 124, u64::MAX), Ok(124));
    assert_eq!(rand_between(7, 7, 12345), Ok(7));
    // The midpoint sample lands in the middle of the range.
    assert_eq!(rand_between(0, 99, 1u64 << 63), Ok(50));
    assert_eq!(rand_between(5, 4, 0), Err(ConvertError::CapacityExceeded));
}

#[test]
fn start_offset_roughly_uniform_over_valid_range() {
    // Identical inputs, many samples: every valid page offset of slot 1
    // should be hit about equally often. The payload needs 4 pages, so the
    // offsets range over [4, 124]: 121 bins.
    let payload = vec![1u8; 100];
    let bins = 121usize;
    let rounds = 12_100usize;
    let mut counts = vec![0usize; bins];
    let mut state = 42u64;
    for _ in 0..rounds {
        let out = convert(&payload, &opts(1), lcg(&mut state)).expect("fits");
        let page = out.start_offset() / PAGE;
        let offset = page - BASE_PAGE;
        assert!((4..=124).contains(&offset));
        counts[(offset - 4) as usize] += 1;
    }
    // Expect about 100 hits per bin; allow a generous band.
    let expected = rounds / bins;
    for (i, &c) in counts.iter().enumerate() {
        assert!(
            c > expected / 2 && c < expected * 2,
            "offset bin {} hit {} times, expected about {}",
            i,
            c,
            expected
        );
    }
}
