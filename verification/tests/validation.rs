//! Option validation and capacity failures.

use converter::convert::convert;
use converter::options::{validate_options, ConvertError, Options};

fn opts(slot: u8, hz: u32) -> Options {
    Options {
        slot,
        bitstream_name: b"demo".to_vec(),
        autoclock_hz: hz,
    }
}

#[test]
fn slot_zero_and_five_rejected() {
    assert_eq!(validate_options(&opts(0, 0)), Err(ConvertError::InvalidSlot));
    assert_eq!(validate_options(&opts(5, 0)), Err(ConvertError::InvalidSlot));
    assert!(matches!(convert(&[1u8], &opts(0, 0), 7), Err(ConvertError::InvalidSlot)));
    assert!(matches!(convert(&[1u8], &opts(5, 0), 7), Err(ConvertError::InvalidSlot)));
}

#[test]
fn all_four_slots_accepted() {
    for slot in 1..=4u8 {
        assert_eq!(validate_options(&opts(slot, 0)), Ok(()));
        assert!(convert(&[1u8], &opts(slot, 0), 7).is_ok());
    }
}

#[test]
fn autoclock_bounds() {
    // 5 Hz is below the 10 Hz floor; 0 is the disabled sentinel and always valid.
    assert_eq!(validate_options(&opts(1, 5)), Err(ConvertError::InvalidClockRate));
    assert!(matches!(convert(&[1u8], &opts(1, 5), 7), Err(ConvertError::InvalidClockRate)));
    assert_eq!(validate_options(&opts(1, 0)), Ok(()));
    assert_eq!(validate_options(&opts(1, 9)), Err(ConvertError::InvalidClockRate));
    assert_eq!(validate_options(&opts(1, 10)), Ok(()));
    assert_eq!(validate_options(&opts(1, 60_000_000)), Ok(()));
    assert_eq!(validate_options(&opts(1, 60_000_001)), Err(ConvertError::InvalidClockRate));
}

#[test]
fn invalid_slot_reported_before_invalid_clock() {
    assert_eq!(validate_options(&opts(9, 5)), Err(ConvertError::InvalidSlot));
}

#[test]
fn oversized_payload_rejected_with_no_output() {
    // 124 full pages require 128 pages with the headroom, the whole slot.
    let payload = vec![0u8; 124 * 4096];
    assert!(matches!(convert(&payload, &opts(1, 0), 7), Err(ConvertError::CapacityExceeded)));
}

#[test]
fn payload_leaving_empty_offset_range_rejected() {
    // 121 full pages require 125 pages: fewer than the 128 reserved, but the
    // random offset range [4, 3] is inverted.
    let payload = vec![0u8; 121 * 4096];
    assert!(matches!(convert(&payload, &opts(1, 0), 7), Err(ConvertError::CapacityExceeded)));
}

#[test]
fn largest_fitting_payload_accepted() {
    // One byte below 121 pages requires 124 pages, leaving offset 4 alone.
    let payload = vec![0u8; 121 * 4096 - 1];
    let out = convert(&payload, &opts(1, 0), u64::MAX).expect("should fit");
    // A single valid offset: the start address is forced.
    assert_eq!(out.start_offset(), (136 + 4) * 4096);
}

#[test]
fn capacity_checked_after_options() {
    let payload = vec![0u8; 124 * 4096];
    assert!(matches!(convert(&payload, &opts(0, 0), 7), Err(ConvertError::InvalidSlot)));
    assert!(matches!(convert(&payload, &opts(1, 5), 7), Err(ConvertError::InvalidClockRate)));
}

#[test]
fn error_messages_match_surface_texts() {
    assert_eq!(ConvertError::InvalidSlot.message(), "Select a slot between 1-4");
    assert_eq!(
        ConvertError::InvalidClockRate.message(),
        "Auto-clocking only supports rates between 10Hz and 60MHz"
    );
    assert_eq!(
        ConvertError::CapacityExceeded.message(),
        "Bitstream is too large for the selected slot"
    );
}
