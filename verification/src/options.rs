//! Caller-supplied conversion options and their validation.

use vstd::prelude::*;

use crate::{MAX_AUTOCLOCK_HZ, MAX_SLOT, MIN_AUTOCLOCK_HZ, MIN_SLOT};

verus! {

/// Why a conversion was rejected. Every failure is reported before any
/// output is produced.
#[derive(Clone, Copy, Debug, PartialEq, Eq, Structural)]
pub enum ConvertError {
    /// The slot number lies outside 1..=4.
    InvalidSlot,
    /// A nonzero autoclock frequency lies outside 10 Hz..=60 MHz.
    InvalidClockRate,
    /// The payload needs at least as many pages as the slot reserves,
    /// or the randomized-offset range is empty.
    CapacityExceeded,
}

impl ConvertError {
    /// The error text surfaced to the caller.
    pub fn message(&self) -> (m: &'static str)
        ensures
            m@ == self.message_spec(),
    {
        match self {
            ConvertError::InvalidSlot => "Select a slot between 1-4",
            ConvertError::InvalidClockRate => "Auto-clocking only supports rates between 10Hz and 60MHz",
            ConvertError::CapacityExceeded => "Bitstream is too large for the selected slot",
        }
    }

    pub open spec fn message_spec(self) -> Seq<char> {
        match self {
            ConvertError::InvalidSlot => "Select a slot between 1-4"@,
            ConvertError::InvalidClockRate => "Auto-clocking only supports rates between 10Hz and 60MHz"@,
            ConvertError::CapacityExceeded => "Bitstream is too large for the selected slot"@,
        }
    }
}

/// Caller-supplied configuration for one conversion.
pub struct Options {
    /// Storage slot the payload is destined for, 1-based.
    pub slot: u8,
    /// Project name recorded in the metadata record; truncated to
    /// `METADATA_PROJ_NAME_MAXLEN` bytes when longer.
    pub bitstream_name: Vec<u8>,
    /// Target clock frequency in Hz; 0 disables auto-clocking.
    pub autoclock_hz: u32,
}

impl Options {
    /// The slot lies in the valid range 1..=4.
    pub open spec fn slot_ok(self) -> bool {
        MIN_SLOT <= self.slot <= MAX_SLOT
    }

    /// The autoclock frequency is either disabled (0) or within bounds.
    pub open spec fn clock_ok(self) -> bool {
        self.autoclock_hz == 0
            || (MIN_AUTOCLOCK_HZ <= self.autoclock_hz <= MAX_AUTOCLOCK_HZ)
    }

    /// Both option fields pass validation.
    pub open spec fn valid(self) -> bool {
        self.slot_ok() && self.clock_ok()
    }
}

/// Checks slot and autoclock bounds; an invalid slot is reported before an
/// invalid clock rate.
pub fn validate_options(opts: &Options) -> (r: Result<(), ConvertError>)
    ensures
        r == (if !opts.slot_ok() {
            Err::<(), ConvertError>(ConvertError::InvalidSlot)
        } else if !opts.clock_ok() {
            Err::<(), ConvertError>(ConvertError::InvalidClockRate)
        } else {
            Ok::<(), ConvertError>(())
        }),
        r is Ok <==> opts.valid(),
{
    if opts.slot < MIN_SLOT || opts.slot > MAX_SLOT {
        return Err(ConvertError::InvalidSlot);
    }

    if opts.autoclock_hz != 0
        && (opts.autoclock_hz < MIN_AUTOCLOCK_HZ || opts.autoclock_hz > MAX_AUTOCLOCK_HZ)
    {
        return Err(ConvertError::InvalidClockRate);
    }

    Ok(())
}

} // verus!
