//! Typed adapters for the raw values that cross the foreign boundary.
//!
//! The hardware layer reports every operation as a raw `i32` status code, with
//! zero meaning success. [`check_status`] is the one place that convention is
//! interpreted. The porting layer's millisecond-to-tick conversion is pure and
//! platform-dependent; [`mock_ms_to_ticks`] is the deterministic model of it
//! that the test harness substitutes for the real capability.

use vstd::prelude::*;

use crate::WrapperError;

verus! {

/// Interprets a raw foreign status code: zero is success, anything else is a
/// failure carrying exactly that code.
pub fn check_status(code: i32) -> (r: Result<(), WrapperError>)
    ensures
        code == 0 ==> r == Ok::<(), WrapperError>(()),
        code != 0 ==> r == Err::<(), WrapperError>(WrapperError::ForeignStatus(code)),
{
    if code == 0 {
        Ok(())
    } else {
        Err(WrapperError::ForeignStatus(code))
    }
}

/// What the mocked tick conversion returns: the product of milliseconds and
/// the mock's ticks-per-millisecond factor, saturated at the `u32` maximum.
pub open spec fn ticks_model(ms: u32, factor: u32) -> u32 {
    if ms * factor > u32::MAX {
        u32::MAX
    } else {
        (ms * factor) as u32
    }
}

/// Deterministic stand-in for the porting layer's millisecond-to-tick
/// conversion, used when the sequencer runs against a mocked hardware layer.
pub fn mock_ms_to_ticks(ms: u32, factor: u32) -> (r: u32)
    ensures
        r == ticks_model(ms, factor),
{
    proof {
        assert((ms as int) * (factor as int) <= (u32::MAX as int) * (u32::MAX as int))
            by (nonlinear_arith)
            requires
                0 <= ms as int <= u32::MAX as int,
                0 <= factor as int <= u32::MAX as int,
        ;
    }
    let wide: u64 = (ms as u64) * (factor as u64);
    if wide > u32::MAX as u64 {
        u32::MAX
    } else {
        wide as u32
    }
}

/// Tick conversion maps zero milliseconds to zero ticks, whatever the
/// platform's tick rate.
pub proof fn lemma_zero_ms_zero_ticks(factor: u32)
    ensures
        ticks_model(0, factor) == 0,
{
}

/// Tick conversion is pure: two conversions of the same millisecond value
/// under the same tick rate yield the same tick count.
pub proof fn lemma_tick_conversion_pure(ms: u32, factor: u32, r1: u32, r2: u32)
    requires
        r1 == ticks_model(ms, factor),
        r2 == ticks_model(ms, factor),
    ensures
        r1 == r2,
{
}

} // verus!
