//! Timing constants of the one-wire protocol and the clock-divisor
//! arithmetic that paces the timing encoder.
//!
//! The encoder's bit-level loop spends a fixed number of its own cycles
//! per serialized bit; the divisor scales the system clock down so that
//! those cycles advance at the configured target bit rate. A "1" and a
//! "0" bit differ only in how long the line stays asserted within the
//! period; the period itself is always `T1 + T2 + T3` cycles.

use vstd::prelude::*;

verus! {

/// Cycles the line is asserted at the start of every bit.
pub const T1_CYCLES: u32 = 8;

/// Extra cycles whose level depends on the bit value; this delta is what
/// makes a "1" distinguishable from a "0".
pub const T2_CYCLES: u32 = 6;

/// Cycles the line is deasserted at the end of every bit.
pub const T3_CYCLES: u32 = 8;

/// One full bit period, in encoder cycles: the three phases always sum to
/// the same constant, whatever the bit value.
pub const CYCLES_PER_BIT: u32 = T1_CYCLES + T2_CYCLES + T3_CYCLES;

/// Target bit rate of the one-wire protocol, in bits per second.
pub const TARGET_BIT_RATE_HZ: u32 = 871_000;

/// Encoder cycles consumed per second when running at the target bit rate.
#[verifier::nonlinear]
pub const CYCLES_PER_SECOND: u32 = TARGET_BIT_RATE_HZ * CYCLES_PER_BIT;

/// Payload bits the encoder pulls per word transaction.
pub const PULL_THRESHOLD_BITS: u32 = 24;

/// The clock divisor (integer part, fractional part in 1/256ths) that
/// makes the encoder's cycle loop run at `CYCLES_PER_SECOND`, so that the
/// serialized waveform advances at the target bit rate.
pub fn clock_divisor(system_clock_hz: u32) -> (r: (u16, u8))
    ensures
        r.0 == system_clock_hz / CYCLES_PER_SECOND,
        r.1 == (system_clock_hz % CYCLES_PER_SECOND) * 256 / (CYCLES_PER_SECOND as int),
{
    let int_part: u32 = system_clock_hz / CYCLES_PER_SECOND;
    let remainder: u32 = system_clock_hz % CYCLES_PER_SECOND;
    let fract_part: u64 = (remainder as u64) * 256 / (CYCLES_PER_SECOND as u64);
    proof {
        assert(int_part <= u16::MAX && remainder < CYCLES_PER_SECOND) by (nonlinear_arith)
            requires
                int_part == system_clock_hz / CYCLES_PER_SECOND,
                remainder == system_clock_hz % CYCLES_PER_SECOND,
                CYCLES_PER_SECOND == 19_162_000,
        ;
        assert(fract_part < 256) by (nonlinear_arith)
            requires
                fract_part == (remainder as int) * 256 / (CYCLES_PER_SECOND as int),
                remainder < CYCLES_PER_SECOND,
                CYCLES_PER_SECOND == 19_162_000,
        ;
    }
    (int_part as u16, fract_part as u8)
}

} // verus!
