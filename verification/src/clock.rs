//! The sampling clock: the period of the timer that ticks the pipelines, and
//! the flag by which it asks for service.

use vstd::prelude::*;

verus! {

/// Duration of half a bit on the infrared link, in microseconds.
pub const HALF_BIT_MICROS: u32 = 889;

/// The number of samples that the decoder takes of every half bit.
pub const SAMPLES_PER_HALF_BIT: u32 = 3;

/// The timer period, in whole microseconds, that yields `samples_per_half_bit`
/// ticks in every half bit of `half_bit_micros`; `None` when no tick at all is
/// asked for.
pub fn sample_period_micros(half_bit_micros: u32, samples_per_half_bit: u32) -> (period: Option<
    u32,
>)
    ensures
        period == period_of(half_bit_micros, samples_per_half_bit),
{
    if samples_per_half_bit == 0 {
        None
    } else {
        Some(half_bit_micros / samples_per_half_bit)
    }
}

/// The half bit divided by the number of samples, rounded down.
pub open spec fn period_of(half_bit_micros: u32, samples_per_half_bit: u32) -> Option<u32> {
    if samples_per_half_bit == 0 {
        None
    } else {
        Some((half_bit_micros / samples_per_half_bit) as u32)
    }
}

/// A periodic timer as the tick handler sees it: it fires every period, and
/// each firing stays pending until the handler acknowledges it. A handler that
/// returns without acknowledging is entered again at once.
#[derive(Clone, Copy, Debug, PartialEq, Eq, Structural)]
pub struct SampleClock {
    period_micros: u32,
    pending: bool,
}

impl SampleClock {
    /// The time between two firings, in microseconds.
    pub closed spec fn period(&self) -> u32 {
        self.period_micros
    }

    /// Whether a firing waits to be acknowledged.
    pub closed spec fn pending(&self) -> bool {
        self.pending
    }

    /// A clock for `samples_per_half_bit` ticks in every half bit, with
    /// nothing pending; `None` when no tick at all is asked for.
    pub fn new(half_bit_micros: u32, samples_per_half_bit: u32) -> (clock: Option<Self>)
        ensures
            match clock {
                Some(c) => period_of(half_bit_micros, samples_per_half_bit) == Some(c.period())
                    && !c.pending(),
                None => period_of(half_bit_micros, samples_per_half_bit) is None,
            },
    {
        match sample_period_micros(half_bit_micros, samples_per_half_bit) {
            Some(period_micros) => Some(SampleClock { period_micros, pending: false }),
            None => None,
        }
    }

    /// The time between two firings, in microseconds.
    pub fn period_micros(&self) -> (period: u32)
        ensures
            period == self.period(),
    {
        self.period_micros
    }

    /// Whether a firing waits to be acknowledged.
    pub fn is_pending(&self) -> (pending: bool)
        ensures
            pending == self.pending(),
    {
        self.pending
    }

    /// The period has elapsed: the firing is pending from now on.
    pub fn fire(&mut self)
        ensures
            final(self).pending(),
            final(self).period() == old(self).period(),
    {
        self.pending = true;
    }

    /// The handler has taken the firing: nothing is pending any more.
    pub fn acknowledge(&mut self)
        ensures
            !final(self).pending(),
            final(self).period() == old(self).period(),
    {
        self.pending = false;
    }
}

} // verus!
