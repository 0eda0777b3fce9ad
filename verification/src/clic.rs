//! The machine timer of the core-local interrupt controller.

use crate::registers::{word_written, RegisterInterface, MTIMECMP_ADDR, MTIME_ADDR};
use embedded_time::fixed_point::FixedPoint;
use embedded_time::rate::{Hertz, Kilohertz, Megahertz};
use vstd::prelude::*;

verus! {

/// The clock configuration as the timer sees it: the frequency of the
/// real-time clock in hertz, where that clock is active.
#[derive(Clone, Copy, Debug)]
pub struct Clocks {
    rtc_clk: Option<u32>,
}

impl Clocks {
    /// A configuration whose real-time clock runs at `rtc_clk` hertz, or is
    /// not active where `rtc_clk` is `None`.
    pub fn new(rtc_clk: Option<u32>) -> (clocks: Clocks)
        ensures
            clocks.spec_rtc_clk() == rtc_clk,
    {
        Clocks { rtc_clk }
    }

    /// The frequency of the real-time clock, if it is active.
    pub closed spec fn spec_rtc_clk(&self) -> Option<u32> {
        self.rtc_clk
    }

    /// The frequency of the real-time clock, if it is active.
    #[verifier::when_used_as_spec(spec_rtc_clk)]
    pub fn rtc_clk(&self) -> (freq: Option<u32>)
        ensures
            freq == self.spec_rtc_clk(),
    {
        self.rtc_clk
    }
}

/// A rate of `hertz` in whole kilohertz.
pub open spec fn kilohertz(hertz: u32) -> u32 {
    hertz / 1_000
}

/// A rate of `hertz` in whole megahertz.
pub open spec fn megahertz(hertz: u32) -> u32 {
    hertz / 1_000_000
}

/// The tick at which the timer fires when armed at tick `now` with `delay`.
pub open spec fn deadline(now: u64, delay: u64) -> u64
    recommends
        now + delay <= u64::MAX,
{
    (now + delay) as u64
}

/// The rate in kilohertz, as `Kilohertz::<u32>::from` of embedded_time
/// converts a `Hertz<u32>`.
///
/// Trusted: the conversion scales the integer by 1/1000 with checked integer
/// arithmetic, which drops the remainder and fails for no `u32`.
#[verifier::external_body]
fn hertz_to_kilohertz(hertz: u32) -> (khz: u32)
    ensures
        khz == kilohertz(hertz),
{
    Kilohertz::<u32>::from(Hertz(hertz)).integer()
}

/// The rate in megahertz, as `Megahertz::<u32>::from` of embedded_time
/// converts a `Hertz<u32>`.
///
/// Trusted: the conversion scales the integer by 1/1,000,000 with checked
/// integer arithmetic, which drops the remainder and fails for no `u32`.
#[verifier::external_body]
fn hertz_to_megahertz(hertz: u32) -> (mhz: u32)
    ensures
        mhz == megahertz(hertz),
{
    Megahertz::<u32>::from(Hertz(hertz)).integer()
}

/// The machine timer: the tick counter, the compare register and the
/// frequency at which the counter runs.
pub struct Clic<R: RegisterInterface> {
    freq: u32,
    regs: R,
}

impl<R: RegisterInterface> Clic<R> {
    /// The tick frequency in hertz.
    pub closed spec fn spec_frequency(&self) -> u32 {
        self.freq
    }

    /// The state of the registers that the timer reads and writes.
    pub closed spec fn regs(&self) -> R {
        self.regs
    }

    /// The tick count that a read of the counter observes.
    pub open spec fn ticks(&self) -> u64 {
        self.regs().word(MTIME_ADDR)
    }

    /// Returns a `Clic` instance if the RTC is enabled: the real-time clock
    /// gives the frequency of the timer ticks.
    pub fn try_new(clocks: Clocks, regs: R) -> (clic: Option<Self>)
        ensures
            clic is Some <==> clocks.rtc_clk() is Some,
            clic matches Some(c) ==> clocks.rtc_clk() == Some(c.frequency()) && c.regs() == regs,
    {
        match clocks.rtc_clk() {
            Some(freq) => Some(Clic { freq, regs }),
            None => None,
        }
    }

    /// The tick frequency in hertz.
    #[verifier::when_used_as_spec(spec_frequency)]
    pub fn frequency(&self) -> (freq: u32)
        ensures
            freq == self.spec_frequency(),
    {
        self.freq
    }

    /// The registers that the timer reads and writes.
    pub fn registers(&self) -> (regs: &R)
        ensures
            *regs == self.regs(),
    {
        &self.regs
    }

    /// The time in milliseconds: the tick count divided by the frequency in
    /// whole kilohertz.
    pub fn get_time_ms(&self) -> (ms: u64)
        requires
            self.frequency() >= 1_000,
        ensures
            ms == self.ticks() / (kilohertz(self.frequency()) as u64),
    {
        let scale: u64 = hertz_to_kilohertz(self.freq) as u64;
        self.get_ticks() / scale
    }

    /// The time in microseconds: the tick count divided by the frequency in
    /// whole megahertz.
    pub fn get_time_us(&self) -> (us: u64)
        requires
            self.frequency() >= 1_000_000,
        ensures
            us == self.ticks() / (megahertz(self.frequency()) as u64),
    {
        let scale: u64 = hertz_to_megahertz(self.freq) as u64;
        self.get_ticks() / scale
    }

    /// Read the current tick from the mtime register, with one 64-bit read.
    pub fn get_ticks(&self) -> (ticks: u64)
        ensures
            ticks == self.ticks(),
    {
        self.regs.read_u64(MTIME_ADDR)
    }

    /// Set the mtimecmp register with the current mtime value + the specified
    /// delay (in ticks).
    pub fn set_timecmp(&mut self, delay: u64)
        requires
            old(self).ticks() + delay <= u64::MAX,
        ensures
            final(self).frequency() == old(self).frequency(),
            word_written(
                old(self).regs(),
                final(self).regs(),
                MTIMECMP_ADDR,
                deadline(old(self).ticks(), delay),
            ),
    {
        let now: u64 = self.get_ticks();
        self.regs.write_u64(MTIMECMP_ADDR, now + delay);
    }
}

} // verus!
