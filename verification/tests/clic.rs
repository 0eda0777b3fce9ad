use bl602_clic::clic::{Clic, Clocks};
use bl602_clic::registers::{RegisterFile, RegisterInterface, MTIMECMP_ADDR, MTIME_ADDR};

fn timer(freq: u32, ticks: u64) -> Clic<RegisterFile> {
    let mut regs = RegisterFile::new();
    regs.write_u64(MTIME_ADDR, ticks);
    Clic::try_new(Clocks::new(Some(freq)), regs).unwrap()
}

#[test]
fn try_new_without_rtc_gives_no_instance() {
    assert!(Clic::try_new(Clocks::new(None), RegisterFile::new()).is_none());
}

#[test]
fn try_new_with_rtc_keeps_the_frequency() {
    let clocks = Clocks::new(Some(32_768));
    assert_eq!(clocks.rtc_clk(), Some(32_768));
    let clic = Clic::try_new(clocks, RegisterFile::new()).unwrap();
    assert_eq!(clic.frequency(), 32_768);
}

#[test]
fn try_new_with_32k_rtc_gives_milliseconds() {
    let clic = timer(32_768, 65_536);
    assert_eq!(clic.get_time_ms(), 2_048);
}

#[test]
fn get_ticks_returns_the_counter() {
    assert_eq!(timer(32_768, 0).get_ticks(), 0);
    assert_eq!(timer(32_768, 65_536).get_ticks(), 65_536);
    assert_eq!(timer(32_768, u64::MAX).get_ticks(), u64::MAX);
}

#[test]
fn get_time_ms_divides_by_whole_kilohertz() {
    assert_eq!(timer(32_768, 65_536).get_time_ms(), 2_048);
    assert_eq!(timer(1_000, 65_536).get_time_ms(), 65_536);
    assert_eq!(timer(1_999, 65_536).get_time_ms(), 65_536);
    assert_eq!(timer(1_000_000, 5_000_000).get_time_ms(), 5_000);
    assert_eq!(timer(u32::MAX, u64::MAX).get_time_ms(), u64::MAX / 4_294_967);
}

#[test]
fn get_time_us_divides_by_whole_megahertz() {
    assert_eq!(timer(1_000_000, 5_000_000).get_time_us(), 5_000_000);
    assert_eq!(timer(2_000_000, 5_000_000).get_time_us(), 2_500_000);
    assert_eq!(timer(2_999_999, 5_000_000).get_time_us(), 2_500_000);
    assert_eq!(timer(10_000_000, 5_000_000).get_time_us(), 500_000);
}

#[test]
fn set_timecmp_adds_the_delay_to_the_counter() {
    let mut clic = timer(32_768, 10_000);
    clic.set_timecmp(1_000);
    assert_eq!(clic.registers().read_u64(MTIMECMP_ADDR), 11_000);
    assert_eq!(clic.get_ticks(), 10_000);
    assert_eq!(clic.frequency(), 32_768);
}

#[test]
fn set_timecmp_replaces_the_earlier_deadline() {
    let mut clic = timer(1_000_000, 5);
    clic.set_timecmp(10);
    clic.set_timecmp(0);
    assert_eq!(clic.registers().read_u64(MTIMECMP_ADDR), 5);
    clic.set_timecmp(u64::MAX - 5);
    assert_eq!(clic.registers().read_u64(MTIMECMP_ADDR), u64::MAX);
}
