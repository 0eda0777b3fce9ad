use bl602_clic::interrupts::{
    clear_interrupt, disable_interrupt, enable_interrupt, Interrupt, DMA0_IRQ, GPIO_IRQ, I2C0_IRQ,
    IRQ_NUM_BASE, MEIP_IRQ, MSIP_IRQ, MTIP_IRQ, PWM_IRQ, SPI0_IRQ, TIMER_CH0_IRQ, TIMER_CH1_IRQ,
    UART0_IRQ, UART1_IRQ, WATCHDOG_IRQ,
};
use bl602_clic::registers::{
    RegisterFile, RegisterInterface, CLIC_BANK_LEN, ENABLE_BASE, MTIMECMP_ADDR, MTIME_ADDR,
    PENDING_BASE,
};

fn known_sources() -> Vec<Interrupt> {
    vec![
        Interrupt::MachineSoft,
        Interrupt::MachineTimer,
        Interrupt::MachineExternal,
        Interrupt::Gpio,
        Interrupt::TimerCh0,
        Interrupt::TimerCh1,
        Interrupt::Watchdog,
        Interrupt::Dma,
        Interrupt::Spi,
        Interrupt::Uart0,
        Interrupt::Uart1,
        Interrupt::I2c,
        Interrupt::Pwm,
    ]
}

#[test]
fn irq_numbers_match_the_hardware_table() {
    assert_eq!(IRQ_NUM_BASE, 16);
    assert_eq!(Interrupt::MachineSoft.to_irq(), 3);
    assert_eq!(Interrupt::MachineTimer.to_irq(), 7);
    assert_eq!(Interrupt::MachineExternal.to_irq(), 11);
    assert_eq!(Interrupt::Dma.to_irq(), 31);
    assert_eq!(Interrupt::Spi.to_irq(), 43);
    assert_eq!(Interrupt::Uart0.to_irq(), 45);
    assert_eq!(Interrupt::Uart1.to_irq(), 46);
    assert_eq!(Interrupt::I2c.to_irq(), 48);
    assert_eq!(Interrupt::Pwm.to_irq(), 50);
    assert_eq!(Interrupt::TimerCh0.to_irq(), 52);
    assert_eq!(Interrupt::TimerCh1.to_irq(), 53);
    assert_eq!(Interrupt::Watchdog.to_irq(), 54);
    assert_eq!(Interrupt::Gpio.to_irq(), 60);
}

#[test]
fn irq_constants_are_the_lines_of_their_sources() {
    assert_eq!(Interrupt::from(MSIP_IRQ), Interrupt::MachineSoft);
    assert_eq!(Interrupt::from(MTIP_IRQ), Interrupt::MachineTimer);
    assert_eq!(Interrupt::from(MEIP_IRQ), Interrupt::MachineExternal);
    assert_eq!(Interrupt::from(DMA0_IRQ), Interrupt::Dma);
    assert_eq!(Interrupt::from(SPI0_IRQ), Interrupt::Spi);
    assert_eq!(Interrupt::from(UART0_IRQ), Interrupt::Uart0);
    assert_eq!(Interrupt::from(UART1_IRQ), Interrupt::Uart1);
    assert_eq!(Interrupt::from(I2C0_IRQ), Interrupt::I2c);
    assert_eq!(Interrupt::from(PWM_IRQ), Interrupt::Pwm);
    assert_eq!(Interrupt::from(TIMER_CH0_IRQ), Interrupt::TimerCh0);
    assert_eq!(Interrupt::from(TIMER_CH1_IRQ), Interrupt::TimerCh1);
    assert_eq!(Interrupt::from(WATCHDOG_IRQ), Interrupt::Watchdog);
    assert_eq!(Interrupt::from(GPIO_IRQ), Interrupt::Gpio);
}

#[test]
fn from_then_to_irq_returns_the_number() {
    let mut known = 0;
    for irq in 0u32..=1024 {
        let source = Interrupt::from(irq);
        if source != Interrupt::Unknown {
            assert_eq!(source.to_irq(), irq);
            known += 1;
        }
    }
    assert_eq!(known, 13);
}

#[test]
fn to_irq_then_from_returns_the_source() {
    for source in known_sources() {
        assert_eq!(Interrupt::from(source.to_irq()), source);
    }
}

#[test]
fn no_two_sources_share_an_irq() {
    let sources = known_sources();
    for (i, a) in sources.iter().enumerate() {
        for b in sources.iter().skip(i + 1) {
            assert_ne!(a.to_irq(), b.to_irq());
        }
    }
}

#[test]
fn numbers_outside_the_table_are_unknown() {
    assert_eq!(Interrupt::from(0), Interrupt::Unknown);
    assert_eq!(Interrupt::from(16), Interrupt::Unknown);
    assert_eq!(Interrupt::from(59), Interrupt::Unknown);
    assert_eq!(Interrupt::from(61), Interrupt::Unknown);
    assert_eq!(Interrupt::from(200), Interrupt::Unknown);
    assert_eq!(Interrupt::from(u32::MAX), Interrupt::Unknown);
}

#[test]
fn enable_then_disable_gpio() {
    let mut regs = RegisterFile::new();
    enable_interrupt(&mut regs, Interrupt::Gpio);
    assert_eq!(regs.read_u8(ENABLE_BASE + 60), 1);
    disable_interrupt(&mut regs, Interrupt::Gpio);
    assert_eq!(regs.read_u8(ENABLE_BASE + 60), 0);
}

#[test]
fn enable_touches_one_byte_only() {
    let mut regs = RegisterFile::new();
    regs.write_u64(MTIME_ADDR, 77);
    regs.write_u64(MTIMECMP_ADDR, 99);
    enable_interrupt(&mut regs, Interrupt::Uart1);
    for line in 0..CLIC_BANK_LEN {
        let expected = if line == 46 { 1 } else { 0 };
        assert_eq!(regs.read_u8(ENABLE_BASE + line), expected);
        assert_eq!(regs.read_u8(PENDING_BASE + line), 0);
    }
    assert_eq!(regs.read_u64(MTIME_ADDR), 77);
    assert_eq!(regs.read_u64(MTIMECMP_ADDR), 99);
}

#[test]
fn clear_uart0_leaves_spi_pending() {
    let mut regs = RegisterFile::new();
    regs.write_u8(PENDING_BASE + Interrupt::Spi.to_irq(), 1);
    regs.write_u8(PENDING_BASE + Interrupt::Uart0.to_irq(), 1);
    clear_interrupt(&mut regs, Interrupt::Uart0);
    assert_eq!(regs.read_u8(PENDING_BASE + 45), 0);
    assert_eq!(regs.read_u8(PENDING_BASE + 43), 1);
}

#[test]
fn clear_does_not_touch_the_enable_bank() {
    let mut regs = RegisterFile::new();
    enable_interrupt(&mut regs, Interrupt::Uart0);
    regs.write_u8(PENDING_BASE + 45, 1);
    clear_interrupt(&mut regs, Interrupt::Uart0);
    assert_eq!(regs.read_u8(ENABLE_BASE + 45), 1);
    assert_eq!(regs.read_u8(PENDING_BASE + 45), 0);
}

#[test]
fn register_addresses_match_the_memory_map() {
    assert_eq!(MTIME_ADDR, 0x0200_BFF8);
    assert_eq!(MTIMECMP_ADDR, 0x0200_4000);
    assert_eq!(ENABLE_BASE, 0x0280_0400);
    assert_eq!(PENDING_BASE, 0x0280_0000);
    assert!(CLIC_BANK_LEN >= 24);
}

#[test]
fn new_register_file_reads_zero() {
    let regs = RegisterFile::new();
    assert_eq!(regs.read_u64(MTIME_ADDR), 0);
    assert_eq!(regs.read_u64(MTIMECMP_ADDR), 0);
    for line in 0..CLIC_BANK_LEN {
        assert_eq!(regs.read_u8(ENABLE_BASE + line), 0);
        assert_eq!(regs.read_u8(PENDING_BASE + line), 0);
    }
}

#[test]
fn byte_writes_land_on_their_own_bank() {
    let mut regs = RegisterFile::new();
    regs.write_u8(ENABLE_BASE, 5);
    regs.write_u8(PENDING_BASE + 95, 6);
    assert_eq!(regs.read_u8(ENABLE_BASE), 5);
    assert_eq!(regs.read_u8(PENDING_BASE), 0);
    assert_eq!(regs.read_u8(PENDING_BASE + 95), 6);
    assert_eq!(regs.read_u8(ENABLE_BASE + 95), 0);
}
