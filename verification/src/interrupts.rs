//! Interrupt sources and their IRQ line numbers.

use crate::registers::{
    byte_written, enable_register, is_enable_register, is_pending_register, pending_register,
    RegisterInterface, CLIC_BANK_LEN, ENABLE_BASE, PENDING_BASE,
};
use vstd::prelude::*;

verus! {

/// Number of the first peripheral IRQ line.
pub const IRQ_NUM_BASE: u32 = 16;

/// Machine software interrupt line.
pub const MSIP_IRQ: u32 = 3;

/// Machine timer interrupt line.
pub const MTIP_IRQ: u32 = 7;

/// Machine external interrupt line.
pub const MEIP_IRQ: u32 = 11;

/// DMA interrupt line.
pub const DMA0_IRQ: u32 = IRQ_NUM_BASE + 15;

/// SPI interrupt line.
pub const SPI0_IRQ: u32 = IRQ_NUM_BASE + 27;

/// UART port 0 interrupt line.
pub const UART0_IRQ: u32 = IRQ_NUM_BASE + 29;

/// UART port 1 interrupt line.
pub const UART1_IRQ: u32 = IRQ_NUM_BASE + 30;

/// I2C interrupt line.
pub const I2C0_IRQ: u32 = IRQ_NUM_BASE + 32;

/// PWM interrupt line.
pub const PWM_IRQ: u32 = IRQ_NUM_BASE + 34;

/// Timer channel 0 interrupt line.
pub const TIMER_CH0_IRQ: u32 = IRQ_NUM_BASE + 36;

/// Timer channel 1 interrupt line.
pub const TIMER_CH1_IRQ: u32 = IRQ_NUM_BASE + 37;

/// Watchdog timer interrupt line.
pub const WATCHDOG_IRQ: u32 = IRQ_NUM_BASE + 38;

/// GPIO interrupt line.
pub const GPIO_IRQ: u32 = IRQ_NUM_BASE + 44;

/// Available interrupts.
#[derive(Clone, Copy, Debug, PartialEq, Eq, Structural)]
pub enum Interrupt {
    /// An IRQ number that no source is defined for.
    Unknown,
    /// Machine Software Interrupt
    MachineSoft,
    /// Machine Timer Interrupt
    MachineTimer,
    /// Machine External Interrupt
    MachineExternal,
    /// GPIO Interrupt
    Gpio,
    /// Timer Channel 0 Interrupt
    TimerCh0,
    /// Timer Channel 1 Interrupt
    TimerCh1,
    /// Watchdog Timer Interrupt
    Watchdog,
    /// DMA Interrupt
    Dma,
    /// SPI Interrupt
    Spi,
    /// UART Port 0 Interrupt
    Uart0,
    /// UART Port 1 Interrupt
    Uart1,
    /// I2C Interrupt
    I2c,
    /// PWM Interrupt
    Pwm,
}

/// The IRQ line of each source; `Unknown` has none.
pub open spec fn irq_of(source: Interrupt) -> Option<nat> {
    match source {
        Interrupt::Unknown => None,
        Interrupt::MachineSoft => Some(3nat),
        Interrupt::MachineTimer => Some(7nat),
        Interrupt::MachineExternal => Some(11nat),
        Interrupt::Dma => Some((IRQ_NUM_BASE + 15) as nat),
        Interrupt::Spi => Some((IRQ_NUM_BASE + 27) as nat),
        Interrupt::Uart0 => Some((IRQ_NUM_BASE + 29) as nat),
        Interrupt::Uart1 => Some((IRQ_NUM_BASE + 30) as nat),
        Interrupt::I2c => Some((IRQ_NUM_BASE + 32) as nat),
        Interrupt::Pwm => Some((IRQ_NUM_BASE + 34) as nat),
        Interrupt::TimerCh0 => Some((IRQ_NUM_BASE + 36) as nat),
        Interrupt::TimerCh1 => Some((IRQ_NUM_BASE + 37) as nat),
        Interrupt::Watchdog => Some((IRQ_NUM_BASE + 38) as nat),
        Interrupt::Gpio => Some((IRQ_NUM_BASE + 44) as nat),
    }
}

/// Address of the enable byte of a source.
pub open spec fn enable_byte(source: Interrupt) -> u32
    recommends
        source != Interrupt::Unknown,
{
    enable_register(irq_of(source).unwrap())
}

/// Address of the pending byte of a source.
pub open spec fn pending_byte(source: Interrupt) -> u32
    recommends
        source != Interrupt::Unknown,
{
    pending_register(irq_of(source).unwrap())
}

/// Whether some source is defined for the IRQ line `irq`.
pub open spec fn is_known_irq(irq: nat) -> bool {
    exists|source: Interrupt| irq_of(source) == Some(irq)
}

/// The source of an IRQ line: the one source whose line it is, `Unknown`
/// where there is none.
pub open spec fn source_of(irq: nat) -> Interrupt {
    if is_known_irq(irq) {
        choose|source: Interrupt| irq_of(source) == Some(irq)
    } else {
        Interrupt::Unknown
    }
}

impl Interrupt {
    /// The IRQ line number of a source. `Unknown` has none and is not
    /// accepted.
    pub fn to_irq(&self) -> (irq: u32)
        requires
            *self != Interrupt::Unknown,
        ensures
            irq_of(*self) == Some(irq as nat),
    {
        match self {
            Interrupt::Unknown => unreached(),
            Interrupt::MachineSoft => MSIP_IRQ,
            Interrupt::MachineTimer => MTIP_IRQ,
            Interrupt::MachineExternal => MEIP_IRQ,
            Interrupt::Gpio => GPIO_IRQ,
            Interrupt::TimerCh0 => TIMER_CH0_IRQ,
            Interrupt::TimerCh1 => TIMER_CH1_IRQ,
            Interrupt::Watchdog => WATCHDOG_IRQ,
            Interrupt::Dma => DMA0_IRQ,
            Interrupt::Spi => SPI0_IRQ,
            Interrupt::Uart0 => UART0_IRQ,
            Interrupt::Uart1 => UART1_IRQ,
            Interrupt::I2c => I2C0_IRQ,
            Interrupt::Pwm => PWM_IRQ,
        }
    }

    /// The source of an IRQ line number, `Unknown` for a number outside the
    /// table.
    pub fn from(irq: u32) -> (source: Interrupt)
        ensures
            source == source_of(irq as nat),
            source == Interrupt::Unknown <==> !is_known_irq(irq as nat),
            source != Interrupt::Unknown ==> irq_of(source) == Some(irq as nat),
    {
        if irq == MSIP_IRQ {
            Interrupt::MachineSoft
        } else if irq == MTIP_IRQ {
            Interrupt::MachineTimer
        } else if irq == MEIP_IRQ {
            Interrupt::MachineExternal
        } else if irq == GPIO_IRQ {
            Interrupt::Gpio
        } else if irq == TIMER_CH0_IRQ {
            Interrupt::TimerCh0
        } else if irq == TIMER_CH1_IRQ {
            Interrupt::TimerCh1
        } else if irq == WATCHDOG_IRQ {
            Interrupt::Watchdog
        } else if irq == DMA0_IRQ {
            Interrupt::Dma
        } else if irq == SPI0_IRQ {
            Interrupt::Spi
        } else if irq == UART0_IRQ {
            Interrupt::Uart0
        } else if irq == UART1_IRQ {
            Interrupt::Uart1
        } else if irq == I2C0_IRQ {
            Interrupt::I2c
        } else if irq == PWM_IRQ {
            Interrupt::Pwm
        } else {
            Interrupt::Unknown
        }
    }
}

/// Enable the given interrupt: its byte of the enable bank is set to 1.
pub fn enable_interrupt<R: RegisterInterface>(regs: &mut R, interrupt: Interrupt)
    requires
        interrupt != Interrupt::Unknown,
    ensures
        byte_written(*old(regs), *final(regs), enable_byte(interrupt), 1),
{
    let irq: u32 = interrupt.to_irq();
    regs.write_u8(ENABLE_BASE + irq, 1);
}

/// Disable the given interrupt: its byte of the enable bank is set to 0.
pub fn disable_interrupt<R: RegisterInterface>(regs: &mut R, interrupt: Interrupt)
    requires
        interrupt != Interrupt::Unknown,
    ensures
        byte_written(*old(regs), *final(regs), enable_byte(interrupt), 0),
{
    let irq: u32 = interrupt.to_irq();
    regs.write_u8(ENABLE_BASE + irq, 0);
}

/// Clear the given interrupt: its byte of the pending bank is set to 0.
///
/// Usually the interrupt needs to be cleared also on the peripheral level.
pub fn clear_interrupt<R: RegisterInterface>(regs: &mut R, interrupt: Interrupt)
    requires
        interrupt != Interrupt::Unknown,
    ensures
        byte_written(*old(regs), *final(regs), pending_byte(interrupt), 0),
{
    let irq: u32 = interrupt.to_irq();
    regs.write_u8(PENDING_BASE + irq, 0);
}

/// No two sources share an IRQ line.
pub proof fn lemma_irq_injective(a: Interrupt, b: Interrupt)
    requires
        a != Interrupt::Unknown,
        b != Interrupt::Unknown,
        a != b,
    ensures
        irq_of(a) != irq_of(b),
{
}

/// Decoding the IRQ line of a source gives that source back.
pub proof fn lemma_source_round_trip(source: Interrupt)
    requires
        source != Interrupt::Unknown,
    ensures
        irq_of(source) is Some,
        source_of(irq_of(source).unwrap()) == source,
{
    let irq = irq_of(source).unwrap();
    assert(is_known_irq(irq));
}

/// The source decoded from a line of the table has that line as its IRQ
/// number.
pub proof fn lemma_irq_round_trip(irq: nat)
    requires
        is_known_irq(irq),
    ensures
        source_of(irq) != Interrupt::Unknown,
        irq_of(source_of(irq)) == Some(irq),
{
}

/// Every IRQ line of the table has an entry in the enable and pending banks.
pub proof fn lemma_irq_in_bank(source: Interrupt)
    requires
        source != Interrupt::Unknown,
    ensures
        irq_of(source) is Some,
        irq_of(source).unwrap() < CLIC_BANK_LEN,
        is_enable_register(enable_byte(source)),
        is_pending_register(pending_byte(source)),
{
}

/// The enable byte and the pending byte of a source are its own: no other
/// source has either, and no enable byte is a pending byte.
pub proof fn lemma_registers_disjoint(a: Interrupt, b: Interrupt)
    requires
        a != Interrupt::Unknown,
        b != Interrupt::Unknown,
    ensures
        a != b ==> enable_byte(a) != enable_byte(b),
        a != b ==> pending_byte(a) != pending_byte(b),
        enable_byte(a) != pending_byte(b),
{
}

/// Clearing one source leaves the pending byte of every other source, and
/// every enable byte, as it was.
pub proof fn lemma_clear_is_isolated<R: RegisterInterface>(
    before: R,
    after: R,
    cleared: Interrupt,
    other: Interrupt,
)
    requires
        cleared != Interrupt::Unknown,
        other != Interrupt::Unknown,
        byte_written(before, after, pending_byte(cleared), 0),
    ensures
        other != cleared ==> after.byte(pending_byte(other)) == before.byte(pending_byte(other)),
        after.byte(enable_byte(other)) == before.byte(enable_byte(other)),
{
    lemma_registers_disjoint(other, cleared);
}

/// Enabling or disabling one source leaves the enable byte of every other
/// source, and every pending byte, as it was.
pub proof fn lemma_enable_is_isolated<R: RegisterInterface>(
    before: R,
    after: R,
    switched: Interrupt,
    other: Interrupt,
    value: u8,
)
    requires
        switched != Interrupt::Unknown,
        other != Interrupt::Unknown,
        byte_written(before, after, enable_byte(switched), value),
    ensures
        other != switched ==> after.byte(enable_byte(other)) == before.byte(enable_byte(other)),
        after.byte(pending_byte(other)) == before.byte(pending_byte(other)),
{
    lemma_registers_disjoint(switched, other);
}

} // verus!
