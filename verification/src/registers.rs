//! The memory map of the interrupt controller and the interface through
//! which its registers are read and written.
//!
//! Two regions are mapped: the timer block, with the 64-bit tick counter and
//! the 64-bit compare register, and the hart-local block, with one byte per
//! IRQ line in the enable bank and one in the pending bank.

use vstd::prelude::*;

verus! {

/// Base address of the timer block.
pub const CLIC_CTRL_ADDR: u32 = 0x0200_0000;

/// Offset of the compare register in the timer block.
pub const CLIC_MTIMECMP: u32 = 0x4000;

/// Offset of the tick counter in the timer block.
pub const CLIC_MTIME: u32 = 0xBFF8;

/// Base address of the hart-local block.
pub const CLIC_HART0_ADDR: u32 = 0x0280_0000;

/// Offset of the enable bank in the hart-local block.
pub const CLIC_INTIE: u32 = 0x400;

/// Offset of the pending bank in the hart-local block.
pub const CLIC_INTIP: u32 = 0x000;

/// Number of byte entries in each bank: 16 core and 8 reserved words of four
/// lines each.
pub const CLIC_BANK_LEN: u32 = (16 + 8) * 4;

/// Address of the tick counter.
pub const MTIME_ADDR: u32 = CLIC_CTRL_ADDR + CLIC_MTIME;

/// Address of the compare register.
pub const MTIMECMP_ADDR: u32 = CLIC_CTRL_ADDR + CLIC_MTIMECMP;

/// Address of the first entry of the enable bank.
pub const ENABLE_BASE: u32 = CLIC_HART0_ADDR + CLIC_INTIE;

/// Address of the first entry of the pending bank.
pub const PENDING_BASE: u32 = CLIC_HART0_ADDR + CLIC_INTIP;

/// Address of the enable byte of the IRQ line `irq`.
pub open spec fn enable_register(irq: nat) -> u32
    recommends
        irq < CLIC_BANK_LEN,
{
    (ENABLE_BASE + irq) as u32
}

/// Address of the pending byte of the IRQ line `irq`.
pub open spec fn pending_register(irq: nat) -> u32
    recommends
        irq < CLIC_BANK_LEN,
{
    (PENDING_BASE + irq) as u32
}

/// Whether a 64-bit register is mapped at `address`.
pub open spec fn is_word_register(address: u32) -> bool {
    address == MTIME_ADDR || address == MTIMECMP_ADDR
}

/// Whether `address` is an entry of the enable bank.
pub open spec fn is_enable_register(address: u32) -> bool {
    ENABLE_BASE <= address < ENABLE_BASE + CLIC_BANK_LEN
}

/// Whether `address` is an entry of the pending bank.
pub open spec fn is_pending_register(address: u32) -> bool {
    PENDING_BASE <= address < PENDING_BASE + CLIC_BANK_LEN
}

/// Whether a byte register is mapped at `address`.
pub open spec fn is_byte_register(address: u32) -> bool {
    is_enable_register(address) || is_pending_register(address)
}

/// What one byte write does: the byte at `address` holds `value`, and no
/// other register has changed.
pub open spec fn byte_written<R: RegisterInterface>(
    before: R,
    after: R,
    address: u32,
    value: u8,
) -> bool {
    &&& after.byte(address) == value
    &&& forall|other: u32|
        other != address ==> #[trigger] after.byte(other) == before.byte(other)
    &&& forall|other: u32| #[trigger] after.word(other) == before.word(other)
}

/// What one 64-bit write does: the word at `address` holds `value`, and no
/// other register has changed.
pub open spec fn word_written<R: RegisterInterface>(
    before: R,
    after: R,
    address: u32,
    value: u64,
) -> bool {
    &&& after.word(address) == value
    &&& forall|other: u32|
        other != address ==> #[trigger] after.word(other) == before.word(other)
    &&& forall|other: u32| #[trigger] after.byte(other) == before.byte(other)
}

/// Access to the registers of the controller, one access of the register's
/// own width per call.
///
/// The state of the registers is described by `word` and `byte`: what a read
/// of either width observes at an address. A value of the implementing type is
/// a snapshot of that state; a counter that advances by itself moves to another
/// snapshot between calls.
pub trait RegisterInterface: Sized {
    /// What a 64-bit read at `address` observes.
    spec fn word(&self, address: u32) -> u64;

    /// What a byte read at `address` observes.
    spec fn byte(&self, address: u32) -> u8;

    /// One 64-bit read.
    fn read_u64(&self, address: u32) -> (value: u64)
        requires
            is_word_register(address),
        ensures
            value == self.word(address),
    ;

    /// One 64-bit write, which changes the register at `address` alone.
    fn write_u64(&mut self, address: u32, value: u64)
        requires
            is_word_register(address),
        ensures
            final(self).word(address) == value,
            forall|other: u32|
                other != address ==> #[trigger] final(self).word(other) == old(self).word(other),
            forall|other: u32| #[trigger] final(self).byte(other) == old(self).byte(other),
    ;

    /// One byte read.
    fn read_u8(&self, address: u32) -> (value: u8)
        requires
            is_byte_register(address),
        ensures
            value == self.byte(address),
    ;

    /// One byte write, which changes the register at `address` alone.
    fn write_u8(&mut self, address: u32, value: u8)
        requires
            is_byte_register(address),
        ensures
            final(self).byte(address) == value,
            forall|other: u32|
                other != address ==> #[trigger] final(self).byte(other) == old(self).byte(other),
            forall|other: u32| #[trigger] final(self).word(other) == old(self).word(other),
    ;
}

/// The registers held in memory, for use where no controller is present.
#[derive(Clone, Debug)]
pub struct RegisterFile {
    mtime: u64,
    mtimecmp: u64,
    enable: [u8; 96],
    pending: [u8; 96],
}

impl RegisterFile {
    /// A register file in which every register reads zero.
    pub fn new() -> (regs: RegisterFile)
        ensures
            forall|address: u32| #[trigger] regs.word(address) == 0,
            forall|address: u32| #[trigger] regs.byte(address) == 0,
    {
        RegisterFile { mtime: 0, mtimecmp: 0, enable: [0u8; 96], pending: [0u8; 96] }
    }
}

impl RegisterInterface for RegisterFile {
    closed spec fn word(&self, address: u32) -> u64 {
        if address == MTIME_ADDR {
            self.mtime
        } else if address == MTIMECMP_ADDR {
            self.mtimecmp
        } else {
            0
        }
    }

    closed spec fn byte(&self, address: u32) -> u8 {
        if is_enable_register(address) {
            self.enable@[address - ENABLE_BASE]
        } else if is_pending_register(address) {
            self.pending@[address - PENDING_BASE]
        } else {
            0
        }
    }

    fn read_u64(&self, address: u32) -> (value: u64) {
        if address == MTIME_ADDR {
            self.mtime
        } else {
            self.mtimecmp
        }
    }

    fn write_u64(&mut self, address: u32, value: u64) {
        if address == MTIME_ADDR {
            self.mtime = value;
        } else {
            self.mtimecmp = value;
        }
    }

    fn read_u8(&self, address: u32) -> (value: u8) {
        if address >= ENABLE_BASE {
            self.enable[(address - ENABLE_BASE) as usize]
        } else {
            self.pending[(address - PENDING_BASE) as usize]
        }
    }

    fn write_u8(&mut self, address: u32, value: u8) {
        if address >= ENABLE_BASE {
            self.enable[(address - ENABLE_BASE) as usize] = value;
        } else {
            self.pending[(address - PENDING_BASE) as usize] = value;
        }
    }
}

} // verus!
