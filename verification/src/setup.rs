//! The start-up sequence of the interrupt controller.

use crate::hart::{Hart, TrapMode};
use crate::registers::{
    is_byte_register, is_enable_register, is_pending_register, RegisterInterface, CLIC_BANK_LEN,
    ENABLE_BASE, PENDING_BASE,
};
use vstd::prelude::*;

verus! {

/// The low bits of the trap-vector address that select direct dispatch by
/// the interrupt controller.
pub const MTVEC_CLIC_DIRECT: usize = 2;

/// What clearing the banks does: every enable and pending byte reads zero,
/// and no other register has changed.
pub open spec fn banks_cleared<R: RegisterInterface>(before: R, after: R) -> bool {
    &&& forall|address: u32| is_byte_register(address) ==> #[trigger] after.byte(address) == 0
    &&& forall|address: u32|
        !is_byte_register(address) ==> #[trigger] after.byte(address) == before.byte(address)
    &&& forall|address: u32| #[trigger] after.word(address) == before.word(address)
}

/// Prepares the controller: with interrupt delivery off, points the trap
/// vector at `trap_entry` in direct mode and clears every entry of the enable
/// and pending banks, then turns interrupt delivery on again.
pub fn setup_interrupts<H: Hart, R: RegisterInterface>(
    hart: &mut H,
    regs: &mut R,
    trap_entry: usize,
)
    ensures
        final(hart).interrupts_enabled(),
        final(hart).trap_vector() == trap_entry | MTVEC_CLIC_DIRECT,
        final(hart).trap_mode() == TrapMode::Direct,
        banks_cleared(*old(regs), *final(regs)),
{
    hart.disable_interrupts();
    hart.write_trap_vector(trap_entry | MTVEC_CLIC_DIRECT, TrapMode::Direct);

    // disable all interrupts
    let mut line: u32 = 0;
    while line < CLIC_BANK_LEN
        invariant
            line <= CLIC_BANK_LEN,
            forall|address: u32|
                ENABLE_BASE <= address < ENABLE_BASE + line ==> regs.byte(address) == 0,
            forall|address: u32|
                !(ENABLE_BASE <= address < ENABLE_BASE + line) ==> regs.byte(address) == old(
                    regs,
                ).byte(address),
            forall|address: u32| regs.word(address) == old(regs).word(address),
        decreases CLIC_BANK_LEN - line,
    {
        regs.write_u8(ENABLE_BASE + line, 0);
        line = line + 1;
    }
    let mut line: u32 = 0;
    while line < CLIC_BANK_LEN
        invariant
            line <= CLIC_BANK_LEN,
            forall|address: u32| is_enable_register(address) ==> regs.byte(address) == 0,
            forall|address: u32|
                PENDING_BASE <= address < PENDING_BASE + line ==> regs.byte(address) == 0,
            forall|address: u32|
                !is_enable_register(address) && !(PENDING_BASE <= address < PENDING_BASE + line)
                    ==> regs.byte(address) == old(regs).byte(address),
            forall|address: u32| regs.word(address) == old(regs).word(address),
        decreases CLIC_BANK_LEN - line,
    {
        regs.write_u8(PENDING_BASE + line, 0);
        line = line + 1;
    }

    hart.enable_interrupts();
}

} // verus!
