//! Control of the hart's own trap machinery: global interrupt delivery and
//! the trap vector.

use vstd::prelude::*;

verus! {

/// How the hart picks the entry point of a trap.
#[derive(Clone, Copy, Debug, PartialEq, Eq, Structural)]
pub enum TrapMode {
    /// Every trap enters at the base address.
    Direct,
    /// An interrupt enters at the base address plus four times its cause.
    Vectored,
}

/// The control registers of the hart that the start-up sequence writes.
///
/// The state is described by three observations: whether interrupts are
/// delivered, and the address and mode last written to the trap vector.
pub trait Hart: Sized {
    /// Whether global interrupt delivery is on.
    spec fn interrupts_enabled(&self) -> bool;

    /// The address held by the trap-vector register.
    spec fn trap_vector(&self) -> usize;

    /// The mode held by the trap-vector register.
    spec fn trap_mode(&self) -> TrapMode;

    /// Turns global interrupt delivery off.
    fn disable_interrupts(&mut self)
        ensures
            !final(self).interrupts_enabled(),
            final(self).trap_vector() == old(self).trap_vector(),
            final(self).trap_mode() == old(self).trap_mode(),
    ;

    /// Turns global interrupt delivery on.
    fn enable_interrupts(&mut self)
        ensures
            final(self).interrupts_enabled(),
            final(self).trap_vector() == old(self).trap_vector(),
            final(self).trap_mode() == old(self).trap_mode(),
    ;

    /// Writes the trap-vector register. The mode is added to the address, so
    /// the sum has to fit the register.
    fn write_trap_vector(&mut self, address: usize, mode: TrapMode)
        requires
            mode == TrapMode::Vectored ==> address < usize::MAX,
        ensures
            final(self).trap_vector() == address,
            final(self).trap_mode() == mode,
            final(self).interrupts_enabled() == old(self).interrupts_enabled(),
    ;
}

/// The control registers of a hart held in memory, for use where no hart is
/// present.
#[derive(Clone, Copy, Debug)]
pub struct HartState {
    enabled: bool,
    vector: usize,
    mode: TrapMode,
}

impl HartState {
    /// A hart after reset: interrupts are off and the trap vector is at
    /// address zero in direct mode.
    pub fn new() -> (hart: HartState)
        ensures
            !hart.interrupts_enabled(),
            hart.trap_vector() == 0,
            hart.trap_mode() == TrapMode::Direct,
    {
        HartState { enabled: false, vector: 0, mode: TrapMode::Direct }
    }

    /// Whether global interrupt delivery is on.
    pub fn mie(&self) -> (enabled: bool)
        ensures
            enabled == self.interrupts_enabled(),
    {
        self.enabled
    }

    /// The address held by the trap-vector register.
    pub fn mtvec_address(&self) -> (address: usize)
        ensures
            address == self.trap_vector(),
    {
        self.vector
    }

    /// The mode held by the trap-vector register.
    pub fn mtvec_mode(&self) -> (mode: TrapMode)
        ensures
            mode == self.trap_mode(),
    {
        self.mode
    }
}

impl Hart for HartState {
    closed spec fn interrupts_enabled(&self) -> bool {
        self.enabled
    }

    closed spec fn trap_vector(&self) -> usize {
        self.vector
    }

    closed spec fn trap_mode(&self) -> TrapMode {
        self.mode
    }

    fn disable_interrupts(&mut self) {
        self.enabled = false;
    }

    fn enable_interrupts(&mut self) {
        self.enabled = true;
    }

    fn write_trap_vector(&mut self, address: usize, mode: TrapMode) {
        self.vector = address;
        self.mode = mode;
    }
}

} // verus!
