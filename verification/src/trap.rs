//! Routing of a trap to the handler that serves it.

use crate::interrupts::{source_of, Interrupt, IRQ_NUM_BASE};
use vstd::prelude::*;

verus! {

/// Registers saved in trap handler
#[derive(Clone, Copy, Debug)]
pub struct TrapFrame {
    pub ra: usize,
    pub t0: usize,
    pub t1: usize,
    pub t2: usize,
    pub t3: usize,
    pub t4: usize,
    pub t5: usize,
    pub t6: usize,
    pub a0: usize,
    pub a1: usize,
    pub a2: usize,
    pub a3: usize,
    pub a4: usize,
    pub a5: usize,
    pub a6: usize,
    pub a7: usize,
    pub s0: usize,
    pub s1: usize,
    pub s2: usize,
    pub s3: usize,
    pub s4: usize,
    pub s5: usize,
    pub s6: usize,
    pub s7: usize,
    pub s8: usize,
    pub s9: usize,
    pub s10: usize,
    pub s11: usize,
    pub gp: usize,
    pub tp: usize,
    pub sp: usize,
}

impl TrapFrame {
    /// The frame in which every register holds `value`.
    pub open spec fn filled(value: usize) -> TrapFrame {
        TrapFrame {
            ra: value,
            t0: value,
            t1: value,
            t2: value,
            t3: value,
            t4: value,
            t5: value,
            t6: value,
            a0: value,
            a1: value,
            a2: value,
            a3: value,
            a4: value,
            a5: value,
            a6: value,
            a7: value,
            s0: value,
            s1: value,
            s2: value,
            s3: value,
            s4: value,
            s5: value,
            s6: value,
            s7: value,
            s8: value,
            s9: value,
            s10: value,
            s11: value,
            gp: value,
            tp: value,
            sp: value,
        }
    }
}

impl Default for TrapFrame {
    /// The frame in which every register holds zero.
    fn default() -> (frame: TrapFrame)
        ensures
            frame == TrapFrame::filled(0),
    {
        TrapFrame {
            ra: 0,
            t0: 0,
            t1: 0,
            t2: 0,
            t3: 0,
            t4: 0,
            t5: 0,
            t6: 0,
            a0: 0,
            a1: 0,
            a2: 0,
            a3: 0,
            a4: 0,
            a5: 0,
            a6: 0,
            a7: 0,
            s0: 0,
            s1: 0,
            s2: 0,
            s3: 0,
            s4: 0,
            s5: 0,
            s6: 0,
            s7: 0,
            s8: 0,
            s9: 0,
            s10: 0,
            s11: 0,
            gp: 0,
            tp: 0,
            sp: 0,
        }
    }
}

/// The cause of a trap, as the cause register reports it.
#[derive(Clone, Copy, Debug)]
pub struct TrapCause {
    /// Whether the trap is a synchronous exception rather than an interrupt.
    pub is_exception: bool,
    /// The code field of the cause register.
    pub code: usize,
}

/// Where a trap is delivered.
#[derive(Clone, Copy, Debug, PartialEq, Eq, Structural)]
pub enum TrapRoute {
    /// The generic exception path.
    Exception,
    /// The handler of an interrupt source, which is never `Unknown`.
    Handler(Interrupt),
}

/// The IRQ line that a cause code names: its low eight bits.
pub open spec fn interrupt_number(code: usize) -> nat {
    (code % 0x100) as nat
}

/// The route of a trap. An exception takes the generic exception path, and so
/// does an interrupt on a line that no source is defined for; every other
/// interrupt goes to the handler of its source.
pub open spec fn route_of(cause: TrapCause) -> TrapRoute {
    if cause.is_exception || source_of(interrupt_number(cause.code)) == Interrupt::Unknown {
        TrapRoute::Exception
    } else {
        TrapRoute::Handler(source_of(interrupt_number(cause.code)))
    }
}

/// Decides where the trap with the given cause is delivered.
pub fn start_trap_rust_hal(cause: TrapCause) -> (route: TrapRoute)
    ensures
        route == route_of(cause),
        route != TrapRoute::Handler(Interrupt::Unknown),
{
    if cause.is_exception {
        TrapRoute::Exception
    } else {
        let code: usize = cause.code;
        let interrupt_number: u32 = if code < IRQ_NUM_BASE as usize {
            // a core machine interrupt, recognized directly
            code as u32
        } else {
            assert(code & 0xff == code % 0x100) by (bit_vector);
            (code & 0xff) as u32
        };
        match Interrupt::from(interrupt_number) {
            Interrupt::Unknown => TrapRoute::Exception,
            source => TrapRoute::Handler(source),
        }
    }
}

} // verus!
