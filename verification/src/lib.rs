//! Interrupt management for a core-local interrupt controller (CLIC): the
//! table of interrupt sources, control of the enable and pending banks, the
//! machine timer, trap routing and the start-up sequence.
//!
//! Hardware is reached only through the traits of `registers` and `hart`, so
//! that every function here is proved against a model of the register state.

pub mod clic;
pub mod hart;
pub mod interrupts;
pub mod registers;
pub mod setup;
pub mod trap;
