//! A verified CHIP-8 interpreter core.
//!
//! The crate holds an emulated machine's memory, registers, call stack and
//! display, and advances it one instruction at a time through a
//! fetch-decode-execute cycle. The machine is modelled by the abstract state
//! in [`state`]; every instruction's effect is written down once, as the
//! spec-level step function in [`isa`]; and the executable interpreter in
//! [`chip8`] and [`cycle`] is proved to follow that model exactly.
//!
//! Window creation, event polling, frame pacing and ROM file loading are
//! external collaborators: they feed plain bytes in and read the display
//! grid out, and live outside this crate.

pub mod chip8;
pub mod cycle;
pub mod isa;
pub mod state;
