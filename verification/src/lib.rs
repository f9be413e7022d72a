//! A CHIP-8 interpreter core: machine state, instruction decoding and
//! execution, sprite drawing, timers and keypad.
//!
//! [`step::Cpu`] owns a [`state::CpuState`] and drives it: `load_rom`, `tick`,
//! `tick_timers`, `keypress`. What each operation does is stated over
//! [`model::Machine`], the state as a mathematical value, by the functions of
//! [`semantics`] and [`sprite`]; [`laws`] proves what follows from them.

pub mod utils;
pub mod fault;
pub mod model;
pub mod state;
pub mod decode;
pub mod sprite;
pub mod semantics;
pub mod step;
pub mod random;
pub mod handlers;
pub mod laws;
