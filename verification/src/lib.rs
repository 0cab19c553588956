//! A small register-machine bytecode interpreter with machine-checked contracts.
//!
//! The machine owns 4096 bytes of memory and sixteen 32-bit registers, the
//! first of which is the instruction pointer. [`state::MachineState`] is the
//! mathematical model of a machine and [`state::MachineState::step`] the
//! meaning of one instruction; every executable function of
//! [`machine::Machine`] is proved against that model, and [`laws`] holds what
//! follows from it for every program.
//!
//! Beside the machine stand the pictures for a matrix of 8 by 8 LEDs:
//! [`image`] holds colors and images, [`embedded`] draws shapes and text
//! into them, [`frame`] receives them byte by byte and shows them line by
//! line, and [`matrix`] decides the levels of the lines that carry an image
//! to the matrix. [`fibo`] and [`strings`] are small things of their own.

pub mod embedded;
pub mod error;
pub mod fibo;
pub mod frame;
pub mod graphics;
pub mod image;
pub mod isa;
pub mod laws;
pub mod machine;
pub mod matrix;
pub mod run;
pub mod sink;
pub mod state;
pub mod strings;
pub mod text;

pub use error::MachineError;
pub use isa::InstructionType;
pub use machine::{Machine, Signal};
pub use image::{Color, Image};
