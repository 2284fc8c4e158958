//! Register storage of a 32-bit ARM unwinding context.
//!
//! A [`Context`] holds one machine word for each of the sixteen
//! general-purpose registers and each of the thirty-two floating-point
//! registers, and finds a word by its DWARF register number.
//!
//! - [`register`]: the two ranges of register numbers and the slot that a
//!   number stands for.
//! - [`context`]: the storage, its lookup and its dump by register name.
//! - [`names`]: the architectural register names, taken from gimli.
//! - [`transfer`]: which registers capturing and restoring a context move.

pub mod context;
pub mod names;
pub mod register;
pub mod transfer;

pub use context::Context;
pub use register::{resolve, Slot};
pub use transfer::{restore_context, save_context};
