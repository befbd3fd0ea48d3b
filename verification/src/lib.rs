//! Verified kernels of a ship's systems: a fuel calculator, a wire-crossing
//! finder, password rules and a small stored-program integer machine.

pub mod fuel;
pub mod intcode;
pub mod moves;
pub mod passwords;
pub mod text;
pub mod wires;
