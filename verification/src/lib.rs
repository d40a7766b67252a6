//! The ZIR intermediate representation of a ZoKrates program: typed
//! expressions over a prime field, booleans and unsigned integers, the
//! statements and functions built from them, and their printed form.
pub mod common;
pub mod field;
pub mod text;
pub mod typed;
pub mod zir;
