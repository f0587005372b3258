//! Propagation of measurement uncertainty through arithmetic on doubles.
//!
//! A measured quantity is an estimate and an uncertainty of one standard
//! deviation. Every operation here takes such values and gives the value that
//! results, with the uncertainty that first-order error propagation assigns
//! to it, errors being taken as independent.
//!
//! Doubles are held as their IEEE 754 bit patterns. What the standard defines
//! on the pattern itself is computed here, on integers, and proved: classes,
//! signs, comparisons, truncation to integers (`binary64`, `exact`,
//! `compare`). Arithmetic that rounds is asked of a floating-point unit that
//! the caller supplies (`fpu`); the rules of propagation say which requests
//! are made and how their answers are put together (`uncertain_float`,
//! `elementary`, `numeric`). `und` applies a function to every element of an
//! array, and `laws` holds what follows for all operands.
pub mod binary64;
pub mod compare;
pub mod elementary;
pub mod exact;
pub mod fpu;
pub mod laws;
pub mod numeric;
pub mod uncertain_float;
pub mod und;
