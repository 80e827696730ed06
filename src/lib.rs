//! A single-qubit state vector ("ket") over complex amplitudes, with exact
//! equality and the normalisation test of a physical state.
//!
//! Every real component is held as its IEEE-754 binary64 bit pattern; the
//! comparisons are proved over those patterns.
pub mod ieee;
pub mod ket;

pub use ieee::{approx_eq_ulps, bits_eq, ulps_apart};
pub use ket::{is_unit_norm, Amplitude, Ket, ValidQuantumState, VALIDITY_ULPS};
