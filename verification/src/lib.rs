//! A curve-generic ECDSA signature engine over byte-level keys and
//! signatures, together with the global buffer-size bounds that the
//! surrounding service enforces on every request.

pub mod curve;
pub mod ecdsa;
pub mod limits;
