//! A fixed-dimension linear state-space estimator (Kalman filter core).
//!
//! The estimation engine lives in [`kalman`]; the dense fixed-size matrix
//! arithmetic it consumes is supplied by the `nalgebra` crate through the
//! trusted interface in `algebra`.
#![allow(non_snake_case)]
#![allow(non_upper_case_globals)]

mod algebra;
pub mod kalman;
