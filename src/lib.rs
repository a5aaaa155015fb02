//! The unified error model of a Bluetooth Low Energy client: one closed error
//! type that every fallible operation of the client returns, the conversions
//! into it from the failures of its collaborators, and its rendering as text.

pub mod error;
pub mod laws;
pub mod outside;

pub use error::{Error, Result};
