//! Units of the seven physical quantities that microscopy metadata records:
//! their symbols, their scale against the SI base unit, and the conversion
//! between two units of one quantity.
//!
//! Every conversion is decided here and described exactly, as a
//! [`Conversion`]; the caller applies it to its own number.
#![allow(non_camel_case_types)]

pub mod convert;
pub mod error;
pub mod factor;
pub mod ome;
pub mod prefix;
pub mod rational;
pub mod text;
pub mod units;

pub use convert::{Conversion, Convert};
pub use error::{Error, ErrorView};
pub use factor::Factor;
pub use rational::Rational;
