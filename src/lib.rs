//! Decoding of 1090 MHz Mode S / ADS-B frames, strict decoding of Comm-B
//! registers, and resolution of 24-bit aircraft addresses into
//! registration and country metadata.

pub mod hextext;
pub mod frame;
pub mod commb;
pub mod address;
