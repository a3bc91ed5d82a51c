//! Locating and decoding the trailer at the end of an HFile.
pub mod error;
pub mod trailer;
pub mod wire;
pub mod lemmas;
