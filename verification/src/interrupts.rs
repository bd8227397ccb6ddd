//! Interrupt vectors.

pub mod pic;
