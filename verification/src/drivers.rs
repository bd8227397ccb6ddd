//! Device drivers.

pub mod atapi;
