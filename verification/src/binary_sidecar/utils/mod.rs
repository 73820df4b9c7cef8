//! The machine that the helper programs are fetched for.

pub mod architecture;
pub mod platform;
