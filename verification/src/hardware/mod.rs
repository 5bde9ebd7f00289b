//! The modelled hardware.

pub mod mem;
