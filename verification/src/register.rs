//! Control/status registers as typed bit fields.

pub mod mcountinhibit;
pub mod mtest;
pub mod mie;
pub mod mip;
