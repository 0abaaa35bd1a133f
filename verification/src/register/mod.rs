//! Control and status registers, each held as its raw `usize` value.
pub mod crmd;
pub mod ecfg;
pub mod eentry;
pub mod estat;
pub mod gstat;
