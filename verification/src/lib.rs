//! Hardware-abstraction core for an aarch64 platform: a bit-exact model of
//! each device's memory-mapped registers, an interrupt dispatch table, an
//! interrupt-safe lock, and the multi-core boot/bring-up sequencing.
//!
//! Every register access sequence that the drivers rely on (read-modify-write,
//! write-only clear registers, the watchdog unlock-then-load protocol, the
//! high-word-then-low-word comparator write) is stated in the contracts and
//! verified. The binding of the model to real volatile hardware access lives
//! outside the verified library.

pub mod config;
pub mod mem;
pub mod gic;
pub mod pl061;
pub mod lock;
pub mod boot;
pub mod platform;
pub mod watchdog_phytium;
pub mod watchdog_qemu;
