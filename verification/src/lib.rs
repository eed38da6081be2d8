//! Verified core of the Broadcom BCM283x (Raspberry Pi 0-3, Zero 2W)
//! graphics drivers and board support: the V3D 3D engine, the HVS display
//! compositor with its HDMI transmitter, the firmware mailbox, and the
//! BCM2837 platform helpers (boot page table, interrupt controllers, UART,
//! power management, generic timer).
//!
//! Hardware access is expressed as data ([`regops::RegOp`]); the crate
//! itself performs no I/O.

pub mod regops;
pub mod v3d;
pub mod mailbox;
pub mod display;
pub mod platform;

