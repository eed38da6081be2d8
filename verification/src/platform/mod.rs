pub mod boot;
pub mod config;
pub mod console;
pub mod cpu;
pub mod irq;
pub mod mem;
pub mod power;
pub mod time;
