//! Sunflower: a small x86_64 kernel's filesystem, drivers and screen logic, verified.
pub mod fs;
pub mod util;
pub mod vga;
pub mod ports;
pub mod startup;
pub mod floppy;
pub mod interrupts;
pub mod gdt;
pub mod time;
pub mod speaker;
pub mod sysinfo;
pub mod seeder;
pub mod panic;
