//! Interrupts: the keyboard driver, the PICs, the interrupt descriptor table and the
//! error screens.
pub mod keyboard;
pub mod pic;
pub mod idt;
pub mod cont_access;
pub mod rbod;
