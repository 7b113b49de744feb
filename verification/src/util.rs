//! Utility types shared across the kernel: lazily initialised values, exclusive maps,
//! flags and descriptor table pointers.
pub mod send;
pub mod sync;
