//! Hypercall codes exchanged between a guest and the hypervisor, with their
//! numeric encoding, the privilege test on that encoding and a readable
//! rendering of each code.

mod bits;
pub mod code;
pub mod debug;

pub use code::{HyperCallCode, HYPER_CALL_CODE_PRIVILEGED_MASK};
