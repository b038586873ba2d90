//! A chat gateway in front of an inference backend: the system preamble,
//! the outbound message list, the wire formats of the two backend flavours,
//! the per-request admission state machine and the boot-time readiness prober.
use vstd::prelude::*;

pub mod config;
pub mod gateway;
pub mod json;
pub mod message;
pub mod preamble;
pub mod prober;
pub mod translator;
pub mod wire;

verus! {

} // verus!
