//! Admission-gated reply engine for a chat responder: the prompt assembler,
//! the sampling filter, the admission controller and the lifecycle of one
//! generation job, each with its contract.

pub mod prompt;
pub mod sampling;
pub mod persona;
pub mod job;
pub mod handler;
