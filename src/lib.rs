//! A decoding session for RaptorQ fragments, safe to drive one fragment at a
//! time from a caller on the far side of a C boundary.
//!
//! The session owns its decoding engine and a single-use result slot. All
//! checks that keep the engine from faulting are made here, before the engine
//! is called, so that every operation is total.
pub mod params;
pub mod engine;
pub mod session;
pub mod laws;

pub use params::TransmissionParams;

pub use session::{
    RQContext, raptorq_ctx_free, raptorq_ctx_from_oti, raptorq_ctx_is_complete, raptorq_ctx_new,
    raptorq_ctx_push_frame, raptorq_ctx_take_result, raptorq_free,
};
