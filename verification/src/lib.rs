//! A synthetic response-streaming engine.
//!
//! The library emulates the chunking behaviour of a text-generation API
//! without running any model: a pool of pre-generated articles and a
//! pre-computed ring of chunk-size samples are built once at startup, and
//! each streaming session walks an article by character position, cutting
//! chunks at word boundaries and emitting a wire-framed event per chunk,
//! followed by exactly one terminal marker.

pub mod convert;
pub mod pool;
pub mod responses;
pub mod ring;
pub mod session;
pub mod slicer;
pub mod types;
pub mod wire;
