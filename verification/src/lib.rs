//! Identifier-keyed registries of streaming-codec sessions, and the boundary
//! protocol that passes samples in and hands encoded buffers and decoded
//! results back out.
//!
//! The codec itself (an encoder that turns samples into message buffers and a
//! decoder that turns buffers back into samples) is an external collaborator:
//! this crate keeps the live sessions, converts the codec's outcomes into the
//! sentinel results that a foreign caller can receive, and stores decoded
//! output for point and bulk retrieval.

pub mod boundary;
pub mod ident;
pub mod laws;
pub mod registry;
pub mod sample;

pub use registry::SessionRegistry;
pub use sample::DecoderSession;
pub use sample::EncoderSession;
pub use sample::JetstreamDatasetWithQuality;
pub use sample::JetstreamDecodedIndexResult;
pub use sample::JetstreamEncodeResult;
