//! Demultiplexing core of an audio/video container framework.
//!
//! Given the bytes of an unidentified media source, the crate recognises the
//! container format by its magic marker, exposes the logical streams and their
//! codec parameters, hands out coded packets and resolves seeks through a cue
//! table. Every function is verified against the contract it carries.

pub mod codecs;
pub mod cues;
pub mod demuxer;
pub mod errors;
pub mod formats;
pub mod io;
pub mod probe;
pub mod reader;
pub mod scan;
pub mod sync;
