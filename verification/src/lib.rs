//! Adaptive staging and tagging of downloaded audio.
//!
//! The crate decides, per transfer, whether bytes are staged on disk or in
//! memory, accumulates the downloaded chunks, splices ID3v2 and FLAC metadata
//! into the staged bytes, and holds the bookkeeping of a bounded set of
//! concurrent transfers. Every function is stated over a mathematical model
//! and proved against it.

pub mod audio_buffer;
pub mod board;
pub mod checksum;
pub mod commands;
pub mod config;
pub mod config_file;
pub mod counters;
pub mod error;
pub mod flac;
pub mod flac_tag;
pub mod mp3;
pub mod scratch;
pub mod storage;
pub mod tags;
pub mod text;
pub mod transfer;
pub mod utils;
