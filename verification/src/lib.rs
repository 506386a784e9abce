//! Core logic of a CD ripper: data model, output-path formatting, playlist
//! generation, encoding-pipeline planning, track-extraction bookkeeping and
//! batch orchestration decisions.
//!
//! Everything here is pure: the surrounding application performs the actual
//! device reads, media encoding and file writes, and drives these functions
//! with the values it obtains.

pub mod data;
pub mod errors;
pub mod extractor;
pub mod paranoia;
pub mod pattern;
pub mod pipeline;
pub mod playlist;
pub mod ripper;
pub mod sanitize;
pub mod text;
