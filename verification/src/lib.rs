//! The ingestion core of a personal media catalog: classifies media files,
//! hashes their content, extracts capture metadata, turns pictures upright,
//! plans a crop that keeps the largest face, and renders thumbnail and preview.
//! Reading and writing files, the database, the probing tool, the frame decoder
//! and the face detector stay with the caller.

use vstd::prelude::*;

pub mod capture;
pub mod codec;
pub mod coord;
pub mod crop;
pub mod decimal;
pub mod detect;
pub mod diff;
pub mod error;
pub mod ewkb;
pub mod extract;
pub mod format;
pub mod frame;
pub mod hash;
pub mod ingest;
pub mod json;
pub mod metadata;
pub mod paths;
pub mod render;
pub mod text;
pub mod time;
pub mod video;
