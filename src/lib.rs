//! Normalises a corpus of speech recordings into one target audio format.
//!
//! The library holds the decisions of the conversion pipeline: how a file is
//! classified by its extension, what the worker does with each directory entry,
//! when an original file may be removed, and which arguments the transcoder
//! receives. Running the transcoder, touching the filesystem and spawning one
//! worker per directory are left to the caller.
pub mod paths;
pub mod transcode;
pub mod audio;
pub mod laws;
pub mod format;

use vstd::prelude::*;

verus! {

} // verus!
