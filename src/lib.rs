//! Rich compiler diagnostics over a host-supplied, pluggable source map.
//!
//! The library keeps the diagnostic value model (severity, code, message,
//! labelled spans and notes), the rendering configuration, and the source-map
//! adapter with its default line and column arithmetic.
use vstd::prelude::*;

pub mod diagnostic;
pub mod files;
pub mod source_map;

verus! {

/// A host-defined handle that identifies one source file.
pub type FileId = usize;

/// A zero-based byte offset into a file's source text.
pub type ByteIndex = usize;

} // verus!
