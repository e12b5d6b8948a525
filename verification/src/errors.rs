use vstd::prelude::*;

verus! {

/// The fatal failures a pipeline run can end with.
///
/// Directory entries that cannot be enumerated are skipped by the caller
/// before the library is involved, so no variant exists for them; every
/// variant here aborts the whole run.
#[derive(Clone, Copy, PartialEq, Eq, Structural, Debug)]
pub enum PipelineError {
    /// The capture-time field of a source image is missing or unparseable.
    Metadata,
    /// A source image could not be decoded into a raster.
    Decode,
    /// Composition was asked to build a document with no pages at all.
    /// A run over an empty input directory fails explicitly with this
    /// variant rather than producing a page-less document.
    EmptyDocument,
    /// The document could not be assembled or serialized: a normalized
    /// artifact was corrupt, or the final serialization failed.
    Compose,
}

} // verus!
