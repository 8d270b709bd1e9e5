use vstd::prelude::*;

verus! {

/// One failure kind for every operation this layer performs.
///
/// The two engines signal errors through an out-parameter error object,
/// a null return, or a sentinel status code; each such signal is
/// translated into one of these variants before it reaches a caller, so
/// nothing outside the bridge ever inspects a raw native error value.
#[derive(Debug, PartialEq, Eq)]
pub enum RenderError {
    /// The caller's input was rejected before any engine was called:
    /// a path with an embedded NUL byte, or a scale that is not positive.
    InvalidInput,
    /// The document engine refused to open the source. Carries the
    /// engine's message when it reported one; `None` records that the
    /// engine returned no document and no specific error.
    OpenFailed(Option<String>),
    /// No page exists at the requested index, or the engine handed no
    /// page back. Carries the index that was asked for.
    PageNotFound(i32),
    /// The rasterizer could not produce a pixel surface of the
    /// requested dimensions.
    SurfaceCreationFailed,
    /// The rasterizer produced a surface but no usable paint context
    /// for it.
    ContextCreationFailed,
    /// PNG encoding reported a non-success status. Carries the status
    /// text when the code had a known translation.
    EncodeFailed(Option<String>),
    /// The byte sink could not grow its backing allocation.
    OutOfMemory,
}

} // verus!
