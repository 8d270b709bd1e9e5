use vstd::prelude::*;

use crate::cpath;
use crate::error::RenderError;
use crate::render::EncodeTarget;
use crate::render::RenderJob;
use crate::render::RenderPhase;
use vstd::string::StringSliceAdditionalSpecFns;

verus! {

/// One render-capable page of a document.
///
/// Owns the engine's page handle for that page (released exactly once,
/// by consuming the record) and remembers which index it was fetched
/// at. The page holds no reference to its document record — only this
/// lower-level handle — so page and document are released
/// independently. Rendering is lazy: nothing is painted until a render
/// is asked for, each render names its own scale, and one page can be
/// rendered any number of times, also after a failed attempt.
#[derive(Debug)]
pub struct Page {
    /// The engine's page handle, held as an opaque word.
    pub handle: u64,
    /// The 0-based index this page was fetched at.
    pub index: i32,
}

impl Page {
    /// Wraps a fetched native page handle; no rendering is performed.
    pub fn new(handle: u64, index: i32) -> (p: Page)
        ensures
            p.handle == handle,
            p.index == index,
    {
        Page { handle, index }
    }

    /// Plans a render of this page into a PNG file.
    ///
    /// Checks the caller's inputs — the path must be expressible as a
    /// NUL-terminated C string and the scale must be positive — and
    /// returns the pipeline plan at its start; the shim drives the plan
    /// through the native calls. Nothing native has happened yet when
    /// this returns.
    pub fn to_png_file(&self, filename: &str, scale_milli: u64) -> (r: Result<
        RenderJob,
        RenderError,
    >)
        ensures
            cpath::has_nul(filename.spec_bytes()) || scale_milli == 0 ==> r == Err::<
                RenderJob,
                RenderError,
            >(RenderError::InvalidInput),
            !cpath::has_nul(filename.spec_bytes()) && scale_milli > 0 ==> ({
                &&& r matches Ok(job)
                &&& job.page_handle == self.handle
                &&& job.scale_milli == scale_milli
                &&& job.phase is Start
                &&& job.target matches EncodeTarget::File { cpath }
                &&& cpath@ == filename.spec_bytes() + seq![0u8]
            }),
    {
        let cpath_bytes = match cpath::nul_terminated(filename) {
            Ok(b) => b,
            Err(e) => {
                return Err(e);
            },
        };
        if scale_milli == 0 {
            return Err(RenderError::InvalidInput);
        }
        Ok(
            RenderJob {
                page_handle: self.handle,
                scale_milli,
                target: EncodeTarget::File { cpath: cpath_bytes },
                phase: RenderPhase::Start,
            },
        )
    }

    /// Plans a render of this page into memory: the encode will be
    /// streamed chunk by chunk into a growable byte sink instead of a
    /// file. The scale must be positive; otherwise as `to_png_file`.
    pub fn to_png_bytes(&self, scale_milli: u64) -> (r: Result<RenderJob, RenderError>)
        ensures
            scale_milli == 0 ==> r == Err::<RenderJob, RenderError>(RenderError::InvalidInput),
            scale_milli > 0 ==> (r matches Ok(job) && job.page_handle == self.handle
                && job.scale_milli == scale_milli && job.phase is Start && job.target
                is Memory),
    {
        if scale_milli == 0 {
            return Err(RenderError::InvalidInput);
        }
        Ok(
            RenderJob {
                page_handle: self.handle,
                scale_milli,
                target: EncodeTarget::Memory,
                phase: RenderPhase::Start,
            },
        )
    }

    /// Gives the native handle up for release, consuming the record:
    /// the release can happen at most once per page, and never touches
    /// the parent document.
    pub fn release(self) -> (h: u64)
        ensures
            h == self.handle,
    {
        self.handle
    }
}

} // verus!
