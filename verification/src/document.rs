use vstd::prelude::*;

use crate::error::RenderError;
use crate::page::Page;

verus! {

/// What the unverified shim observed when it asked the document engine
/// to open a source, gathered into one value so the constructor below
/// can decide the outcome in one verified place.
///
/// The engine signals through two channels at once: the returned
/// document (possibly null) and an out-parameter error object
/// (possibly absent). A populated error object wins over everything
/// else; a null document beside an empty error slot is its own case.
/// On a successful open the shim also queries the page count at once,
/// since the count is cached for the document's whole lifetime.
pub enum OpenOutcome {
    /// The engine returned a document and reported no error. Carries
    /// the native handle and the page count queried right after.
    Opened { handle: u64, total_pages: i32 },
    /// The engine populated the error object; its message (extracted
    /// before the object was released) decides the outcome.
    EngineError { message: String },
    /// The engine returned no document and no error object.
    NullWithoutError,
}

/// One opened PDF document.
///
/// Owns the engine's document handle — the owner releases it exactly
/// once, by consuming the record — and caches the page count, which is
/// fixed at open time. Pages fetched from it hold only the lower-level
/// native page handle, never a reference back to this record, so a
/// page can be released without the document and the document without
/// the page; the one ordering the native engine demands is that the
/// document outlive the use of its pages' handles.
#[derive(Debug)]
pub struct Document {
    /// The path or URI the document was opened from.
    pub filename: String,
    /// The page count cached at open time; never negative. The engine
    /// only reports non-negative counts, and the constructor pins a
    /// negative report to zero rather than trusting that.
    pub total_pages: i32,
    /// The engine's document handle, held as an opaque word.
    pub handle: u64,
}

impl Document {
    /// The record's invariant: the cached page count is non-negative,
    /// so the export surface's `-1` sentinel can never be mistaken for
    /// a count.
    pub open spec fn well_formed(&self) -> bool {
        self.total_pages >= 0
    }

    /// Decides the outcome of an open from the engine's signals: the
    /// populated error object first, then the null-document case, and
    /// only then success, with the page count cached into the record —
    /// clamped at zero, since a page count is a non-negative integer
    /// whatever the engine's signed calling convention could carry.
    pub fn new(filename: &str, outcome: OpenOutcome) -> (r: Result<Document, RenderError>)
        ensures
            outcome matches OpenOutcome::Opened { handle, total_pages } ==> ({
                &&& r matches Ok(d)
                &&& d.filename@ == filename@
                &&& d.total_pages == (if total_pages < 0 {
                    0i32
                } else {
                    total_pages
                })
                &&& d.handle == handle
                &&& d.well_formed()
            }),
            outcome matches OpenOutcome::EngineError { message } ==> r == Err::<
                Document,
                RenderError,
            >(RenderError::OpenFailed(Some(message))),
            outcome is NullWithoutError ==> r == Err::<Document, RenderError>(
                RenderError::OpenFailed(None),
            ),
    {
        match outcome {
            OpenOutcome::Opened { handle, total_pages } => {
                let total_pages: i32 = if total_pages < 0 {
                    0
                } else {
                    total_pages
                };
                Ok(Document { filename: filename.to_owned(), total_pages, handle })
            },
            OpenOutcome::EngineError { message } => Err(RenderError::OpenFailed(Some(message))),
            OpenOutcome::NullWithoutError => Err(RenderError::OpenFailed(None)),
        }
    }

    /// The path or URI this document was opened from.
    pub fn filename(&self) -> (r: &str)
        ensures
            r@ == self.filename@,
    {
        self.filename.as_str()
    }

    /// The cached page count; a pure accessor, no native call.
    pub fn total_pages(&self) -> (n: i32)
        ensures
            n == self.total_pages,
    {
        self.total_pages
    }

    /// The page lookup's own input checks, separated out so a caller
    /// can reject a request before asking the engine for the page at
    /// all: the scale first (`InvalidInput` unless positive), then the
    /// index against the cached count (`PageNotFound` with the index).
    pub fn validate_page_request(&self, index: i32, scale_milli: u64) -> (r: Result<
        (),
        RenderError,
    >)
        ensures
            scale_milli == 0 ==> r == Err::<(), RenderError>(RenderError::InvalidInput),
            scale_milli > 0 && !(0 <= index < self.total_pages) ==> r == Err::<(), RenderError>(
                RenderError::PageNotFound(index),
            ),
            scale_milli > 0 && 0 <= index < self.total_pages ==> r == Ok::<(), RenderError>(()),
    {
        if scale_milli == 0 {
            return Err(RenderError::InvalidInput);
        }
        if index < 0 || index >= self.total_pages {
            return Err(RenderError::PageNotFound(index));
        }
        Ok(())
    }

    /// Decides a page lookup.
    ///
    /// The scale must be positive (`InvalidInput` otherwise), the index
    /// must lie in `0 .. total_pages` (`PageNotFound` with the index
    /// otherwise), and even for an index in range the engine is the
    /// source of truth: `fetched` is the page handle the engine
    /// returned for that index, and its absence is `PageNotFound` too.
    /// When all three hold, the page record wraps the fetched handle.
    pub fn get_page(&self, index: i32, scale_milli: u64, fetched: Option<u64>) -> (r: Result<
        Page,
        RenderError,
    >)
        ensures
            scale_milli == 0 ==> r == Err::<Page, RenderError>(RenderError::InvalidInput),
            scale_milli > 0 && !(0 <= index < self.total_pages) ==> r == Err::<Page, RenderError>(
                RenderError::PageNotFound(index),
            ),
            scale_milli > 0 && 0 <= index < self.total_pages ==> (match fetched {
                Some(h) => r matches Ok(p) && p.handle == h && p.index == index,
                None => r == Err::<Page, RenderError>(RenderError::PageNotFound(index)),
            }),
    {
        if let Err(e) = self.validate_page_request(index, scale_milli) {
            return Err(e);
        }
        match fetched {
            Some(h) => Ok(Page::new(h, index)),
            None => Err(RenderError::PageNotFound(index)),
        }
    }

    /// Gives the native handle up for release, consuming the record:
    /// after this the document is unusable, so the release can happen
    /// at most once per document.
    pub fn release(self) -> (h: u64)
        ensures
            h == self.handle,
    {
        self.handle
    }
}

} // verus!
