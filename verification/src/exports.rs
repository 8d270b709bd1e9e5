use vstd::prelude::*;

use crate::document::Document;
use crate::error::RenderError;
use crate::page::Page;
use crate::sink::ByteBuffer;

verus! {

/// The slot a host process holds a document in. The flat export
/// surface hands the host an opaque wrapper; releasing it empties the
/// slot, so a second release finds nothing and releases nothing.
pub struct DocumentWrapper {
    pub document: Option<Document>,
}

/// The slot a host process holds a page in; emptied on release, like
/// `DocumentWrapper`.
pub struct PageWrapper {
    pub page: Option<Page>,
}

/// Wraps an open attempt's outcome for the host: a filled wrapper on
/// success, nothing on failure (the host's convention has no error
/// channel on this call, only a null handle).
pub fn document_new(opened: Result<Document, RenderError>) -> (r: Option<DocumentWrapper>)
    ensures
        opened matches Ok(d) ==> (r matches Some(w) && w.document == Some(d)),
        opened is Err ==> r is None,
{
    match opened {
        Ok(d) => Some(DocumentWrapper { document: Some(d) }),
        Err(_) => None,
    }
}

/// The host's page-count query: the cached count for a document still
/// in its slot, the sentinel `-1` for an emptied slot. For any
/// well-formed document the count is non-negative, so the sentinel is
/// never mistakable for a count.
pub fn document_total_pages(doc: &DocumentWrapper) -> (n: i32)
    ensures
        doc.document matches Some(d) ==> n == d.total_pages,
        doc.document matches Some(d) && d.well_formed() ==> n >= 0,
        doc.document is None ==> n == -1,
{
    match &doc.document {
        Some(d) => d.total_pages(),
        None => -1,
    }
}

/// The host's page fetch: a filled page wrapper when the slot holds a
/// document and the lookup succeeds, nothing otherwise (an emptied
/// slot, a bad scale or index, or no page from the engine).
pub fn document_get_page(
    doc: &DocumentWrapper,
    index: i32,
    scale_milli: u64,
    fetched: Option<u64>,
) -> (r: Option<PageWrapper>)
    ensures
        doc.document is None ==> r is None,
        doc.document matches Some(d) ==> ({
            &&& scale_milli == 0 ==> r is None
            &&& scale_milli > 0 && !(0 <= index < d.total_pages) ==> r is None
            &&& scale_milli > 0 && 0 <= index < d.total_pages && fetched is None ==> r is None
            &&& fetched matches Some(h) ==> scale_milli > 0 && 0 <= index < d.total_pages ==> ({
                &&& r matches Some(w)
                &&& w.page matches Some(p)
                &&& p.handle == h
                &&& p.index == index
            })
        }),
{
    match &doc.document {
        Some(d) => match d.get_page(index, scale_milli, fetched) {
            Ok(p) => Some(PageWrapper { page: Some(p) }),
            Err(_) => None,
        },
        None => None,
    }
}

/// Wraps a finished memory render for the host: the PNG bytes as a
/// buffer on success, nothing on failure — no partial output ever
/// reaches the host.
pub fn page_to_png_bytes(rendered: Result<Vec<u8>, RenderError>) -> (r: Option<ByteBuffer>)
    ensures
        rendered matches Ok(bytes) ==> (r matches Some(b) && b@ == bytes@ && b.spec_capacity()
            == bytes@.len()),
        rendered is Err ==> r is None,
{
    match rendered {
        Ok(bytes) => Some(ByteBuffer::from_vec(bytes)),
        Err(_) => None,
    }
}

/// Flattens a finished file render into the host's status convention:
/// `0` for success, `-1` for any failure.
pub fn page_save_as_png(rendered: Result<(), RenderError>) -> (code: i32)
    ensures
        rendered is Ok <==> code == 0,
        rendered is Err ==> code == -1,
{
    match rendered {
        Ok(()) => 0,
        Err(_) => -1,
    }
}

/// Releases the document slot: hands back the native handle to be
/// released, exactly once. A slot already emptied — or never filled —
/// yields nothing, so releasing twice cannot free the handle twice.
pub fn document_free(doc: &mut DocumentWrapper) -> (released: Option<u64>)
    ensures
        final(doc).document is None,
        old(doc).document matches Some(d) ==> released == Some(d.handle),
        old(doc).document is None ==> released is None,
{
    match doc.document.take() {
        Some(d) => Some(d.release()),
        None => None,
    }
}

/// Releases the page slot, exactly as `document_free` releases the
/// document slot; the parent document's slot is untouched.
pub fn page_free(page: &mut PageWrapper) -> (released: Option<u64>)
    ensures
        final(page).page is None,
        old(page).page matches Some(p) ==> released == Some(p.handle),
        old(page).page is None ==> released is None,
{
    match page.page.take() {
        Some(p) => Some(p.release()),
        None => None,
    }
}

/// Releases a buffer slot: whatever the slot held is dropped and the
/// slot is left empty, so releasing an already-emptied slot is a
/// no-op, never a double release.
pub fn free_byte_buffer(buffer: &mut Option<ByteBuffer>)
    ensures
        *final(buffer) is None,
{
    let _ = buffer.take();
}

} // verus!
