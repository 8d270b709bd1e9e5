use pdf2png::cpath::nul_terminated;
use pdf2png::document::Document;
use pdf2png::document::OpenOutcome;
use pdf2png::error::RenderError;

#[test]
fn nul_terminated_appends_one_nul() {
    assert_eq!(nul_terminated("ab").unwrap(), vec![b'a', b'b', 0]);
}

#[test]
fn nul_terminated_rejects_embedded_nul() {
    assert_eq!(nul_terminated("a\0b"), Err(RenderError::InvalidInput));
}

#[test]
fn nul_terminated_of_empty_path_is_just_the_terminator() {
    assert_eq!(nul_terminated("").unwrap(), vec![0]);
}

#[test]
fn open_caches_engine_page_count() {
    let doc = Document::new(
        "file:///tmp/four-pages.pdf",
        OpenOutcome::Opened { handle: 42, total_pages: 4 },
    )
    .unwrap();
    assert_eq!(doc.total_pages(), 4);
    assert_eq!(doc.filename(), "file:///tmp/four-pages.pdf");
    assert_eq!(doc.handle, 42);
}

#[test]
fn engine_error_message_is_carried_through() {
    let r = Document::new(
        "file:///tmp/broken.pdf",
        OpenOutcome::EngineError { message: "damaged xref table".to_owned() },
    );
    assert_eq!(
        r.unwrap_err(),
        RenderError::OpenFailed(Some("damaged xref table".to_owned()))
    );
}

#[test]
fn null_document_without_error_is_its_own_failure() {
    let r = Document::new("file:///tmp/void.pdf", OpenOutcome::NullWithoutError);
    assert_eq!(r.unwrap_err(), RenderError::OpenFailed(None));
}

#[test]
fn error_object_wins_even_beside_a_document() {
    // The bridge consults the error object first; open_outcome encodes
    // that priority.
    let r = pdf2png::bridge::open_outcome(true, Some("trailer not found".to_owned()));
    assert_eq!(
        r.unwrap_err(),
        RenderError::OpenFailed(Some("trailer not found".to_owned()))
    );
    assert_eq!(pdf2png::bridge::open_outcome(true, None), Ok(()));
    assert_eq!(
        pdf2png::bridge::open_outcome(false, None).unwrap_err(),
        RenderError::OpenFailed(None)
    );
}

#[test]
fn release_hands_back_the_native_handle_once() {
    let doc = Document::new(
        "file:///tmp/a.pdf",
        OpenOutcome::Opened { handle: 7, total_pages: 1 },
    )
    .unwrap();
    assert_eq!(doc.release(), 7);
    // `doc` is consumed: a second release cannot even be written.
}

#[test]
fn a_negative_engine_count_is_clamped_to_zero() {
    // The engine's calling convention is signed, but a page count is a
    // non-negative integer: a (mis)reported -3 is pinned to 0, every
    // index is then out of range, and the count can never collide with
    // the export surface's -1 sentinel.
    let doc = Document::new(
        "file:///tmp/odd.pdf",
        OpenOutcome::Opened { handle: 8, total_pages: -3 },
    )
    .unwrap();
    assert_eq!(doc.total_pages(), 0);
    assert_eq!(doc.get_page(0, 1000, Some(9)).unwrap_err(), RenderError::PageNotFound(0));
}

#[test]
fn validate_page_request_rejects_before_any_fetch() {
    let doc = Document::new(
        "file:///tmp/four-pages.pdf",
        OpenOutcome::Opened { handle: 1, total_pages: 4 },
    )
    .unwrap();
    assert_eq!(doc.validate_page_request(0, 2000), Ok(()));
    assert_eq!(doc.validate_page_request(3, 1), Ok(()));
    assert_eq!(doc.validate_page_request(4, 2000).unwrap_err(), RenderError::PageNotFound(4));
    assert_eq!(doc.validate_page_request(-1, 2000).unwrap_err(), RenderError::PageNotFound(-1));
    assert_eq!(doc.validate_page_request(0, 0).unwrap_err(), RenderError::InvalidInput);
}

#[test]
fn get_page_bounds_and_scale_checks() {
    let doc = Document::new(
        "file:///tmp/four-pages.pdf",
        OpenOutcome::Opened { handle: 1, total_pages: 4 },
    )
    .unwrap();

    // In range with a positive scale and a page from the engine.
    let page = doc.get_page(0, 2000, Some(11)).unwrap();
    assert_eq!(page.handle, 11);
    assert_eq!(page.index, 0);

    // Out of range above (0-indexed), below, and far off.
    assert_eq!(doc.get_page(4, 2000, Some(11)).unwrap_err(), RenderError::PageNotFound(4));
    assert_eq!(doc.get_page(-1, 2000, Some(11)).unwrap_err(), RenderError::PageNotFound(-1));
    assert_eq!(doc.get_page(100, 2000, None).unwrap_err(), RenderError::PageNotFound(100));

    // Non-positive scale is rejected before anything else.
    assert_eq!(doc.get_page(0, 0, Some(11)).unwrap_err(), RenderError::InvalidInput);

    // In range, but the engine handed no page back.
    assert_eq!(doc.get_page(2, 2000, None).unwrap_err(), RenderError::PageNotFound(2));
}
