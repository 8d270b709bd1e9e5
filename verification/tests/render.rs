use pdf2png::bridge::cairo_status_t;
use pdf2png::bridge::CairoFormat;
use pdf2png::error::RenderError;
use pdf2png::page::Page;
use pdf2png::render::EncodeTarget;
use pdf2png::render::RenderAction;
use pdf2png::render::RenderEvent;
use pdf2png::render::RenderPhase;

const OK: cairo_status_t = cairo_status_t::CAIRO_STATUS_SUCCESS;

#[test]
fn status_codes_round_trip() {
    assert_eq!(cairo_status_t::from_code(0), cairo_status_t::CAIRO_STATUS_SUCCESS);
    assert_eq!(cairo_status_t::from_code(1), cairo_status_t::CAIRO_STATUS_NO_MEMORY);
    assert_eq!(cairo_status_t::from_code(11), cairo_status_t::CAIRO_STATUS_WRITE_ERROR);
    assert_eq!(cairo_status_t::from_code(39), cairo_status_t::CAIRO_STATUS_PNG_ERROR);
    // Codes outside the known range are read as the closing sentinel.
    assert_eq!(cairo_status_t::from_code(99), cairo_status_t::CAIRO_STATUS_LAST_STATUS);
    assert_eq!(cairo_status_t::from_code(-5), cairo_status_t::CAIRO_STATUS_LAST_STATUS);

    assert_eq!(cairo_status_t::CAIRO_STATUS_SUCCESS.code(), 0);
    assert_eq!(cairo_status_t::CAIRO_STATUS_WRITE_ERROR.code(), 11);
    assert!(cairo_status_t::CAIRO_STATUS_SUCCESS.is_success());
    assert!(!cairo_status_t::CAIRO_STATUS_NO_MEMORY.is_success());
    assert_eq!(CairoFormat::Argb32.code(), 0);
    assert_eq!(CairoFormat::Invalid.code(), -1);
}

#[test]
fn memory_render_walks_the_whole_pipeline_in_order() {
    let page = Page::new(11, 0);
    let mut job = page.to_png_bytes(2000).unwrap();

    assert_eq!(job.next_action(), RenderAction::QuerySize);
    job.advance(RenderEvent::SizeQueried { width_milli: 10100, height_milli: 5000 });

    // floor(10.1 * 2.0) = 20, floor(5.0 * 2.0) = 10.
    assert_eq!(
        job.next_action(),
        RenderAction::CreateSurface { format: CairoFormat::Argb32, width: 20, height: 10 }
    );
    job.advance(RenderEvent::SurfaceCreated { created: true, status: OK });

    assert_eq!(job.next_action(), RenderAction::CreateContext);
    job.advance(RenderEvent::ContextCreated { status: OK });

    assert_eq!(job.next_action(), RenderAction::PaintAndFlush { scale_milli: 2000 });
    job.advance(RenderEvent::Painted);

    assert_eq!(job.next_action(), RenderAction::Encode);
    assert_eq!(job.target, EncodeTarget::Memory);
    job.advance(RenderEvent::Encoded { status: OK, status_message: None });

    // Teardown: context first, surface second, on success as on failure.
    assert_eq!(job.next_action(), RenderAction::DestroyContext);
    job.advance(RenderEvent::ContextDestroyed);
    assert_eq!(job.next_action(), RenderAction::DestroySurface);
    job.advance(RenderEvent::SurfaceDestroyed);

    assert_eq!(job.next_action(), RenderAction::Finish);
    assert_eq!(job.finish(), Ok(()));
}

#[test]
fn file_render_carries_the_nul_terminated_path() {
    let page = Page::new(11, 0);
    let job = page.to_png_file("page-1.png", 10000).unwrap();
    assert_eq!(job.phase, RenderPhase::Start);
    assert_eq!(job.target, EncodeTarget::File { cpath: b"page-1.png\0".to_vec() });
    assert_eq!(job.scale_milli, 10000);
    assert_eq!(job.page_handle, 11);
}

#[test]
fn render_rejects_bad_inputs_before_any_native_call() {
    let page = Page::new(11, 0);
    assert_eq!(page.to_png_bytes(0).unwrap_err(), RenderError::InvalidInput);
    assert_eq!(page.to_png_file("out.png", 0).unwrap_err(), RenderError::InvalidInput);
    assert_eq!(page.to_png_file("ou\0t.png", 1000).unwrap_err(), RenderError::InvalidInput);
}

#[test]
fn null_surface_finishes_at_once_with_nothing_to_tear_down() {
    let page = Page::new(11, 0);
    let mut job = page.to_png_bytes(1000).unwrap();
    job.advance(RenderEvent::SizeQueried { width_milli: 595280, height_milli: 841890 });
    job.advance(RenderEvent::SurfaceCreated { created: false, status: OK });
    assert_eq!(job.next_action(), RenderAction::Finish);
    assert_eq!(job.finish(), Err(RenderError::SurfaceCreationFailed));
}

#[test]
fn bad_surface_status_still_tears_the_surface_down() {
    let page = Page::new(11, 0);
    let mut job = page.to_png_bytes(1000).unwrap();
    job.advance(RenderEvent::SizeQueried { width_milli: 0, height_milli: 0 });
    // A zero-area request is not special-cased: it goes to the
    // rasterizer, which answers with a failed surface.
    job.advance(
        RenderEvent::SurfaceCreated { created: true, status: cairo_status_t::CAIRO_STATUS_INVALID_SIZE },
    );
    assert_eq!(job.next_action(), RenderAction::DestroySurface);
    job.advance(RenderEvent::SurfaceDestroyed);
    assert_eq!(job.finish(), Err(RenderError::SurfaceCreationFailed));
}

#[test]
fn failed_context_destroys_the_surface_before_returning() {
    let page = Page::new(11, 0);
    let mut job = page.to_png_bytes(1000).unwrap();
    job.advance(RenderEvent::SizeQueried { width_milli: 10000, height_milli: 10000 });
    job.advance(RenderEvent::SurfaceCreated { created: true, status: OK });
    job.advance(RenderEvent::ContextCreated { status: cairo_status_t::CAIRO_STATUS_NO_MEMORY });
    assert_eq!(job.next_action(), RenderAction::DestroySurface);
    job.advance(RenderEvent::SurfaceDestroyed);
    assert_eq!(job.finish(), Err(RenderError::ContextCreationFailed));
}

#[test]
fn failed_encode_keeps_the_translated_status_text() {
    let page = Page::new(11, 0);
    let mut job = page.to_png_file("out.png", 1000).unwrap();
    job.advance(RenderEvent::SizeQueried { width_milli: 10000, height_milli: 10000 });
    job.advance(RenderEvent::SurfaceCreated { created: true, status: OK });
    job.advance(RenderEvent::ContextCreated { status: OK });
    job.advance(RenderEvent::Painted);
    job.advance(RenderEvent::Encoded {
        status: cairo_status_t::CAIRO_STATUS_WRITE_ERROR,
        status_message: Some("error while writing to output stream".to_owned()),
    });
    // Teardown order is unchanged on the failure path.
    assert_eq!(job.next_action(), RenderAction::DestroyContext);
    job.advance(RenderEvent::ContextDestroyed);
    assert_eq!(job.next_action(), RenderAction::DestroySurface);
    job.advance(RenderEvent::SurfaceDestroyed);
    assert_eq!(
        job.finish(),
        Err(RenderError::EncodeFailed(Some("error while writing to output stream".to_owned())))
    );
}

#[test]
fn failed_encode_with_unmapped_status_keeps_the_absence() {
    let page = Page::new(11, 0);
    let mut job = page.to_png_bytes(1000).unwrap();
    job.advance(RenderEvent::SizeQueried { width_milli: 10000, height_milli: 10000 });
    job.advance(RenderEvent::SurfaceCreated { created: true, status: OK });
    job.advance(RenderEvent::ContextCreated { status: OK });
    job.advance(RenderEvent::Painted);
    job.advance(RenderEvent::Encoded {
        status: cairo_status_t::CAIRO_STATUS_LAST_STATUS,
        status_message: None,
    });
    job.advance(RenderEvent::ContextDestroyed);
    job.advance(RenderEvent::SurfaceDestroyed);
    assert_eq!(job.finish(), Err(RenderError::EncodeFailed(None)));
}

#[test]
fn a_page_can_be_rendered_again_after_a_failed_attempt() {
    let page = Page::new(11, 3);
    let mut first = page.to_png_bytes(1000).unwrap();
    first.advance(RenderEvent::SizeQueried { width_milli: 10000, height_milli: 10000 });
    first.advance(RenderEvent::SurfaceCreated { created: false, status: OK });
    assert!(first.finish().is_err());

    // The failure was terminal for that render only; the page plans anew.
    let second = page.to_png_bytes(3000).unwrap();
    assert_eq!(second.phase, RenderPhase::Start);
    assert_eq!(second.scale_milli, 3000);
}
