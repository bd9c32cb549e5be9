use master_duel_translayer::bitmap::{decode_bmp, headers_for, Screenshot};
use master_duel_translayer::pipeline::{
    capture, capture_begin, encode, PipelineError, PipelineReply, PipelineRequest, PipelineStep,
};
use master_duel_translayer::recognizer::OcrError;
use master_duel_translayer::region::Region;
use master_duel_translayer::screen::CaptureError;

const HWND: isize = 0x51;
const IMAGE: isize = 0x99;

fn shot() -> Screenshot {
    let (file_header, info_header) = headers_for(2, 2);
    Screenshot { file_header, info_header, pixels: (0u8..16).collect() }
}

fn next(step: PipelineStep) -> (master_duel_translayer::pipeline::PipelineState, PipelineRequest) {
    match step {
        PipelineStep::Next(state, request) => (state, request),
        PipelineStep::Done(result) => panic!("done too early: {:?}", result),
    }
}

#[test]
fn reading_goes_from_capture_to_text() {
    let region = Region::main_menu_duel();
    let (state, request) = capture_begin(HWND, Some(region));
    assert!(matches!(request, PipelineRequest::CaptureScreen { hwnd: HWND }));

    let (state, request) = next(capture(state, PipelineReply::Captured(Ok(Some(shot())))));
    match request {
        PipelineRequest::ReadImage { bytes } => {
            assert_eq!(bytes.len(), 54 + 16);
            assert_eq!(bytes, encode(&shot()));
            let back = decode_bmp(&bytes).unwrap();
            assert_eq!(back.info_header.width, 2);
            assert_eq!(back.info_header.height, 2);
            assert_eq!(back.pixels, shot().pixels);
        }
        other => panic!("unexpected call: {:?}", other),
    }

    let (state, request) = next(capture(state, PipelineReply::Image(IMAGE)));
    match request {
        PipelineRequest::Recognize { image, region: asked } => {
            assert_eq!(image, IMAGE);
            assert_eq!(asked, Some(region));
        }
        other => panic!("unexpected call: {:?}", other),
    }

    let (state, request) = next(capture(state, PipelineReply::Text(Ok("DUEL".to_string()))));
    assert!(matches!(request, PipelineRequest::DestroyImage { image: IMAGE }));

    match capture(state, PipelineReply::Nothing) {
        PipelineStep::Done(result) => assert_eq!(result, Ok(Some("DUEL".to_string()))),
        PipelineStep::Next(_, request) => panic!("unexpected call: {:?}", request),
    }
}

#[test]
fn window_in_the_background_yields_nothing() {
    let (state, _) = capture_begin(HWND, None);
    match capture(state, PipelineReply::Captured(Ok(None))) {
        PipelineStep::Done(result) => assert_eq!(result, Ok(None)),
        PipelineStep::Next(_, request) => panic!("unexpected call: {:?}", request),
    }
}

#[test]
fn failed_capture_ends_the_reading() {
    let (state, _) = capture_begin(HWND, None);
    match capture(state, PipelineReply::Captured(Err(CaptureError::BitBlt))) {
        PipelineStep::Done(result) => {
            assert_eq!(result, Err(PipelineError::Capture(CaptureError::BitBlt)))
        }
        PipelineStep::Next(_, request) => panic!("unexpected call: {:?}", request),
    }
}

#[test]
fn bitmap_that_is_no_image_ends_the_reading() {
    let (state, _) = capture_begin(HWND, None);
    let (state, _) = next(capture(state, PipelineReply::Captured(Ok(Some(shot())))));
    match capture(state, PipelineReply::Image(0)) {
        PipelineStep::Done(result) => {
            assert_eq!(result, Err(PipelineError::Recognition(OcrError::InvalidImage)))
        }
        PipelineStep::Next(_, request) => panic!("unexpected call: {:?}", request),
    }
}

#[test]
fn failed_recognition_destroys_the_image() {
    let (state, _) = capture_begin(HWND, None);
    let (state, _) = next(capture(state, PipelineReply::Captured(Ok(Some(shot())))));
    let (state, _) = next(capture(state, PipelineReply::Image(IMAGE)));
    let (state, request) = next(capture(state, PipelineReply::Text(Err(OcrError::Init))));
    assert!(matches!(request, PipelineRequest::DestroyImage { image: IMAGE }));
    match capture(state, PipelineReply::Nothing) {
        PipelineStep::Done(result) => {
            assert_eq!(result, Err(PipelineError::Recognition(OcrError::Init)))
        }
        PipelineStep::Next(_, request) => panic!("unexpected call: {:?}", request),
    }
}
