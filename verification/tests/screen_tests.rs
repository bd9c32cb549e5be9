use master_duel_translayer::bitmap::{headers_for, Screenshot};
use master_duel_translayer::region::Region;
use master_duel_translayer::screen::{
    capture_screen, capture_screen_begin, is_capturable, CaptureError, CaptureReply,
    CaptureRequest, CaptureResult, CaptureStep, HGDI_ERROR,
};

const HWND: isize = 0x51;
const SCREEN_DC: isize = 0x100;
const MEMORY_DC: isize = 0x200;
const BITMAP: isize = 0x300;

fn bounds() -> Region {
    Region { left: 10, right: 13, top: -4, bottom: -2 }
}

fn pixels() -> Vec<u8> {
    (0u8..24).collect()
}

/// What a system in which every call does its work answers.
fn working(request: &CaptureRequest) -> CaptureReply {
    match request {
        CaptureRequest::GetForegroundWindow => CaptureReply::Handle(HWND),
        CaptureRequest::SetProcessDpiAwarenessContext { .. } => CaptureReply::Status(0),
        CaptureRequest::DwmGetWindowAttribute { .. } => {
            CaptureReply::Bounds { status: 0, rect: bounds() }
        }
        CaptureRequest::GetDc { .. } => CaptureReply::Handle(SCREEN_DC),
        CaptureRequest::CreateCompatibleDc { .. } => CaptureReply::Handle(MEMORY_DC),
        CaptureRequest::CreateCompatibleBitmap { .. } => CaptureReply::Handle(BITMAP),
        CaptureRequest::SelectObject { .. } => CaptureReply::Handle(0x7),
        CaptureRequest::BitBlt { .. } => CaptureReply::Status(1),
        CaptureRequest::GetDiBits { .. } => CaptureReply::Pixels { lines: 2, data: pixels() },
        CaptureRequest::DeleteDc { .. } => CaptureReply::Status(1),
        CaptureRequest::DeleteObject { .. } => CaptureReply::Status(1),
    }
}

/// Runs a capture against a system that answers as `system` says, and returns
/// the calls made and the result.
fn run(system: impl Fn(&CaptureRequest) -> CaptureReply) -> (Vec<CaptureRequest>, CaptureResult) {
    let (mut state, mut request) = capture_screen_begin(HWND);
    let mut calls = Vec::new();
    loop {
        calls.push(request);
        assert!(calls.len() <= 12);
        match capture_screen(state, system(&request)) {
            CaptureStep::Next(next, following) => {
                state = next;
                request = following;
            }
            CaptureStep::Done(result) => return (calls, result),
        }
    }
}

/// Runs a capture in which the call that `fails` picks answers `reply`.
fn run_failing(
    fails: impl Fn(&CaptureRequest) -> bool,
    reply: impl Fn() -> CaptureReply,
) -> (Vec<CaptureRequest>, CaptureResult) {
    run(|request| if fails(request) { reply() } else { working(request) })
}

fn released(calls: &[CaptureRequest]) -> Vec<isize> {
    let mut handles = Vec::new();
    for call in calls {
        match call {
            CaptureRequest::DeleteDc { dc } => handles.push(*dc),
            CaptureRequest::DeleteObject { object } => handles.push(*object),
            _ => {}
        }
    }
    handles
}

fn screenshot(result: CaptureResult) -> Screenshot {
    result.unwrap().unwrap()
}

#[test]
fn capture_makes_its_calls_in_order() {
    let (calls, result) = run(working);
    let (file_header, info_header) = headers_for(3, 2);
    assert_eq!(
        calls,
        vec![
            CaptureRequest::GetForegroundWindow,
            CaptureRequest::SetProcessDpiAwarenessContext { context: -4 },
            CaptureRequest::DwmGetWindowAttribute { hwnd: HWND, attribute: 9 },
            CaptureRequest::GetDc { hwnd: 0 },
            CaptureRequest::CreateCompatibleDc { dc: SCREEN_DC },
            CaptureRequest::CreateCompatibleBitmap { dc: SCREEN_DC, width: 3, height: 2 },
            CaptureRequest::SelectObject { dc: MEMORY_DC, object: BITMAP },
            CaptureRequest::BitBlt {
                dest: MEMORY_DC,
                width: 3,
                height: 2,
                source: SCREEN_DC,
                x: 10,
                y: -4,
                rop: 0x00CC0020,
            },
            CaptureRequest::GetDiBits {
                dc: SCREEN_DC,
                bitmap: BITMAP,
                start: 0,
                lines: 2,
                info: info_header,
                size: 24,
                usage: 0,
            },
            CaptureRequest::DeleteDc { dc: SCREEN_DC },
            CaptureRequest::DeleteObject { object: BITMAP },
            CaptureRequest::DeleteDc { dc: MEMORY_DC },
        ]
    );
    let shot = screenshot(result);
    assert_eq!(shot.file_header, file_header);
    assert_eq!(shot.info_header, info_header);
    assert_eq!(shot.pixels, pixels());
}

#[test]
fn window_in_the_background_is_not_captured() {
    let (calls, result) = run_failing(
        |request| matches!(request, CaptureRequest::GetForegroundWindow),
        || CaptureReply::Handle(HWND + 1),
    );
    assert_eq!(calls, vec![CaptureRequest::GetForegroundWindow]);
    assert!(matches!(result, Ok(None)));
}

#[test]
fn no_foreground_window_is_no_error() {
    let (calls, result) = run_failing(
        |request| matches!(request, CaptureRequest::GetForegroundWindow),
        || CaptureReply::Handle(0),
    );
    assert_eq!(calls.len(), 1);
    assert!(matches!(result, Ok(None)));
}

#[test]
fn awareness_is_declared_whatever_the_system_says() {
    for status in [0, 1, -5] {
        let (calls, result) = run_failing(
            |request| matches!(request, CaptureRequest::SetProcessDpiAwarenessContext { .. }),
            || CaptureReply::Status(status),
        );
        assert_eq!(calls.len(), 12);
        assert_eq!(screenshot(result).pixels, pixels());
    }
}

#[test]
fn failed_measurement_is_a_hard_error() {
    let (calls, result) = run_failing(
        |request| matches!(request, CaptureRequest::DwmGetWindowAttribute { .. }),
        || CaptureReply::Bounds { status: -2147024890, rect: bounds() },
    );
    assert_eq!(calls.len(), 3);
    assert_eq!(released(&calls), Vec::<isize>::new());
    assert!(matches!(result, Err(CaptureError::FrameBounds)));
}

#[test]
fn bounds_that_are_no_rectangle_are_a_hard_error() {
    let inverted = Region { left: 5, right: 4, top: 0, bottom: 1 };
    let too_large = Region { left: 0, right: 40_000, top: 0, bottom: 40_000 };
    let too_wide = Region { left: i32::MIN, right: i32::MAX, top: 0, bottom: 0 };
    for rect in [inverted, too_large, too_wide] {
        assert!(!is_capturable(&rect));
        let (calls, result) = run_failing(
            |request| matches!(request, CaptureRequest::DwmGetWindowAttribute { .. }),
            || CaptureReply::Bounds { status: 0, rect },
        );
        assert_eq!(calls.len(), 3);
        assert!(matches!(result, Err(CaptureError::FrameBounds)));
    }
    assert!(is_capturable(&bounds()));
    assert!(is_capturable(&Region { left: 0, right: 32_767, top: 0, bottom: 32_767 }));
}

#[test]
fn no_screen_context_is_a_hard_error() {
    let (calls, result) = run_failing(
        |request| matches!(request, CaptureRequest::GetDc { .. }),
        || CaptureReply::Handle(0),
    );
    assert_eq!(calls.len(), 4);
    assert_eq!(released(&calls), Vec::<isize>::new());
    assert!(matches!(result, Err(CaptureError::GetDc)));
}

#[test]
fn no_memory_context_gives_the_screen_context_back() {
    let (calls, result) = run_failing(
        |request| matches!(request, CaptureRequest::CreateCompatibleDc { .. }),
        || CaptureReply::Handle(0),
    );
    assert_eq!(released(&calls), vec![SCREEN_DC]);
    assert_eq!(calls.last(), Some(&CaptureRequest::DeleteDc { dc: SCREEN_DC }));
    assert!(matches!(result, Err(CaptureError::CreateCompatibleDc)));
}

#[test]
fn no_bitmap_gives_both_contexts_back() {
    let (calls, result) = run_failing(
        |request| matches!(request, CaptureRequest::CreateCompatibleBitmap { .. }),
        || CaptureReply::Handle(0),
    );
    assert_eq!(released(&calls), vec![SCREEN_DC, MEMORY_DC]);
    assert!(matches!(result, Err(CaptureError::CreateCompatibleBitmap)));
}

#[test]
fn failed_selection_gives_everything_back() {
    for previous in [0, HGDI_ERROR] {
        let (calls, result) = run_failing(
            |request| matches!(request, CaptureRequest::SelectObject { .. }),
            || CaptureReply::Handle(previous),
        );
        assert_eq!(released(&calls), vec![SCREEN_DC, BITMAP, MEMORY_DC]);
        assert!(matches!(result, Err(CaptureError::SelectObject)));
    }
}

#[test]
fn failed_copy_gives_everything_back() {
    let (calls, result) = run_failing(
        |request| matches!(request, CaptureRequest::BitBlt { .. }),
        || CaptureReply::Status(0),
    );
    assert_eq!(released(&calls), vec![SCREEN_DC, BITMAP, MEMORY_DC]);
    assert!(matches!(result, Err(CaptureError::BitBlt)));
}

#[test]
fn pixels_not_read_give_everything_back() {
    let (calls, result) = run_failing(
        |request| matches!(request, CaptureRequest::GetDiBits { .. }),
        || CaptureReply::Pixels { lines: 0, data: pixels() },
    );
    assert_eq!(released(&calls), vec![SCREEN_DC, BITMAP, MEMORY_DC]);
    assert!(matches!(result, Err(CaptureError::GetDiBits)));
}

#[test]
fn buffer_of_another_size_is_no_screenshot() {
    let (calls, result) = run_failing(
        |request| matches!(request, CaptureRequest::GetDiBits { .. }),
        || CaptureReply::Pixels { lines: 2, data: vec![0; 23] },
    );
    assert_eq!(released(&calls), vec![SCREEN_DC, BITMAP, MEMORY_DC]);
    assert!(matches!(result, Err(CaptureError::GetDiBits)));
}

#[test]
fn answer_of_another_kind_counts_as_failure() {
    let (calls, result) = run_failing(
        |request| matches!(request, CaptureRequest::BitBlt { .. }),
        || CaptureReply::Handle(1),
    );
    assert_eq!(released(&calls), vec![SCREEN_DC, BITMAP, MEMORY_DC]);
    assert!(matches!(result, Err(CaptureError::BitBlt)));
}

#[test]
fn handles_are_given_back_whatever_the_release_answers() {
    let (calls, result) = run_failing(
        |request| {
            matches!(request, CaptureRequest::DeleteDc { .. } | CaptureRequest::DeleteObject { .. })
        },
        || CaptureReply::Status(0),
    );
    assert_eq!(released(&calls), vec![SCREEN_DC, BITMAP, MEMORY_DC]);
    assert_eq!(screenshot(result).pixels, pixels());
}

#[test]
fn capture_errors_name_the_call() {
    assert_eq!(CaptureError::FrameBounds.message(), "DwmGetWindowAttribute failed");
    assert_eq!(CaptureError::GetDc.message(), "GetDC failed");
    assert_eq!(CaptureError::CreateCompatibleDc.message(), "CreateCompatibleDC failed");
    assert_eq!(CaptureError::CreateCompatibleBitmap.message(), "CreateCompatibleBitmap failed");
    assert_eq!(CaptureError::SelectObject.message(), "SelectObject failed");
    assert_eq!(CaptureError::BitBlt.message(), "BitBlt failed");
    assert_eq!(CaptureError::GetDiBits.message(), "GetDIBits failed");
}
