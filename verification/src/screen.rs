//! Capturing the client area of a window, one operating system call at a
//! time.
//!
//! The capture is a protocol between this module and a caller that can talk
//! to the graphics subsystem. [`capture_screen_begin`] names the first call to make;
//! the caller makes it and hands what came back to [`capture_screen`], which
//! names the next call, until it hands out the result. The module decides
//! what each answer means, which call follows, what must be given back to
//! the system, and what the capture is in the end.
//!
//! The calls, in order: the foreground window is asked for and compared with
//! the window to capture; the process is declared aware of the monitor's
//! resolution; the frame bounds of the window are measured; a device context
//! of the screen, a memory device context and a bitmap of the window's size
//! are obtained; the bitmap is selected into the memory context; the window's
//! pixels are copied into it and then read out. Whatever was obtained is
//! given back, each handle once, before the result is handed out, whether
//! the capture succeeded or not.

use crate::bitmap::{
    describable, headers_for, info_header_for, file_header_for, is_describable, pixel_bytes,
    InfoHeader, Screenshot,
};
use crate::region::Region;
use vstd::multiset::Multiset;
use vstd::prelude::*;

verus! {

/// The handle that names no object.
pub const NULL_HANDLE: isize = 0;

/// The handle by which selecting an object reports an error.
pub const HGDI_ERROR: isize = -1;

/// The awareness of resolution that the process declares: of each monitor's
/// resolution, in its second version. With it, rectangles are measured in
/// physical pixels.
pub const DPI_AWARENESS_CONTEXT_PER_MONITOR_AWARE_V2: isize = -4;

/// The attribute of a window that is measured: its extended frame bounds,
/// the visible rectangle without the invisible border.
pub const DWMWA_EXTENDED_FRAME_BOUNDS: u32 = 9;

/// The raster operation of the copy: the source as it is.
pub const SRCCOPY: u32 = 0x00CC0020;

/// The meaning of the colour table when pixels are read: literal colours.
pub const DIB_RGB_COLORS: u32 = 0;

/// The call that failed, for a capture that could not be completed.
#[derive(Clone, Copy, Debug, PartialEq, Eq, Structural)]
pub enum CaptureError {
    /// The frame bounds could not be measured, or are no rectangle that can
    /// be captured.
    FrameBounds,
    /// No device context of the screen was obtained.
    GetDc,
    /// No memory device context was created.
    CreateCompatibleDc,
    /// No bitmap was created.
    CreateCompatibleBitmap,
    /// The bitmap was not selected into the memory device context.
    SelectObject,
    /// The pixels were not copied.
    BitBlt,
    /// The pixels were not read out.
    GetDiBits,
}

/// What a capture comes to: a screenshot, nothing because the window is not
/// in the foreground, or the call that failed.
pub type CaptureResult = Result<Option<Screenshot>, CaptureError>;

/// The call whose answer the capture waits for.
#[derive(Clone, Copy, Debug, PartialEq, Eq, Structural)]
pub enum CaptureStage {
    Foreground,
    Awareness,
    Bounds,
    ScreenDc,
    MemoryDc,
    Bitmap,
    Select,
    Blit,
    Pixels,
    Release,
}

/// The handles that were obtained and not yet given back. A field that
/// holds no handle is [`NULL_HANDLE`].
#[derive(Clone, Copy, Debug, PartialEq, Eq, Structural)]
pub struct Held {
    pub screen_dc: isize,
    pub bitmap: isize,
    pub memory_dc: isize,
}

/// A capture under way.
#[derive(Debug)]
pub struct CaptureState {
    /// The call whose answer is awaited.
    pub stage: CaptureStage,
    /// The window to capture.
    pub hwnd: isize,
    /// The frame bounds of the window, once measured.
    pub bounds: Region,
    /// The handles to give back.
    pub held: Held,
    /// The result, once it is settled and while handles are given back.
    pub outcome: Option<CaptureResult>,
}

/// A call for the caller to make.
#[derive(Clone, Copy, Debug, PartialEq, Eq, Structural)]
pub enum CaptureRequest {
    /// Ask which window is in the foreground.
    GetForegroundWindow,
    /// Declare the process aware of resolution, in the way `context` names.
    SetProcessDpiAwarenessContext { context: isize },
    /// Measure the attribute `attribute` of the window `hwnd`, a rectangle.
    DwmGetWindowAttribute { hwnd: isize, attribute: u32 },
    /// Obtain a device context of the window `hwnd`, or of the whole screen
    /// where `hwnd` names no window.
    GetDc { hwnd: isize },
    /// Create a memory device context compatible with `dc`.
    CreateCompatibleDc { dc: isize },
    /// Create a bitmap of `width` by `height` pixels compatible with `dc`.
    CreateCompatibleBitmap { dc: isize, width: i32, height: i32 },
    /// Select `object` into `dc`.
    SelectObject { dc: isize, object: isize },
    /// Copy `width` by `height` pixels from `source`, beginning at `x`, `y`,
    /// to the origin of `dest`, with the raster operation `rop`.
    BitBlt { dest: isize, width: i32, height: i32, source: isize, x: i32, y: i32, rop: u32 },
    /// Read `lines` rows of `bitmap`, from the row `start` on, into a buffer
    /// of `size` bytes, in the format that `info` describes, with `usage` as
    /// the meaning of the colour table.
    GetDiBits {
        dc: isize,
        bitmap: isize,
        start: u32,
        lines: u32,
        info: InfoHeader,
        size: u32,
        usage: u32,
    },
    /// Give the device context `dc` back.
    DeleteDc { dc: isize },
    /// Give the object `object` back.
    DeleteObject { object: isize },
}

/// What a call answered.
#[derive(Debug)]
pub enum CaptureReply {
    /// A handle: of a window, a device context or an object.
    Handle(isize),
    /// A status: zero or not, negative or not, as the call defines it.
    Status(i32),
    /// The status of the measurement and the rectangle measured.
    Bounds { status: i32, rect: Region },
    /// The number of rows read and the bytes read.
    Pixels { lines: i32, data: Vec<u8> },
}

/// What one answer leads to: the next call, or the result.
#[derive(Debug)]
pub enum CaptureStep {
    Next(CaptureState, CaptureRequest),
    Done(CaptureResult),
}

/// A rectangle that can be captured: its edges are in order, its extents fit
/// their type, and its pixels fit a bitmap.
pub open spec fn capturable(rect: Region) -> bool {
    &&& rect.well_formed()
    &&& rect.measurable()
    &&& describable(rect.spec_width(), rect.spec_height())
}

impl Held {
    /// Nothing is held.
    pub open spec fn none() -> Held {
        Held { screen_dc: NULL_HANDLE, bitmap: NULL_HANDLE, memory_dc: NULL_HANDLE }
    }

    /// How many handles are held.
    pub open spec fn count(&self) -> nat {
        (if self.screen_dc != NULL_HANDLE { 1nat } else { 0nat })
            + (if self.bitmap != NULL_HANDLE { 1nat } else { 0nat })
            + (if self.memory_dc != NULL_HANDLE { 1nat } else { 0nat })
    }

    /// The call that gives back the first handle held: the screen's device
    /// context before the bitmap, the bitmap before the memory device
    /// context.
    pub open spec fn release_request(&self) -> CaptureRequest {
        if self.screen_dc != NULL_HANDLE {
            CaptureRequest::DeleteDc { dc: self.screen_dc }
        } else if self.bitmap != NULL_HANDLE {
            CaptureRequest::DeleteObject { object: self.bitmap }
        } else {
            CaptureRequest::DeleteDc { dc: self.memory_dc }
        }
    }

    /// What is held once the first handle was given back.
    pub open spec fn without_first(&self) -> Held {
        if self.screen_dc != NULL_HANDLE {
            Held { screen_dc: NULL_HANDLE, ..*self }
        } else if self.bitmap != NULL_HANDLE {
            Held { bitmap: NULL_HANDLE, ..*self }
        } else {
            Held { memory_dc: NULL_HANDLE, ..*self }
        }
    }
}

impl CaptureRequest {
    /// The handle that this call gives back, if it gives one back.
    pub open spec fn released(&self) -> Option<isize> {
        match *self {
            CaptureRequest::DeleteDc { dc } => Some(dc),
            CaptureRequest::DeleteObject { object } => Some(object),
            _ => None,
        }
    }

    /// This call obtains a handle from the system.
    pub open spec fn acquires(&self) -> bool {
        *self is GetDc || *self is CreateCompatibleDc || *self is CreateCompatibleBitmap
    }

    /// The handles that this call works on: device contexts and objects
    /// that were obtained before.
    pub open spec fn handles(&self) -> Set<isize> {
        match *self {
            CaptureRequest::CreateCompatibleDc { dc } => set![dc],
            CaptureRequest::CreateCompatibleBitmap { dc, .. } => set![dc],
            CaptureRequest::SelectObject { dc, object } => set![dc, object],
            CaptureRequest::BitBlt { dest, source, .. } => set![dest, source],
            CaptureRequest::GetDiBits { dc, bitmap, .. } => set![dc, bitmap],
            CaptureRequest::DeleteDc { dc } => set![dc],
            CaptureRequest::DeleteObject { object } => set![object],
            _ => Set::empty(),
        }
    }
}

impl CaptureError {
    /// The name of the call that failed, in a sentence.
    pub fn message(&self) -> (text: &'static str)
        ensures
            text@ == (match *self {
                CaptureError::FrameBounds => "DwmGetWindowAttribute failed"@,
                CaptureError::GetDc => "GetDC failed"@,
                CaptureError::CreateCompatibleDc => "CreateCompatibleDC failed"@,
                CaptureError::CreateCompatibleBitmap => "CreateCompatibleBitmap failed"@,
                CaptureError::SelectObject => "SelectObject failed"@,
                CaptureError::BitBlt => "BitBlt failed"@,
                CaptureError::GetDiBits => "GetDIBits failed"@,
            }),
    {
        match self {
            CaptureError::FrameBounds => "DwmGetWindowAttribute failed",
            CaptureError::GetDc => "GetDC failed",
            CaptureError::CreateCompatibleDc => "CreateCompatibleDC failed",
            CaptureError::CreateCompatibleBitmap => "CreateCompatibleBitmap failed",
            CaptureError::SelectObject => "SelectObject failed",
            CaptureError::BitBlt => "BitBlt failed",
            CaptureError::GetDiBits => "GetDIBits failed",
        }
    }
}

impl CaptureState {
    /// The capture of `hwnd` before any call was answered.
    pub open spec fn initial(hwnd: isize) -> CaptureState {
        CaptureState {
            stage: CaptureStage::Foreground,
            hwnd,
            bounds: Region { left: 0, right: 0, top: 0, bottom: 0 },
            held: Held::none(),
            outcome: None,
        }
    }

    /// The state is one that a capture can be in: what is held is what the
    /// calls answered so far have obtained, the bounds can be captured once
    /// they are measured, and a result is settled exactly while handles are
    /// given back.
    pub open spec fn well_formed(&self) -> bool {
        match self.stage {
            CaptureStage::Foreground | CaptureStage::Awareness | CaptureStage::Bounds => {
                self.held == Held::none() && self.outcome is None
            },
            CaptureStage::ScreenDc => {
                self.held == Held::none() && self.outcome is None && capturable(self.bounds)
            },
            CaptureStage::MemoryDc => {
                &&& self.held.screen_dc != NULL_HANDLE
                &&& self.held.bitmap == NULL_HANDLE
                &&& self.held.memory_dc == NULL_HANDLE
                &&& self.outcome is None
                &&& capturable(self.bounds)
            },
            CaptureStage::Bitmap => {
                &&& self.held.screen_dc != NULL_HANDLE
                &&& self.held.bitmap == NULL_HANDLE
                &&& self.held.memory_dc != NULL_HANDLE
                &&& self.outcome is None
                &&& capturable(self.bounds)
            },
            CaptureStage::Select | CaptureStage::Blit | CaptureStage::Pixels => {
                &&& self.held.screen_dc != NULL_HANDLE
                &&& self.held.bitmap != NULL_HANDLE
                &&& self.held.memory_dc != NULL_HANDLE
                &&& self.outcome is None
                &&& capturable(self.bounds)
            },
            CaptureStage::Release => {
                &&& self.held.count() > 0
                &&& self.outcome is Some
                &&& result_well_formed(self.outcome->Some_0)
            },
        }
    }

    /// The most answers that the capture still needs before it is done.
    pub open spec fn remaining(&self) -> nat {
        match self.stage {
            CaptureStage::Foreground => 12,
            CaptureStage::Awareness => 11,
            CaptureStage::Bounds => 10,
            CaptureStage::ScreenDc => 9,
            CaptureStage::MemoryDc => 8,
            CaptureStage::Bitmap => 7,
            CaptureStage::Select => 6,
            CaptureStage::Blit => 5,
            CaptureStage::Pixels => 4,
            CaptureStage::Release => self.held.count(),
        }
    }

    /// The call whose answer the state waits for.
    pub open spec fn request(&self) -> CaptureRequest {
        match self.stage {
            CaptureStage::Foreground => CaptureRequest::GetForegroundWindow,
            CaptureStage::Awareness => CaptureRequest::SetProcessDpiAwarenessContext {
                context: DPI_AWARENESS_CONTEXT_PER_MONITOR_AWARE_V2,
            },
            CaptureStage::Bounds => CaptureRequest::DwmGetWindowAttribute {
                hwnd: self.hwnd,
                attribute: DWMWA_EXTENDED_FRAME_BOUNDS,
            },
            CaptureStage::ScreenDc => CaptureRequest::GetDc { hwnd: NULL_HANDLE },
            CaptureStage::MemoryDc => CaptureRequest::CreateCompatibleDc { dc: self.held.screen_dc },
            CaptureStage::Bitmap => CaptureRequest::CreateCompatibleBitmap {
                dc: self.held.screen_dc,
                width: self.bounds.spec_width() as i32,
                height: self.bounds.spec_height() as i32,
            },
            CaptureStage::Select => CaptureRequest::SelectObject {
                dc: self.held.memory_dc,
                object: self.held.bitmap,
            },
            CaptureStage::Blit => CaptureRequest::BitBlt {
                dest: self.held.memory_dc,
                width: self.bounds.spec_width() as i32,
                height: self.bounds.spec_height() as i32,
                source: self.held.screen_dc,
                x: self.bounds.left,
                y: self.bounds.top,
                rop: SRCCOPY,
            },
            CaptureStage::Pixels => CaptureRequest::GetDiBits {
                dc: self.held.screen_dc,
                bitmap: self.held.bitmap,
                start: 0,
                lines: self.bounds.spec_height() as u32,
                info: info_header_for(self.bounds.spec_width(), self.bounds.spec_height()),
                size: (self.bounds.spec_width() * self.bounds.spec_height() * 4) as u32,
                usage: DIB_RGB_COLORS,
            },
            CaptureStage::Release => self.held.release_request(),
        }
    }
}

/// A result that a capture can come to: a screenshot in it is well formed.
pub open spec fn result_well_formed(result: CaptureResult) -> bool {
    result matches Ok(Some(shot)) ==> shot.well_formed()
}

/// The answer says that the awaited call did its work. An answer of
/// another kind than the call gives says that it did not. Whether the
/// process was declared aware of the resolution is not asked; neither is
/// whether a handle was given back.
pub open spec fn accepted(state: CaptureState, reply: CaptureReply) -> bool {
    match state.stage {
        CaptureStage::Foreground => reply matches CaptureReply::Handle(window) && window == state.hwnd,
        CaptureStage::Awareness => true,
        CaptureStage::Bounds => reply matches CaptureReply::Bounds { status, rect } && status >= 0
            && capturable(rect),
        CaptureStage::ScreenDc | CaptureStage::MemoryDc | CaptureStage::Bitmap => reply matches CaptureReply::Handle(
            handle,
        ) && handle != NULL_HANDLE,
        CaptureStage::Select => reply matches CaptureReply::Handle(previous) && previous != NULL_HANDLE
            && previous != HGDI_ERROR,
        CaptureStage::Blit => reply matches CaptureReply::Status(status) && status != 0,
        CaptureStage::Pixels => reply matches CaptureReply::Pixels { lines, data } && lines != 0
            && data@.len() == state.bounds.spec_width() * state.bounds.spec_height() * 4,
        CaptureStage::Release => true,
    }
}

/// What the capture comes to when the awaited call did not do its work:
/// nothing, without an error, when the window is not in the foreground; else
/// the error that names the call.
pub open spec fn refusal(stage: CaptureStage) -> CaptureResult {
    match stage {
        CaptureStage::Foreground => Ok(None),
        CaptureStage::Bounds => Err(CaptureError::FrameBounds),
        CaptureStage::ScreenDc => Err(CaptureError::GetDc),
        CaptureStage::MemoryDc => Err(CaptureError::CreateCompatibleDc),
        CaptureStage::Bitmap => Err(CaptureError::CreateCompatibleBitmap),
        CaptureStage::Select => Err(CaptureError::SelectObject),
        CaptureStage::Blit => Err(CaptureError::BitBlt),
        _ => Err(CaptureError::GetDiBits),
    }
}

/// The state after an answer that was accepted, for every call but the last
/// of the capture and the giving back.
pub open spec fn advanced(state: CaptureState, reply: CaptureReply) -> CaptureState {
    match state.stage {
        CaptureStage::Foreground => CaptureState { stage: CaptureStage::Awareness, ..state },
        CaptureStage::Awareness => CaptureState { stage: CaptureStage::Bounds, ..state },
        CaptureStage::Bounds => CaptureState {
            stage: CaptureStage::ScreenDc,
            bounds: reply->Bounds_rect,
            ..state
        },
        CaptureStage::ScreenDc => CaptureState {
            stage: CaptureStage::MemoryDc,
            held: Held { screen_dc: reply->Handle_0, ..state.held },
            ..state
        },
        CaptureStage::MemoryDc => CaptureState {
            stage: CaptureStage::Bitmap,
            held: Held { memory_dc: reply->Handle_0, ..state.held },
            ..state
        },
        CaptureStage::Bitmap => CaptureState {
            stage: CaptureStage::Select,
            held: Held { bitmap: reply->Handle_0, ..state.held },
            ..state
        },
        CaptureStage::Select => CaptureState { stage: CaptureStage::Blit, ..state },
        _ => CaptureState { stage: CaptureStage::Pixels, ..state },
    }
}

/// The screenshot that the pixels read make, under the headers of the
/// bounds measured.
pub open spec fn captured(bounds: Region, data: Vec<u8>) -> Screenshot {
    Screenshot {
        file_header: file_header_for(bounds.spec_width(), bounds.spec_height()),
        info_header: info_header_for(bounds.spec_width(), bounds.spec_height()),
        pixels: data,
    }
}

/// Where a capture stands once its result is settled: done if nothing is
/// held, else giving back the first handle held.
pub open spec fn settled(hwnd: isize, bounds: Region, held: Held, result: CaptureResult) -> CaptureStep {
    if held == Held::none() {
        CaptureStep::Done(result)
    } else {
        CaptureStep::Next(
            CaptureState { stage: CaptureStage::Release, hwnd, bounds, held, outcome: Some(result) },
            held.release_request(),
        )
    }
}

/// What one answer leads to.
///
/// While handles are given back, the first handle held is no longer held
/// after the answer, whatever the answer. Else, an answer that is accepted
/// moves the capture to the next call, and the accepted pixels settle the
/// result as a screenshot; an answer that is not accepted settles the result
/// as the refusal of the awaited call.
pub open spec fn capture_step(state: CaptureState, reply: CaptureReply) -> CaptureStep {
    if state.stage == CaptureStage::Release {
        settled(state.hwnd, state.bounds, state.held.without_first(), state.outcome->Some_0)
    } else if !accepted(state, reply) {
        settled(state.hwnd, state.bounds, state.held, refusal(state.stage))
    } else if state.stage == CaptureStage::Pixels {
        settled(
            state.hwnd,
            state.bounds,
            state.held,
            Ok(Some(captured(state.bounds, reply->Pixels_data))),
        )
    } else {
        CaptureStep::Next(advanced(state, reply), advanced(state, reply).request())
    }
}

/// The handles held, each as often as it is held.
pub open spec fn held_handles(held: Held) -> Multiset<isize> {
    handle_if(held.screen_dc != NULL_HANDLE, held.screen_dc).add(
        handle_if(held.bitmap != NULL_HANDLE, held.bitmap),
    ).add(handle_if(held.memory_dc != NULL_HANDLE, held.memory_dc))
}

/// The one handle, if the condition holds; else none.
pub open spec fn handle_if(condition: bool, handle: isize) -> Multiset<isize> {
    if condition {
        Multiset::singleton(handle)
    } else {
        Multiset::empty()
    }
}

/// The handle that the answer hands over: that of an accepted answer to a
/// call that obtains one.
pub open spec fn obtained_by(state: CaptureState, reply: CaptureReply) -> Multiset<isize> {
    handle_if(state.request().acquires() && accepted(state, reply), reply->Handle_0)
}

/// The handle that the awaited call gives back.
pub open spec fn given_back_by(state: CaptureState) -> Multiset<isize> {
    handle_if(state.request().released() is Some, state.request().released()->Some_0)
}

/// The handles that the answers hand over, one after the other, from
/// `state` on.
pub open spec fn obtained(state: CaptureState, replies: Seq<CaptureReply>) -> Multiset<isize>
    decreases replies.len(),
{
    if replies.len() == 0 {
        Multiset::empty()
    } else {
        match capture_step(state, replies[0]) {
            CaptureStep::Next(next, _) => obtained_by(state, replies[0]).add(
                obtained(next, replies.drop_first()),
            ),
            CaptureStep::Done(_) => obtained_by(state, replies[0]),
        }
    }
}

/// The handles that the calls answered give back, from `state` on.
pub open spec fn given_back(state: CaptureState, replies: Seq<CaptureReply>) -> Multiset<isize>
    decreases replies.len(),
{
    if replies.len() == 0 {
        Multiset::empty()
    } else {
        match capture_step(state, replies[0]) {
            CaptureStep::Next(next, _) => given_back_by(state).add(
                given_back(next, replies.drop_first()),
            ),
            CaptureStep::Done(_) => given_back_by(state),
        }
    }
}

/// The result that the answers lead to from `state` on, if they lead to
/// one.
pub open spec fn outcome(state: CaptureState, replies: Seq<CaptureReply>) -> Option<CaptureResult>
    decreases replies.len(),
{
    if replies.len() == 0 {
        None
    } else {
        match capture_step(state, replies[0]) {
            CaptureStep::Next(next, _) => outcome(next, replies.drop_first()),
            CaptureStep::Done(result) => Some(result),
        }
    }
}

/// The state after an answer, well formed and closer to the end.
pub proof fn lemma_step_well_formed(state: CaptureState, reply: CaptureReply)
    requires
        state.well_formed(),
    ensures
        capture_step(state, reply) matches CaptureStep::Next(next, request) ==> next.well_formed()
            && request == next.request() && next.remaining() < state.remaining(),
        capture_step(state, reply) matches CaptureStep::Done(result) ==> result_well_formed(result),
{
}

/// A window that is not in the foreground is not captured: when the answer
/// to the first call is anything but the window to capture, the capture is
/// done with no screenshot and no error. The one call that was made obtains
/// no handle, so none is left to give back.
pub proof fn lemma_foreground_guard(hwnd: isize, reply: CaptureReply)
    requires
        !(reply matches CaptureReply::Handle(window) && window == hwnd),
    ensures
        CaptureState::initial(hwnd).request() == CaptureRequest::GetForegroundWindow,
        !CaptureState::initial(hwnd).request().acquires(),
        capture_step(CaptureState::initial(hwnd), reply) == CaptureStep::Done(Ok(None)),
        outcome(CaptureState::initial(hwnd), seq![reply]) == Some(refusal(CaptureStage::Foreground)),
        obtained(CaptureState::initial(hwnd), seq![reply]) =~= Multiset::empty(),
        given_back(CaptureState::initial(hwnd), seq![reply]) =~= Multiset::empty(),
{
    let start = CaptureState::initial(hwnd);
    let replies = seq![reply];
    assert(replies[0] == reply);
    assert(capture_step(start, replies[0]) == CaptureStep::Done(Ok(None)));
}

/// No call works on a handle that is not held: every device context and
/// every object that the awaited call names was obtained and is not yet
/// given back.
pub proof fn lemma_calls_use_what_is_held(state: CaptureState)
    requires
        state.well_formed(),
    ensures
        forall|handle: isize| #[trigger]
            state.request().handles().contains(handle) ==> handle != NULL_HANDLE
                && held_handles(state.held).count(handle) > 0,
{
}

/// One answer keeps the account of handles: what was held and what the
/// answer handed over is what the awaited call gave back and what is held
/// afterwards. When the capture is done, nothing is held.
pub proof fn lemma_step_balanced(state: CaptureState, reply: CaptureReply)
    requires
        state.well_formed(),
    ensures
        match capture_step(state, reply) {
            CaptureStep::Next(next, _) => held_handles(state.held).add(obtained_by(state, reply))
                =~= given_back_by(state).add(held_handles(next.held)),
            CaptureStep::Done(_) => held_handles(state.held).add(obtained_by(state, reply))
                =~= given_back_by(state),
        },
{
}

/// Every handle is given back exactly once: over a capture that is carried
/// to its end, the handles given back are the handles held at first and the
/// handles obtained on the way, each as often as it was held or obtained.
pub proof fn lemma_run_balanced(state: CaptureState, replies: Seq<CaptureReply>)
    requires
        state.well_formed(),
        outcome(state, replies) is Some,
    ensures
        given_back(state, replies) =~= held_handles(state.held).add(obtained(state, replies)),
    decreases replies.len(),
{
    lemma_step_balanced(state, replies[0]);
    lemma_step_well_formed(state, replies[0]);
    match capture_step(state, replies[0]) {
        CaptureStep::Next(next, _) => {
            lemma_run_balanced(next, replies.drop_first());
        },
        CaptureStep::Done(_) => {},
    }
}

/// A capture from its beginning gives back exactly what it obtains, whatever
/// the answers and however it ends.
pub proof fn lemma_capture_balanced(hwnd: isize, replies: Seq<CaptureReply>)
    requires
        outcome(CaptureState::initial(hwnd), replies) is Some,
    ensures
        given_back(CaptureState::initial(hwnd), replies) =~= obtained(
            CaptureState::initial(hwnd),
            replies,
        ),
{
    lemma_run_balanced(CaptureState::initial(hwnd), replies);
}

/// A capture ends: as many answers as the state has calls remaining lead to
/// a result, and that result holds no screenshot that is not well formed.
pub proof fn lemma_run_completes(state: CaptureState, replies: Seq<CaptureReply>)
    requires
        state.well_formed(),
        replies.len() >= state.remaining(),
    ensures
        outcome(state, replies) is Some,
        result_well_formed(outcome(state, replies)->Some_0),
    decreases replies.len(),
{
    lemma_step_well_formed(state, replies[0]);
    match capture_step(state, replies[0]) {
        CaptureStep::Next(next, _) => {
            lemma_run_completes(next, replies.drop_first());
        },
        CaptureStep::Done(_) => {},
    }
}

/// The calls named in answer to the replies, one after the other, from
/// `state` on.
pub open spec fn requests(state: CaptureState, replies: Seq<CaptureReply>) -> Seq<CaptureRequest>
    decreases replies.len(),
{
    if replies.len() == 0 {
        Seq::empty()
    } else {
        match capture_step(state, replies[0]) {
            CaptureStep::Next(next, request) => seq![request] + requests(
                next,
                replies.drop_first(),
            ),
            CaptureStep::Done(_) => Seq::empty(),
        }
    }
}

/// While handles are given back the result stands: whatever the calls that
/// give them back answer, the capture ends with the result that was settled.
pub proof fn lemma_release_keeps_result(state: CaptureState, replies: Seq<CaptureReply>)
    requires
        state.well_formed(),
        state.stage == CaptureStage::Release,
        replies.len() >= state.held.count(),
    ensures
        outcome(state, replies) == state.outcome,
    decreases replies.len(),
{
    match capture_step(state, replies[0]) {
        CaptureStep::Next(next, _) => {
            lemma_release_keeps_result(next, replies.drop_first());
        },
        CaptureStep::Done(_) => {},
    }
}

/// An answer that is not accepted ends the capture with the refusal of the
/// awaited call, once what is held was given back: no screenshot is handed
/// out for a capture in which a call failed.
pub proof fn lemma_refusal_ends_capture(
    state: CaptureState,
    reply: CaptureReply,
    rest: Seq<CaptureReply>,
)
    requires
        state.well_formed(),
        state.stage != CaptureStage::Release,
        !accepted(state, reply),
        rest.len() >= state.held.count(),
    ensures
        outcome(state, seq![reply] + rest) == Some(refusal(state.stage)),
{
    let replies = seq![reply] + rest;
    assert(replies[0] == reply);
    assert(replies.drop_first() =~= rest);
    match capture_step(state, reply) {
        CaptureStep::Next(next, _) => {
            lemma_release_keeps_result(next, rest);
        },
        CaptureStep::Done(_) => {},
    }
}

/// The pixels that are accepted end the capture with the screenshot they
/// make, once what is held was given back.
pub proof fn lemma_pixels_end_capture(
    state: CaptureState,
    reply: CaptureReply,
    rest: Seq<CaptureReply>,
)
    requires
        state.well_formed(),
        state.stage == CaptureStage::Pixels,
        accepted(state, reply),
        rest.len() >= 3,
    ensures
        outcome(state, seq![reply] + rest) == Some(
            Ok::<_, CaptureError>(Some(captured(state.bounds, reply->Pixels_data))),
        ),
{
    let replies = seq![reply] + rest;
    assert(replies[0] == reply);
    assert(replies.drop_first() =~= rest);
    match capture_step(state, reply) {
        CaptureStep::Next(next, _) => {
            lemma_release_keeps_result(next, rest);
        },
        CaptureStep::Done(_) => {},
    }
}

/// The answers of a capture in which every call does its work.
pub open spec fn answers_of_success(
    hwnd: isize,
    rect: Region,
    screen_dc: isize,
    memory_dc: isize,
    bitmap: isize,
    previous: isize,
    data: Vec<u8>,
) -> Seq<CaptureReply> {
    seq![
        CaptureReply::Handle(hwnd),
        CaptureReply::Status(1),
        CaptureReply::Bounds { status: 0, rect },
        CaptureReply::Handle(screen_dc),
        CaptureReply::Handle(memory_dc),
        CaptureReply::Handle(bitmap),
        CaptureReply::Handle(previous),
        CaptureReply::Status(1),
        CaptureReply::Pixels { lines: 1, data },
        CaptureReply::Status(1),
        CaptureReply::Status(1),
        CaptureReply::Status(1),
    ]
}

/// The calls of a capture in which every call does its work, after the
/// first, which asks for the foreground window.
pub open spec fn calls_of_success(
    hwnd: isize,
    rect: Region,
    screen_dc: isize,
    memory_dc: isize,
    bitmap: isize,
) -> Seq<CaptureRequest> {
    let width = rect.spec_width() as i32;
    let height = rect.spec_height() as i32;
    seq![
        CaptureRequest::SetProcessDpiAwarenessContext {
            context: DPI_AWARENESS_CONTEXT_PER_MONITOR_AWARE_V2,
        },
        CaptureRequest::DwmGetWindowAttribute { hwnd, attribute: DWMWA_EXTENDED_FRAME_BOUNDS },
        CaptureRequest::GetDc { hwnd: NULL_HANDLE },
        CaptureRequest::CreateCompatibleDc { dc: screen_dc },
        CaptureRequest::CreateCompatibleBitmap { dc: screen_dc, width, height },
        CaptureRequest::SelectObject { dc: memory_dc, object: bitmap },
        CaptureRequest::BitBlt {
            dest: memory_dc,
            width,
            height,
            source: screen_dc,
            x: rect.left,
            y: rect.top,
            rop: SRCCOPY,
        },
        CaptureRequest::GetDiBits {
            dc: screen_dc,
            bitmap,
            start: 0,
            lines: height as u32,
            info: info_header_for(rect.spec_width(), rect.spec_height()),
            size: (rect.spec_width() * rect.spec_height() * 4) as u32,
            usage: DIB_RGB_COLORS,
        },
        CaptureRequest::DeleteDc { dc: screen_dc },
        CaptureRequest::DeleteObject { object: bitmap },
        CaptureRequest::DeleteDc { dc: memory_dc },
    ]
}

/// A capture in which every call does its work makes its calls in one
/// order: the process is declared aware of the resolution before the frame
/// bounds are measured, the pixels are copied from the corner of the frame
/// bounds and read out in the size of the frame bounds, and the three
/// handles obtained are given back. It ends with the screenshot that the
/// pixels make.
pub proof fn lemma_capture_succeeds(
    hwnd: isize,
    rect: Region,
    screen_dc: isize,
    memory_dc: isize,
    bitmap: isize,
    previous: isize,
    data: Vec<u8>,
)
    requires
        capturable(rect),
        screen_dc != NULL_HANDLE,
        memory_dc != NULL_HANDLE,
        bitmap != NULL_HANDLE,
        previous != NULL_HANDLE,
        previous != HGDI_ERROR,
        data@.len() == rect.spec_width() * rect.spec_height() * 4,
    ensures
        ({
            let start = CaptureState::initial(hwnd);
            let answers = answers_of_success(
                hwnd,
                rect,
                screen_dc,
                memory_dc,
                bitmap,
                previous,
                data,
            );
            &&& requests(start, answers) == calls_of_success(
                hwnd,
                rect,
                screen_dc,
                memory_dc,
                bitmap,
            )
            &&& outcome(start, answers) == Some(Ok::<_, CaptureError>(Some(captured(rect, data))))
        }),
{
    let s0 = CaptureState::initial(hwnd);
    let a0 = answers_of_success(hwnd, rect, screen_dc, memory_dc, bitmap, previous, data);
    let calls = calls_of_success(hwnd, rect, screen_dc, memory_dc, bitmap);
    let s1 = lemma_unfold(s0, a0);
    let a1 = a0.drop_first();
    let s2 = lemma_unfold(s1, a1);
    let a2 = a1.drop_first();
    let s3 = lemma_unfold(s2, a2);
    let a3 = a2.drop_first();
    let s4 = lemma_unfold(s3, a3);
    let a4 = a3.drop_first();
    let s5 = lemma_unfold(s4, a4);
    let a5 = a4.drop_first();
    let s6 = lemma_unfold(s5, a5);
    let a6 = a5.drop_first();
    let s7 = lemma_unfold(s6, a6);
    let a7 = a6.drop_first();
    let s8 = lemma_unfold(s7, a7);
    let a8 = a7.drop_first();
    let s9 = lemma_unfold(s8, a8);
    let a9 = a8.drop_first();
    let s10 = lemma_unfold(s9, a9);
    let a10 = a9.drop_first();
    let s11 = lemma_unfold(s10, a10);
    let a11 = a10.drop_first();
    assert(a11.len() == 1);
    assert(capture_step(s11, a11[0]) is Done);
    assert(a11.drop_first().len() == 0);
    assert(requests(s11, a11) =~= Seq::empty());
    assert(requests(s0, a0) =~= calls);
}

/// One answer of a run that goes on: the state it leads to, with the run
/// taken apart into the first call and the rest.
proof fn lemma_unfold(state: CaptureState, replies: Seq<CaptureReply>) -> (next: CaptureState)
    requires
        replies.len() > 0,
        capture_step(state, replies[0]) is Next,
    ensures
        capture_step(state, replies[0]) == CaptureStep::Next(next, next.request()),
        requests(state, replies) == seq![next.request()] + requests(next, replies.drop_first()),
        outcome(state, replies) == outcome(next, replies.drop_first()),
{
    capture_step(state, replies[0])->Next_0
}

/// Begins the capture of the window `hwnd`: nothing is held, and the first
/// call asks for the foreground window.
pub fn capture_screen_begin(hwnd: isize) -> (r: (CaptureState, CaptureRequest))
    ensures
        r.0 == CaptureState::initial(hwnd),
        r.1 == CaptureRequest::GetForegroundWindow,
        r.1 == r.0.request(),
        r.0.well_formed(),
{
    (
        CaptureState {
            stage: CaptureStage::Foreground,
            hwnd,
            bounds: Region { left: 0, right: 0, top: 0, bottom: 0 },
            held: Held { screen_dc: NULL_HANDLE, bitmap: NULL_HANDLE, memory_dc: NULL_HANDLE },
            outcome: None,
        },
        CaptureRequest::GetForegroundWindow,
    )
}

/// Whether `rect` can be captured.
pub fn is_capturable(rect: &Region) -> (b: bool)
    ensures
        b == capturable(*rect),
{
    rect.is_well_formed() && rect.is_measurable() && is_describable(rect.width(), rect.height())
}

/// Settles the result: done if nothing is held, else the first handle held
/// is to be given back.
fn settle(hwnd: isize, bounds: Region, held: Held, result: CaptureResult) -> (step: CaptureStep)
    ensures
        step == settled(hwnd, bounds, held, result),
{
    if held.screen_dc != NULL_HANDLE {
        CaptureStep::Next(
            CaptureState { stage: CaptureStage::Release, hwnd, bounds, held, outcome: Some(result) },
            CaptureRequest::DeleteDc { dc: held.screen_dc },
        )
    } else if held.bitmap != NULL_HANDLE {
        CaptureStep::Next(
            CaptureState { stage: CaptureStage::Release, hwnd, bounds, held, outcome: Some(result) },
            CaptureRequest::DeleteObject { object: held.bitmap },
        )
    } else if held.memory_dc != NULL_HANDLE {
        CaptureStep::Next(
            CaptureState { stage: CaptureStage::Release, hwnd, bounds, held, outcome: Some(result) },
            CaptureRequest::DeleteDc { dc: held.memory_dc },
        )
    } else {
        CaptureStep::Done(result)
    }
}

/// Takes the answer to the awaited call and names the next call, or hands
/// out the result.
///
/// The window is captured only while it is in the foreground: any other
/// answer to the first call ends the capture with no screenshot and no
/// error, before anything was obtained. A call that fails ends the capture
/// with the error that names it. Either way every handle obtained so far is
/// given back, one call each, before the result is handed out.
pub fn capture_screen(state: CaptureState, reply: CaptureReply) -> (step: CaptureStep)
    requires
        state.well_formed(),
    ensures
        step == capture_step(state, reply),
        step matches CaptureStep::Next(next, request) ==> next.well_formed() && request
            == next.request() && next.remaining() < state.remaining(),
        step matches CaptureStep::Done(result) ==> result_well_formed(result),
{
    let CaptureState { stage, hwnd, bounds, held, outcome } = state;
    match stage {
        CaptureStage::Foreground => {
            match reply {
                CaptureReply::Handle(window) if window == hwnd => CaptureStep::Next(
                    CaptureState { stage: CaptureStage::Awareness, hwnd, bounds, held, outcome },
                    CaptureRequest::SetProcessDpiAwarenessContext {
                        context: DPI_AWARENESS_CONTEXT_PER_MONITOR_AWARE_V2,
                    },
                ),
                _ => settle(hwnd, bounds, held, Ok(None)),
            }
        },
        CaptureStage::Awareness => CaptureStep::Next(
            CaptureState { stage: CaptureStage::Bounds, hwnd, bounds, held, outcome },
            CaptureRequest::DwmGetWindowAttribute { hwnd, attribute: DWMWA_EXTENDED_FRAME_BOUNDS },
        ),
        CaptureStage::Bounds => {
            match reply {
                CaptureReply::Bounds { status, rect } if status >= 0 && is_capturable(&rect) => {
                    CaptureStep::Next(
                        CaptureState { stage: CaptureStage::ScreenDc, hwnd, bounds: rect, held, outcome },
                        CaptureRequest::GetDc { hwnd: NULL_HANDLE },
                    )
                },
                _ => settle(hwnd, bounds, held, Err(CaptureError::FrameBounds)),
            }
        },
        CaptureStage::ScreenDc => {
            match reply {
                CaptureReply::Handle(dc) if dc != NULL_HANDLE => CaptureStep::Next(
                    CaptureState {
                        stage: CaptureStage::MemoryDc,
                        hwnd,
                        bounds,
                        held: Held { screen_dc: dc, bitmap: held.bitmap, memory_dc: held.memory_dc },
                        outcome,
                    },
                    CaptureRequest::CreateCompatibleDc { dc },
                ),
                _ => settle(hwnd, bounds, held, Err(CaptureError::GetDc)),
            }
        },
        CaptureStage::MemoryDc => {
            match reply {
                CaptureReply::Handle(dc) if dc != NULL_HANDLE => CaptureStep::Next(
                    CaptureState {
                        stage: CaptureStage::Bitmap,
                        hwnd,
                        bounds,
                        held: Held { screen_dc: held.screen_dc, bitmap: held.bitmap, memory_dc: dc },
                        outcome,
                    },
                    CaptureRequest::CreateCompatibleBitmap {
                        dc: held.screen_dc,
                        width: bounds.width(),
                        height: bounds.height(),
                    },
                ),
                _ => settle(hwnd, bounds, held, Err(CaptureError::CreateCompatibleDc)),
            }
        },
        CaptureStage::Bitmap => {
            match reply {
                CaptureReply::Handle(bitmap) if bitmap != NULL_HANDLE => CaptureStep::Next(
                    CaptureState {
                        stage: CaptureStage::Select,
                        hwnd,
                        bounds,
                        held: Held { screen_dc: held.screen_dc, bitmap, memory_dc: held.memory_dc },
                        outcome,
                    },
                    CaptureRequest::SelectObject { dc: held.memory_dc, object: bitmap },
                ),
                _ => settle(hwnd, bounds, held, Err(CaptureError::CreateCompatibleBitmap)),
            }
        },
        CaptureStage::Select => {
            match reply {
                CaptureReply::Handle(previous) if previous != NULL_HANDLE && previous
                    != HGDI_ERROR => CaptureStep::Next(
                    CaptureState { stage: CaptureStage::Blit, hwnd, bounds, held, outcome },
                    CaptureRequest::BitBlt {
                        dest: held.memory_dc,
                        width: bounds.width(),
                        height: bounds.height(),
                        source: held.screen_dc,
                        x: bounds.left,
                        y: bounds.top,
                        rop: SRCCOPY,
                    },
                ),
                _ => settle(hwnd, bounds, held, Err(CaptureError::SelectObject)),
            }
        },
        CaptureStage::Blit => {
            match reply {
                CaptureReply::Status(status) if status != 0 => {
                    let width: i32 = bounds.width();
                    let height: i32 = bounds.height();
                    let (_, info) = headers_for(width, height);
                    CaptureStep::Next(
                        CaptureState { stage: CaptureStage::Pixels, hwnd, bounds, held, outcome },
                        CaptureRequest::GetDiBits {
                            dc: held.screen_dc,
                            bitmap: held.bitmap,
                            start: 0,
                            lines: height as u32,
                            info,
                            size: pixel_bytes(width, height),
                            usage: DIB_RGB_COLORS,
                        },
                    )
                },
                _ => settle(hwnd, bounds, held, Err(CaptureError::BitBlt)),
            }
        },
        CaptureStage::Pixels => {
            let width: i32 = bounds.width();
            let height: i32 = bounds.height();
            let size: u32 = pixel_bytes(width, height);
            match reply {
                CaptureReply::Pixels { lines, data } if lines != 0 && data.len() == size as usize => {
                    let (file_header, info_header) = headers_for(width, height);
                    settle(
                        hwnd,
                        bounds,
                        held,
                        Ok(Some(Screenshot { file_header, info_header, pixels: data })),
                    )
                },
                _ => settle(hwnd, bounds, held, Err(CaptureError::GetDiBits)),
            }
        },
        CaptureStage::Release => {
            let rest = if held.screen_dc != NULL_HANDLE {
                Held { screen_dc: NULL_HANDLE, bitmap: held.bitmap, memory_dc: held.memory_dc }
            } else if held.bitmap != NULL_HANDLE {
                Held { screen_dc: held.screen_dc, bitmap: NULL_HANDLE, memory_dc: held.memory_dc }
            } else {
                Held { screen_dc: held.screen_dc, bitmap: held.bitmap, memory_dc: NULL_HANDLE }
            };
            match outcome {
                Some(result) => settle(hwnd, bounds, rest, result),
                None => vstd::pervasive::unreached(),
            }
        },
    }
}

} // verus!
