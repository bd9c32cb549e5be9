//! From a window to the text in it: capture, encode, read as an image,
//! recognize.
//!
//! The whole is a protocol again. Its calls are the capture of the window,
//! which is the protocol of [`crate::screen`]; the reading of an encoded
//! bitmap as an image; the recognition of the image, which is the protocol of
//! [`crate::recognizer`]; and the destruction of the image. [`capture_begin`]
//! names the first call, [`capture`] takes each answer and names the next
//! call, until it hands out the text, or nothing where the window is not in
//! the foreground.

use crate::bitmap::{combine_bmp, decoded, lemma_decode_encoded, Screenshot};
use crate::recognizer::{region_valid, OcrError, OcrResult};
use crate::region::Region;
use crate::screen::{handle_if, CaptureError, CaptureResult};
use vstd::multiset::Multiset;
use vstd::prelude::*;

verus! {

/// The handle that names no image.
pub const NULL_HANDLE: isize = 0;

/// Why no text could be read off the window.
#[derive(Clone, Copy, Debug, PartialEq, Eq, Structural)]
pub enum PipelineError {
    /// The window could not be captured.
    Capture(CaptureError),
    /// The capture could not be recognized.
    Recognition(OcrError),
}

/// What reading a window comes to: the text, nothing because the window is
/// not in the foreground, or an error.
pub type Recognized = Result<Option<String>, PipelineError>;

/// What reading a window comes to, the text as the characters it holds.
pub type RecognizedText = Result<Option<Seq<char>>, PipelineError>;

/// The call whose answer is awaited.
#[derive(Clone, Copy, Debug, PartialEq, Eq, Structural)]
pub enum PipelineStage {
    Screen,
    Image,
    Text,
    Release,
}

/// A call for the caller to make.
#[derive(Debug)]
pub enum PipelineRequest {
    /// Capture the window `hwnd`.
    CaptureScreen { hwnd: isize },
    /// Read the encoded bitmap `bytes` as an image.
    ReadImage { bytes: Vec<u8> },
    /// Recognize the text of `image`, of the whole of it or of `region`.
    Recognize { image: isize, region: Option<Region> },
    /// Destroy `image`.
    DestroyImage { image: isize },
}

/// What a call answered.
#[derive(Debug)]
pub enum PipelineReply {
    /// The call returns nothing.
    Nothing,
    /// What the capture came to.
    Captured(CaptureResult),
    /// The handle of the image read.
    Image(isize),
    /// What the recognition came to.
    Text(OcrResult),
}

/// The reading of a window under way.
#[derive(Debug)]
pub struct PipelineState {
    /// The call whose answer is awaited.
    pub stage: PipelineStage,
    /// The window to read.
    pub hwnd: isize,
    /// The part of the window to read, where it is not the whole.
    pub region: Option<Region>,
    /// The image, once read.
    pub image: isize,
    /// The result, once it is settled and while the image is destroyed.
    pub outcome: Option<Recognized>,
}

/// What one answer leads to: the next call, or the result.
#[derive(Debug)]
pub enum PipelineStep {
    Next(PipelineState, PipelineRequest),
    Done(Recognized),
}

/// The reading of a window under way, the text in it as the characters it
/// holds.
pub struct PipelineModel {
    pub stage: PipelineStage,
    pub hwnd: isize,
    pub region: Option<Region>,
    pub image: isize,
    pub outcome: Option<RecognizedText>,
}

/// A call, the bitmap in it as the bytes it holds.
pub enum RequestModel {
    CaptureScreen { hwnd: isize },
    ReadImage { bytes: Seq<u8> },
    Recognize { image: isize, region: Option<Region> },
    DestroyImage { image: isize },
}

/// What one answer leads to, text and bitmap as what they hold.
pub enum StepModel {
    Next(PipelineModel, RequestModel),
    Done(RecognizedText),
}

/// The result with its text as the characters it holds.
pub open spec fn recognized_view(result: Recognized) -> RecognizedText {
    match result {
        Ok(Some(text)) => Ok(Some(text@)),
        Ok(None) => Ok(None),
        Err(error) => Err(error),
    }
}

impl View for PipelineState {
    type V = PipelineModel;

    open spec fn view(&self) -> PipelineModel {
        PipelineModel {
            stage: self.stage,
            hwnd: self.hwnd,
            region: self.region,
            image: self.image,
            outcome: match self.outcome {
                Some(result) => Some(recognized_view(result)),
                None => None,
            },
        }
    }
}

impl View for PipelineRequest {
    type V = RequestModel;

    open spec fn view(&self) -> RequestModel {
        match *self {
            PipelineRequest::CaptureScreen { hwnd } => RequestModel::CaptureScreen { hwnd },
            PipelineRequest::ReadImage { bytes } => RequestModel::ReadImage { bytes: bytes@ },
            PipelineRequest::Recognize { image, region } => RequestModel::Recognize {
                image,
                region,
            },
            PipelineRequest::DestroyImage { image } => RequestModel::DestroyImage { image },
        }
    }
}

impl View for PipelineStep {
    type V = StepModel;

    open spec fn view(&self) -> StepModel {
        match *self {
            PipelineStep::Next(state, request) => StepModel::Next(state@, request@),
            PipelineStep::Done(result) => StepModel::Done(recognized_view(result)),
        }
    }
}

impl PipelineModel {
    /// The reading of the window `hwnd`, of the whole of it or of `region`,
    /// before any call was answered.
    pub open spec fn initial(hwnd: isize, region: Option<Region>) -> PipelineModel {
        PipelineModel {
            stage: PipelineStage::Screen,
            hwnd,
            region,
            image: NULL_HANDLE,
            outcome: None,
        }
    }

    /// The state is one that a reading can be in: the region can be handed
    /// to the engine, there is an image once it was read, and a result is
    /// settled exactly while the image is destroyed.
    pub open spec fn well_formed(&self) -> bool {
        &&& region_valid(self.region)
        &&& match self.stage {
            PipelineStage::Screen | PipelineStage::Image => self.image == NULL_HANDLE
                && self.outcome is None,
            PipelineStage::Text => self.image != NULL_HANDLE && self.outcome is None,
            PipelineStage::Release => self.image != NULL_HANDLE && self.outcome is Some,
        }
    }

    /// The most answers that the reading still needs before it is done.
    pub open spec fn remaining(&self) -> nat {
        match self.stage {
            PipelineStage::Screen => 4,
            PipelineStage::Image => 3,
            PipelineStage::Text => 2,
            PipelineStage::Release => 1,
        }
    }
}

/// What the recognition's answer settles: the text, the error of the
/// recognition, or, where no answer of a recognition came, the error of a
/// text that was not handed out.
pub open spec fn text_result(reply: PipelineReply) -> RecognizedText {
    match reply {
        PipelineReply::Text(Ok(text)) => Ok(Some(text@)),
        PipelineReply::Text(Err(error)) => Err(PipelineError::Recognition(error)),
        _ => Err(PipelineError::Recognition(OcrError::GetUtf8Text)),
    }
}

/// What one answer leads to.
///
/// A capture that came to a screenshot leads to the reading of its bitmap
/// layout as an image; one that came to nothing, as does any answer that is
/// not of a capture, ends the reading with nothing, and one that failed ends
/// it with that error. An image that was
/// read leads to its recognition; a handle that names no image ends the
/// reading with the error of an invalid image. What the recognition came to
/// is the result, handed out once the image is destroyed.
pub open spec fn pipeline_step(state: PipelineModel, reply: PipelineReply) -> StepModel {
    match state.stage {
        PipelineStage::Screen => match reply {
            PipelineReply::Captured(Ok(Some(shot))) => StepModel::Next(
                PipelineModel { stage: PipelineStage::Image, ..state },
                RequestModel::ReadImage { bytes: shot.bytes() },
            ),
            PipelineReply::Captured(Err(error)) => StepModel::Done(
                Err(PipelineError::Capture(error)),
            ),
            _ => StepModel::Done(Ok(None)),
        },
        PipelineStage::Image => match reply {
            PipelineReply::Image(image) if image != NULL_HANDLE => StepModel::Next(
                PipelineModel { stage: PipelineStage::Text, image, ..state },
                RequestModel::Recognize { image, region: state.region },
            ),
            _ => StepModel::Done(Err(PipelineError::Recognition(OcrError::InvalidImage))),
        },
        PipelineStage::Text => StepModel::Next(
            PipelineModel {
                stage: PipelineStage::Release,
                outcome: Some(text_result(reply)),
                ..state
            },
            RequestModel::DestroyImage { image: state.image },
        ),
        PipelineStage::Release => StepModel::Done(state.outcome->Some_0),
    }
}

/// The image that the answer hands over.
pub open spec fn image_read_by(state: PipelineModel, reply: PipelineReply) -> Multiset<isize> {
    handle_if(
        state.stage == PipelineStage::Image && reply is Image && reply->Image_0 != NULL_HANDLE,
        reply->Image_0,
    )
}

/// The image that the awaited call destroys.
pub open spec fn image_destroyed_by(state: PipelineModel) -> Multiset<isize> {
    handle_if(state.stage == PipelineStage::Release, state.image)
}

/// The images that the answers hand over, from `state` on.
pub open spec fn images_read(state: PipelineModel, replies: Seq<PipelineReply>) -> Multiset<isize>
    decreases replies.len(),
{
    if replies.len() == 0 {
        Multiset::empty()
    } else {
        match pipeline_step(state, replies[0]) {
            StepModel::Next(next, _) => image_read_by(state, replies[0]).add(
                images_read(next, replies.drop_first()),
            ),
            StepModel::Done(_) => image_read_by(state, replies[0]),
        }
    }
}

/// The images that the calls answered destroy, from `state` on.
pub open spec fn images_destroyed(state: PipelineModel, replies: Seq<PipelineReply>) -> Multiset<
    isize,
>
    decreases replies.len(),
{
    if replies.len() == 0 {
        Multiset::empty()
    } else {
        match pipeline_step(state, replies[0]) {
            StepModel::Next(next, _) => image_destroyed_by(state).add(
                images_destroyed(next, replies.drop_first()),
            ),
            StepModel::Done(_) => image_destroyed_by(state),
        }
    }
}

/// The result that the answers lead to from `state` on, if they lead to
/// one.
pub open spec fn outcome(state: PipelineModel, replies: Seq<PipelineReply>) -> Option<
    RecognizedText,
>
    decreases replies.len(),
{
    if replies.len() == 0 {
        None
    } else {
        match pipeline_step(state, replies[0]) {
            StepModel::Next(next, _) => outcome(next, replies.drop_first()),
            StepModel::Done(result) => Some(result),
        }
    }
}

/// The state after an answer, well formed and closer to the end.
pub proof fn lemma_step_well_formed(state: PipelineModel, reply: PipelineReply)
    requires
        state.well_formed(),
    ensures
        pipeline_step(state, reply) matches StepModel::Next(next, _) ==> next.well_formed()
            && next.remaining() < state.remaining(),
{
}

/// A window that is not in the foreground yields no result and no error:
/// when the capture comes to nothing, the reading is done with nothing, and
/// no image was read.
pub proof fn lemma_not_foreground(hwnd: isize, region: Option<Region>)
    ensures
        pipeline_step(PipelineModel::initial(hwnd, region), PipelineReply::Captured(Ok(None)))
            == StepModel::Done(Ok(None)),
{
}

/// The image that is read from the bitmap layout of a screenshot holds what
/// the screenshot holds: the bytes handed to the reader decode to the
/// headers and the pixels that were captured.
pub proof fn lemma_image_is_the_capture(hwnd: isize, region: Option<Region>, shot: Screenshot)
    ensures
        pipeline_step(
            PipelineModel::initial(hwnd, region),
            PipelineReply::Captured(Ok(Some(shot))),
        ) matches StepModel::Next(_, RequestModel::ReadImage { bytes }) && decoded(bytes) == Some(
            (shot.file_header, shot.info_header, shot.pixels@),
        ),
{
    lemma_decode_encoded(shot.file_header, shot.info_header, shot.pixels@);
}

/// The image is destroyed exactly once: over a reading that is carried to
/// its end, the images destroyed are the image held at first and the images
/// read on the way.
pub proof fn lemma_run_balanced(state: PipelineModel, replies: Seq<PipelineReply>)
    requires
        state.well_formed(),
        outcome(state, replies) is Some,
    ensures
        images_destroyed(state, replies) =~= handle_if(state.image != NULL_HANDLE, state.image).add(
            images_read(state, replies),
        ),
    decreases replies.len(),
{
    lemma_step_well_formed(state, replies[0]);
    match pipeline_step(state, replies[0]) {
        StepModel::Next(next, _) => {
            lemma_run_balanced(next, replies.drop_first());
        },
        StepModel::Done(_) => {},
    }
}

/// A reading ends: as many answers as the state has calls remaining lead to
/// a result.
pub proof fn lemma_run_completes(state: PipelineModel, replies: Seq<PipelineReply>)
    requires
        state.well_formed(),
        replies.len() >= state.remaining(),
    ensures
        outcome(state, replies) is Some,
    decreases replies.len(),
{
    lemma_step_well_formed(state, replies[0]);
    match pipeline_step(state, replies[0]) {
        StepModel::Next(next, _) => {
            lemma_run_completes(next, replies.drop_first());
        },
        StepModel::Done(_) => {},
    }
}

/// A reading in which every call does its work hands out the text that the
/// recognition came to.
pub proof fn lemma_reading_succeeds(
    hwnd: isize,
    region: Option<Region>,
    shot: Screenshot,
    image: isize,
    text: String,
)
    requires
        image != NULL_HANDLE,
    ensures
        outcome(
            PipelineModel::initial(hwnd, region),
            seq![
                PipelineReply::Captured(Ok(Some(shot))),
                PipelineReply::Image(image),
                PipelineReply::Text(Ok(text)),
                PipelineReply::Nothing,
            ],
        ) == Some(Ok::<_, PipelineError>(Some(text@))),
{
    reveal_with_fuel(outcome, 5);
    let replies = seq![
        PipelineReply::Captured(Ok(Some(shot))),
        PipelineReply::Image(image),
        PipelineReply::Text(Ok(text)),
        PipelineReply::Nothing,
    ];
    let r1 = replies.drop_first();
    let r2 = r1.drop_first();
    let r3 = r2.drop_first();
    assert(r1[0] == replies[1]);
    assert(r2[0] == replies[2]);
    assert(r3[0] == replies[3]);
}

/// Begins the reading of the window `hwnd`, of the whole of it or of
/// `region`: the first call captures the window.
pub fn capture_begin(hwnd: isize, region: Option<Region>) -> (r: (PipelineState, PipelineRequest))
    requires
        region_valid(region),
    ensures
        r.0@ == PipelineModel::initial(hwnd, region),
        r.1@ == (RequestModel::CaptureScreen { hwnd }),
        r.0@.well_formed(),
{
    (
        PipelineState {
            stage: PipelineStage::Screen,
            hwnd,
            region,
            image: NULL_HANDLE,
            outcome: None,
        },
        PipelineRequest::CaptureScreen { hwnd },
    )
}

/// The screenshot in the bitmap layout.
pub fn encode(shot: &Screenshot) -> (bytes: Vec<u8>)
    ensures
        bytes@ == shot.bytes(),
{
    let mut buf: Vec<u8> = Vec::new();
    combine_bmp(&mut buf, &shot.file_header, &shot.info_header, &shot.pixels);
    assert(buf@ =~= shot.bytes());
    buf
}

/// Takes the answer to the awaited call and names the next call, or hands
/// out the result.
///
/// A window that is not in the foreground yields nothing: no text and no
/// error. An error of the capture or of the recognition ends the reading
/// with that error. An image that was read is destroyed before the result
/// is handed out.
pub fn capture(state: PipelineState, reply: PipelineReply) -> (step: PipelineStep)
    requires
        state@.well_formed(),
    ensures
        step@ == pipeline_step(state@, reply),
        step matches PipelineStep::Next(next, _) ==> next@.well_formed() && next@.remaining()
            < state@.remaining(),
{
    let PipelineState { stage, hwnd, region, image, outcome } = state;
    match stage {
        PipelineStage::Screen => {
            match reply {
                PipelineReply::Captured(Ok(Some(shot))) => {
                    let bytes = encode(&shot);
                    PipelineStep::Next(
                        PipelineState { stage: PipelineStage::Image, hwnd, region, image, outcome },
                        PipelineRequest::ReadImage { bytes },
                    )
                },
                PipelineReply::Captured(Err(error)) => PipelineStep::Done(
                    Err(PipelineError::Capture(error)),
                ),
                _ => PipelineStep::Done(Ok(None)),
            }
        },
        PipelineStage::Image => {
            match reply {
                PipelineReply::Image(read) if read != NULL_HANDLE => PipelineStep::Next(
                    PipelineState { stage: PipelineStage::Text, hwnd, region, image: read, outcome },
                    PipelineRequest::Recognize { image: read, region },
                ),
                _ => PipelineStep::Done(Err(PipelineError::Recognition(OcrError::InvalidImage))),
            }
        },
        PipelineStage::Text => {
            let result: Recognized = match reply {
                PipelineReply::Text(Ok(text)) => Ok(Some(text)),
                PipelineReply::Text(Err(error)) => Err(PipelineError::Recognition(error)),
                _ => Err(PipelineError::Recognition(OcrError::GetUtf8Text)),
            };
            PipelineStep::Next(
                PipelineState {
                    stage: PipelineStage::Release,
                    hwnd,
                    region,
                    image,
                    outcome: Some(result),
                },
                PipelineRequest::DestroyImage { image },
            )
        },
        PipelineStage::Release => {
            match outcome {
                Some(result) => PipelineStep::Done(result),
                None => vstd::pervasive::unreached(),
            }
        },
    }
}

} // verus!
