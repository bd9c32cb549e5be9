//! Recognizing the text of an image, one engine call at a time.
//!
//! Like the capture of a window, recognition is a protocol with a caller that
//! can talk to the recognition engine. [`ocr_begin`] names the first call,
//! [`ocr`] takes each answer and names the next call, until it hands out the
//! text. An engine is created for the one recognition and deleted before the
//! text is handed out, whether recognition succeeded or not.
//!
//! The engine is initialized for one language before anything else is set;
//! it is then restricted to the characters of [`WHITELIST`] and told to read
//! the image as a single line; the image is loaded and, where a region is
//! given, the engine is restricted to that rectangle of it; the text is
//! recognized, read as UTF-8 and trimmed.

use crate::region::Region;
use crate::screen::handle_if;
use vstd::multiset::Multiset;
use vstd::prelude::*;
use vstd::utf8::{decode_utf8, valid_utf8};

verus! {

/// The language for which the engine is initialized.
pub const LANGUAGE: &'static str = "eng";

/// The name of the engine's variable that holds the admissible characters.
pub const WHITELIST_VARIABLE: &'static str = "tessedit_char_whitelist";

/// The characters that the engine may recognize: the printable characters of
/// ASCII, from the space to the tilde.
pub const WHITELIST: &'static str =
    " !#\"$%&'()*+,-./0123456789:;<=>?@ABCDEFGHIJKLMNOPQRSTUVWXYZ[\\]^_`abcdefghijklmnopqrstuvwxyz{|}~";

/// The handle that names no engine and no image.
pub const NULL_HANDLE: isize = 0;

/// The error type of `core::str::from_utf8`, carried through without a look
/// inside.
#[verifier::external_type_specification]
#[verifier::external_body]
pub struct ExUtf8Error(core::str::Utf8Error);

/// `core::str::from_utf8` succeeds exactly on the byte sequences that are
/// UTF-8, and the string slice it then returns holds the characters that the
/// bytes encode.
pub assume_specification[ core::str::from_utf8 ](v: &[u8]) -> (r: Result<
    &str,
    core::str::Utf8Error,
>)
    ensures
        r is Ok <==> valid_utf8(v@),
        r is Ok ==> r->Ok_0@ == decode_utf8(v@),
;

/// `str::trim` returns the string slice without its leading and trailing
/// white space, where white space is what Unicode's property `White_Space`
/// says.
pub assume_specification[ str::trim ](s: &str) -> (r: &str)
    ensures
        r@ == trimmed(s@),
;

/// The characters with Unicode's property `White_Space`.
pub open spec fn is_white_space(c: char) -> bool {
    ||| '\u{9}' <= c <= '\u{d}'
    ||| c == ' '
    ||| c == '\u{85}'
    ||| c == '\u{a0}'
    ||| c == '\u{1680}'
    ||| '\u{2000}' <= c <= '\u{200a}'
    ||| c == '\u{2028}'
    ||| c == '\u{2029}'
    ||| c == '\u{202f}'
    ||| c == '\u{205f}'
    ||| c == '\u{3000}'
}

/// The text without the white space it begins with.
pub open spec fn trim_start(text: Seq<char>) -> Seq<char>
    decreases text.len(),
{
    if text.len() > 0 && is_white_space(text.first()) {
        trim_start(text.drop_first())
    } else {
        text
    }
}

/// The text without the white space it ends with.
pub open spec fn trim_end(text: Seq<char>) -> Seq<char>
    decreases text.len(),
{
    if text.len() > 0 && is_white_space(text.last()) {
        trim_end(text.drop_last())
    } else {
        text
    }
}

/// The text without the white space it begins and ends with.
pub open spec fn trimmed(text: Seq<char>) -> Seq<char> {
    trim_end(trim_start(text))
}

/// The text that the engine's bytes hold: read as UTF-8, then trimmed.
pub open spec fn extracted(raw: Seq<u8>) -> Seq<char> {
    trimmed(decode_utf8(raw))
}

/// A printable character of ASCII.
pub open spec fn printable(c: char) -> bool {
    ' ' <= c <= '~'
}

/// The call that failed, for a recognition that could not be completed.
#[derive(Clone, Copy, Debug, PartialEq, Eq, Structural)]
pub enum OcrError {
    /// The image handle names no image.
    InvalidImage,
    /// No engine was created.
    Create,
    /// The engine was not initialized for the language.
    Init,
    /// The engine did not take the admissible characters.
    SetVariable,
    /// The engine did not recognize.
    Recognize,
    /// The engine handed out no text.
    GetUtf8Text,
}

/// What a recognition comes to: the text, or the call that failed.
pub type OcrResult = Result<String, OcrError>;

/// What a recognition comes to, the text as the characters it holds.
pub type TextResult = Result<Seq<char>, OcrError>;

/// How the engine is to take the image apart.
#[derive(Clone, Copy, Debug, PartialEq, Eq, Structural)]
pub enum PageSegMode {
    /// As a single line of text, without any analysis of the layout.
    RawLine,
}

/// The call whose answer the recognition waits for.
#[derive(Clone, Copy, Debug, PartialEq, Eq, Structural)]
pub enum OcrStage {
    Create,
    Init,
    Whitelist,
    SegMode,
    Image,
    Rectangle,
    Recognize,
    Text,
    Delete,
}

/// A call for the caller to make.
#[derive(Clone, Copy, Debug, PartialEq, Eq)]
pub enum OcrRequest {
    /// Create an engine.
    Create,
    /// Initialize `engine` for `language`, with the data at `datapath`, or
    /// at its default place where none is given.
    Init3 { engine: isize, datapath: Option<&'static str>, language: &'static str },
    /// Set the variable `name` of `engine` to `value`.
    SetVariable { engine: isize, name: &'static str, value: &'static str },
    /// Set how `engine` takes the image apart.
    SetPageSegMode { engine: isize, mode: PageSegMode },
    /// Hand `image` to `engine`.
    SetImage2 { engine: isize, image: isize },
    /// Restrict `engine` to the rectangle of the image that begins at
    /// `left`, `top` and is `width` by `height` pixels.
    SetRectangle { engine: isize, left: i32, top: i32, width: i32, height: i32 },
    /// Recognize the text of the image.
    Recognize { engine: isize },
    /// Read the text recognized, as bytes.
    GetUtf8Text { engine: isize },
    /// Delete `engine`.
    Delete { engine: isize },
}

impl OcrRequest {
    /// The engine that this call works on, if it works on one.
    pub open spec fn engine(&self) -> Option<isize> {
        match *self {
            OcrRequest::Create => None,
            OcrRequest::Init3 { engine, .. } => Some(engine),
            OcrRequest::SetVariable { engine, .. } => Some(engine),
            OcrRequest::SetPageSegMode { engine, .. } => Some(engine),
            OcrRequest::SetImage2 { engine, .. } => Some(engine),
            OcrRequest::SetRectangle { engine, .. } => Some(engine),
            OcrRequest::Recognize { engine } => Some(engine),
            OcrRequest::GetUtf8Text { engine } => Some(engine),
            OcrRequest::Delete { engine } => Some(engine),
        }
    }
}

/// What a call answered.
#[derive(Debug)]
pub enum OcrReply {
    /// The call returns nothing.
    Nothing,
    /// A handle of an engine.
    Handle(isize),
    /// A status: zero or not, as the call defines it.
    Status(i32),
    /// The bytes of the text, or none where the engine handed out no text.
    Text(Option<Vec<u8>>),
}

/// A recognition under way.
#[derive(Debug)]
pub struct OcrState {
    /// The call whose answer is awaited.
    pub stage: OcrStage,
    /// The engine, once created.
    pub engine: isize,
    /// The image to recognize.
    pub image: isize,
    /// The part of the image to recognize, where it is not the whole.
    pub region: Option<Region>,
    /// The result, once it is settled and while the engine is deleted.
    pub outcome: Option<OcrResult>,
}

/// What one answer leads to: the next call, or the result.
#[derive(Debug)]
pub enum OcrStep {
    Next(OcrState, OcrRequest),
    Done(OcrResult),
}

/// A recognition under way, the text in it as the characters it holds.
pub struct OcrModel {
    pub stage: OcrStage,
    pub engine: isize,
    pub image: isize,
    pub region: Option<Region>,
    pub outcome: Option<TextResult>,
}

/// What one answer leads to, the text in it as the characters it holds.
pub enum OcrStepModel {
    Next(OcrModel, OcrRequest),
    Done(TextResult),
}

/// The result with its text as the characters it holds.
pub open spec fn result_view(result: OcrResult) -> TextResult {
    match result {
        Ok(text) => Ok(text@),
        Err(error) => Err(error),
    }
}

impl View for OcrState {
    type V = OcrModel;

    open spec fn view(&self) -> OcrModel {
        OcrModel {
            stage: self.stage,
            engine: self.engine,
            image: self.image,
            region: self.region,
            outcome: match self.outcome {
                Some(result) => Some(result_view(result)),
                None => None,
            },
        }
    }
}

impl View for OcrStep {
    type V = OcrStepModel;

    open spec fn view(&self) -> OcrStepModel {
        match *self {
            OcrStep::Next(state, request) => OcrStepModel::Next(state@, request),
            OcrStep::Done(result) => OcrStepModel::Done(result_view(result)),
        }
    }
}

/// A region that the engine can be restricted to: its edges are in order
/// and its extents fit their type.
pub open spec fn region_valid(region: Option<Region>) -> bool {
    region matches Some(r) ==> r.well_formed() && r.measurable()
}

impl OcrError {
    /// The name of the call that failed, in a sentence.
    pub fn message(&self) -> (text: &'static str)
        ensures
            text@ == (match *self {
                OcrError::InvalidImage => "invalid image"@,
                OcrError::Create => "TessBaseAPICreate failed"@,
                OcrError::Init => "TessBaseAPIInit3 failed"@,
                OcrError::SetVariable => "TessBaseAPISetVariable failed"@,
                OcrError::Recognize => "TessBaseAPIRecognize failed"@,
                OcrError::GetUtf8Text => "TessBaseAPIGetUTF8Text failed"@,
            }),
    {
        match self {
            OcrError::InvalidImage => "invalid image",
            OcrError::Create => "TessBaseAPICreate failed",
            OcrError::Init => "TessBaseAPIInit3 failed",
            OcrError::SetVariable => "TessBaseAPISetVariable failed",
            OcrError::Recognize => "TessBaseAPIRecognize failed",
            OcrError::GetUtf8Text => "TessBaseAPIGetUTF8Text failed",
        }
    }
}

impl OcrModel {
    /// The recognition of `image`, or of `region` of it, before any call was
    /// answered.
    pub open spec fn initial(image: isize, region: Option<Region>) -> OcrModel {
        OcrModel { stage: OcrStage::Create, engine: NULL_HANDLE, image, region, outcome: None }
    }

    /// The state is one that a recognition can be in: there is an image, the
    /// region can be handed to the engine, there is an engine once it was
    /// created, and a result is settled exactly while the engine is deleted.
    pub open spec fn well_formed(&self) -> bool {
        &&& self.image != NULL_HANDLE
        &&& region_valid(self.region)
        &&& self.stage == OcrStage::Rectangle ==> self.region is Some
        &&& match self.stage {
            OcrStage::Create => self.engine == NULL_HANDLE && self.outcome is None,
            OcrStage::Delete => self.engine != NULL_HANDLE && self.outcome is Some,
            _ => self.engine != NULL_HANDLE && self.outcome is None,
        }
    }

    /// The most answers that the recognition still needs before it is done.
    pub open spec fn remaining(&self) -> nat {
        match self.stage {
            OcrStage::Create => 9,
            OcrStage::Init => 8,
            OcrStage::Whitelist => 7,
            OcrStage::SegMode => 6,
            OcrStage::Image => 5,
            OcrStage::Rectangle => 4,
            OcrStage::Recognize => 3,
            OcrStage::Text => 2,
            OcrStage::Delete => 1,
        }
    }

    /// The call whose answer the state waits for.
    pub open spec fn request(&self) -> OcrRequest {
        match self.stage {
            OcrStage::Create => OcrRequest::Create,
            OcrStage::Init => OcrRequest::Init3 {
                engine: self.engine,
                datapath: None,
                language: LANGUAGE,
            },
            OcrStage::Whitelist => OcrRequest::SetVariable {
                engine: self.engine,
                name: WHITELIST_VARIABLE,
                value: WHITELIST,
            },
            OcrStage::SegMode => OcrRequest::SetPageSegMode {
                engine: self.engine,
                mode: PageSegMode::RawLine,
            },
            OcrStage::Image => OcrRequest::SetImage2 { engine: self.engine, image: self.image },
            OcrStage::Rectangle => OcrRequest::SetRectangle {
                engine: self.engine,
                left: self.region->Some_0.left,
                top: self.region->Some_0.top,
                width: self.region->Some_0.spec_width() as i32,
                height: self.region->Some_0.spec_height() as i32,
            },
            OcrStage::Recognize => OcrRequest::Recognize { engine: self.engine },
            OcrStage::Text => OcrRequest::GetUtf8Text { engine: self.engine },
            OcrStage::Delete => OcrRequest::Delete { engine: self.engine },
        }
    }

    /// The stage that follows when the awaited call did its work. The
    /// rectangle is set only where a region is given.
    pub open spec fn following(&self) -> OcrStage {
        match self.stage {
            OcrStage::Create => OcrStage::Init,
            OcrStage::Init => OcrStage::Whitelist,
            OcrStage::Whitelist => OcrStage::SegMode,
            OcrStage::SegMode => OcrStage::Image,
            OcrStage::Image => if self.region is Some {
                OcrStage::Rectangle
            } else {
                OcrStage::Recognize
            },
            OcrStage::Rectangle => OcrStage::Recognize,
            OcrStage::Recognize => OcrStage::Text,
            _ => OcrStage::Delete,
        }
    }
}

/// The answer says that the awaited call did its work. An answer of
/// another kind than the call gives says that it did not. The calls that
/// return nothing are taken to have done it.
pub open spec fn accepted(state: OcrModel, reply: OcrReply) -> bool {
    match state.stage {
        OcrStage::Create => reply matches OcrReply::Handle(engine) && engine != NULL_HANDLE,
        OcrStage::Init | OcrStage::Recognize => reply matches OcrReply::Status(status) && status
            == 0,
        OcrStage::Whitelist => reply matches OcrReply::Status(status) && status != 0,
        OcrStage::Text => reply matches OcrReply::Text(Some(_)),
        _ => true,
    }
}

/// The answer can be read: where the text is awaited and bytes are handed
/// out, the bytes are UTF-8.
pub open spec fn readable(state: OcrModel, reply: OcrReply) -> bool {
    state.stage == OcrStage::Text ==> (reply matches OcrReply::Text(Some(raw)) ==> valid_utf8(raw@))
}

/// The error that names the awaited call.
pub open spec fn refusal(stage: OcrStage) -> OcrError {
    match stage {
        OcrStage::Create => OcrError::Create,
        OcrStage::Init => OcrError::Init,
        OcrStage::Whitelist => OcrError::SetVariable,
        OcrStage::Recognize => OcrError::Recognize,
        _ => OcrError::GetUtf8Text,
    }
}

/// What one answer leads to.
///
/// Once the engine is deleted the recognition is done with the result that
/// was settled. An answer that is not accepted settles the result as the
/// error that names the awaited call: at once where no engine was created,
/// else after the engine is deleted. The text that is handed out settles the
/// result as that text, read as UTF-8 and trimmed. Any other answer that is
/// accepted moves the recognition to the next call.
pub open spec fn ocr_step(state: OcrModel, reply: OcrReply) -> OcrStepModel {
    if state.stage == OcrStage::Delete {
        OcrStepModel::Done(state.outcome->Some_0)
    } else if !accepted(state, reply) {
        if state.stage == OcrStage::Create {
            OcrStepModel::Done(Err(OcrError::Create))
        } else {
            deleting(state, Err(refusal(state.stage)))
        }
    } else if state.stage == OcrStage::Text {
        deleting(state, Ok(extracted(reply->Text_0->Some_0@)))
    } else if state.stage == OcrStage::Create {
        proceeding(OcrModel { stage: OcrStage::Init, engine: reply->Handle_0, ..state })
    } else {
        proceeding(OcrModel { stage: state.following(), ..state })
    }
}

/// The recognition goes on in `state`, with the call that `state` awaits.
pub open spec fn proceeding(state: OcrModel) -> OcrStepModel {
    OcrStepModel::Next(state, state.request())
}

/// The result is settled and the engine is to be deleted.
pub open spec fn deleting(state: OcrModel, result: TextResult) -> OcrStepModel {
    proceeding(OcrModel { stage: OcrStage::Delete, outcome: Some(result), ..state })
}

/// How the recognition of `image` begins: with the error of an invalid image
/// where the handle names none, before any call; else with the creation of
/// an engine.
pub open spec fn ocr_start(image: isize, region: Option<Region>) -> OcrStepModel {
    if image == NULL_HANDLE {
        OcrStepModel::Done(Err(OcrError::InvalidImage))
    } else {
        proceeding(OcrModel::initial(image, region))
    }
}

/// The engines that the answer hands over: that of a creation that did its
/// work.
pub open spec fn created_by(state: OcrModel, reply: OcrReply) -> Multiset<isize> {
    handle_if(state.stage == OcrStage::Create && accepted(state, reply), reply->Handle_0)
}

/// The engine that the awaited call deletes.
pub open spec fn deleted_by(state: OcrModel) -> Multiset<isize> {
    handle_if(state.stage == OcrStage::Delete, state.engine)
}

/// The engine that the state holds.
pub open spec fn held_engine(state: OcrModel) -> Multiset<isize> {
    handle_if(state.engine != NULL_HANDLE, state.engine)
}

/// The engines that the answers hand over, from `state` on.
pub open spec fn created(state: OcrModel, replies: Seq<OcrReply>) -> Multiset<isize>
    decreases replies.len(),
{
    if replies.len() == 0 {
        Multiset::empty()
    } else {
        match ocr_step(state, replies[0]) {
            OcrStepModel::Next(next, _) => created_by(state, replies[0]).add(
                created(next, replies.drop_first()),
            ),
            OcrStepModel::Done(_) => created_by(state, replies[0]),
        }
    }
}

/// The engines that the calls answered delete, from `state` on.
pub open spec fn deleted(state: OcrModel, replies: Seq<OcrReply>) -> Multiset<isize>
    decreases replies.len(),
{
    if replies.len() == 0 {
        Multiset::empty()
    } else {
        match ocr_step(state, replies[0]) {
            OcrStepModel::Next(next, _) => deleted_by(state).add(
                deleted(next, replies.drop_first()),
            ),
            OcrStepModel::Done(_) => deleted_by(state),
        }
    }
}

/// The calls named in answer to the replies, from `state` on.
pub open spec fn requests(state: OcrModel, replies: Seq<OcrReply>) -> Seq<OcrRequest>
    decreases replies.len(),
{
    if replies.len() == 0 {
        Seq::empty()
    } else {
        match ocr_step(state, replies[0]) {
            OcrStepModel::Next(next, request) => seq![request] + requests(
                next,
                replies.drop_first(),
            ),
            OcrStepModel::Done(_) => Seq::empty(),
        }
    }
}

/// The result that the answers lead to from `state` on, if they lead to
/// one.
pub open spec fn outcome(state: OcrModel, replies: Seq<OcrReply>) -> Option<TextResult>
    decreases replies.len(),
{
    if replies.len() == 0 {
        None
    } else {
        match ocr_step(state, replies[0]) {
            OcrStepModel::Next(next, _) => outcome(next, replies.drop_first()),
            OcrStepModel::Done(result) => Some(result),
        }
    }
}

/// The white space that the text begins with, counted.
pub open spec fn leading_white(text: Seq<char>) -> nat
    decreases text.len(),
{
    if text.len() > 0 && is_white_space(text.first()) {
        1 + leading_white(text.drop_first())
    } else {
        0
    }
}

/// The white space that the text ends with, counted.
pub open spec fn trailing_white(text: Seq<char>) -> nat
    decreases text.len(),
{
    if text.len() > 0 && is_white_space(text.last()) {
        1 + trailing_white(text.drop_last())
    } else {
        0
    }
}

/// Trimming at the start cuts off a run of white space, and all of it: what
/// is left does not begin with white space.
pub proof fn lemma_trim_start(text: Seq<char>)
    ensures
        leading_white(text) <= text.len(),
        trim_start(text) == text.subrange(leading_white(text) as int, text.len() as int),
        forall|i: int| 0 <= i < leading_white(text) ==> is_white_space(#[trigger] text[i]),
        leading_white(text) < text.len() ==> !is_white_space(text[leading_white(text) as int]),
    decreases text.len(),
{
    if text.len() > 0 && is_white_space(text.first()) {
        let rest = text.drop_first();
        lemma_trim_start(rest);
        let k = leading_white(rest) as int;
        assert(rest.subrange(k, rest.len() as int) =~= text.subrange(k + 1, text.len() as int));
        assert forall|i: int| 0 <= i < leading_white(text) implies is_white_space(
            #[trigger] text[i],
        ) by {
            if i > 0 {
                assert(text[i] == rest[i - 1]);
            }
        }
        if leading_white(text) < text.len() {
            assert(text[leading_white(text) as int] == rest[k]);
        }
    } else {
        assert(text.subrange(0, text.len() as int) =~= text);
    }
}

/// Trimming at the end cuts off a run of white space, and all of it: what is
/// left does not end with white space.
pub proof fn lemma_trim_end(text: Seq<char>)
    ensures
        trailing_white(text) <= text.len(),
        trim_end(text) == text.subrange(0, text.len() - trailing_white(text)),
        forall|i: int|
            text.len() - trailing_white(text) <= i < text.len() ==> is_white_space(
                #[trigger] text[i],
            ),
        trailing_white(text) < text.len() ==> !is_white_space(
            text[text.len() - trailing_white(text) - 1],
        ),
    decreases text.len(),
{
    if text.len() > 0 && is_white_space(text.last()) {
        let rest = text.drop_last();
        lemma_trim_end(rest);
        let k = trailing_white(rest) as int;
        assert(rest.subrange(0, rest.len() - k) =~= text.subrange(0, text.len() - k - 1));
        assert forall|i: int| text.len() - trailing_white(text) <= i < text.len() implies is_white_space(
            #[trigger] text[i],
        ) by {
            if i < text.len() - 1 {
                assert(text[i] == rest[i]);
            }
        }
        if trailing_white(text) < text.len() {
            assert(text[text.len() - trailing_white(text) - 1] == rest[rest.len() - k - 1]);
        }
    } else {
        assert(text.subrange(0, text.len() as int) =~= text);
    }
}

/// The trimmed text is a part of the text: nothing is added and nothing is
/// changed. What is cut off before it and after it is white space, and what
/// is left neither begins nor ends with white space.
pub proof fn lemma_trimmed_is_part(text: Seq<char>) -> (bounds: (int, int))
    ensures
        0 <= bounds.0 <= bounds.1 <= text.len(),
        trimmed(text) == text.subrange(bounds.0, bounds.1),
        forall|i: int| 0 <= i < bounds.0 ==> is_white_space(#[trigger] text[i]),
        forall|i: int| bounds.1 <= i < text.len() ==> is_white_space(#[trigger] text[i]),
        bounds.0 < bounds.1 ==> !is_white_space(text[bounds.0]) && !is_white_space(
            text[bounds.1 - 1],
        ),
{
    lemma_trim_start(text);
    let start = leading_white(text) as int;
    let middle = trim_start(text);
    lemma_trim_end(middle);
    let end = text.len() - trailing_white(middle);
    assert(middle.subrange(0, middle.len() - trailing_white(middle)) =~= text.subrange(start, end));
    assert forall|i: int| end <= i < text.len() implies is_white_space(#[trigger] text[i]) by {
        assert(text[i] == middle[i - start]);
    }
    if start < end {
        assert(middle[0] == text[start]);
        assert(middle[end - start - 1] == text[end - 1]);
    }
    (start, end)
}

/// Every character of the trimmed text is a character of the text.
pub proof fn lemma_trimmed_adds_nothing(text: Seq<char>)
    ensures
        forall|c: char| trimmed(text).contains(c) ==> text.contains(c),
{
    let bounds = lemma_trimmed_is_part(text);
    assert forall|c: char| trimmed(text).contains(c) implies text.contains(c) by {
        let i = choose|i: int| 0 <= i < trimmed(text).len() && trimmed(text)[i] == c;
        assert(text[bounds.0 + i] == c);
    }
}

/// The characters of the whitelist are the printable characters of ASCII,
/// all of them and no other.
pub proof fn lemma_whitelist_is_printable_ascii()
    ensures
        WHITELIST@.len() == 95,
        forall|c: char| WHITELIST@.contains(c) <==> printable(c),
{
    reveal_strlit(
        " !#\"$%&'()*+,-./0123456789:;<=>?@ABCDEFGHIJKLMNOPQRSTUVWXYZ[\\]^_`abcdefghijklmnopqrstuvwxyz{|}~",
    );
    assert(WHITELIST@.len() == 95);
    assert(forall|i: int| 0 <= i < 95 ==> whitelist_place(#[trigger] WHITELIST@[i]) == i);
    assert forall|c: char| WHITELIST@.contains(c) <==> printable(c) by {
        if printable(c) {
            let place = whitelist_place(c);
            assert(0 <= place < 95);
            assert(whitelist_place(WHITELIST@[place]) == place);
            assert(WHITELIST@[place] == c);
        }
        if WHITELIST@.contains(c) {
            let i = choose|i: int| 0 <= i < WHITELIST@.len() && WHITELIST@[i] == c;
            assert(whitelist_place(WHITELIST@[i]) == i);
        }
    }
}

/// Where a printable character stands in the whitelist: in the order of
/// ASCII, but for the number sign, which stands before the quotation mark.
pub open spec fn whitelist_place(c: char) -> int {
    if c == '"' {
        3
    } else if c == '#' {
        2
    } else {
        (c as int) - 0x20
    }
}

/// Where the engine hands out only characters of the whitelist and, after
/// them, the white space that ends the line, the text recognized holds only
/// characters of the whitelist. That the engine keeps to the whitelist is the
/// engine's to see to; trimming adds no character to what it hands out.
pub proof fn lemma_text_within_whitelist(body: Seq<char>, tail: Seq<char>)
    requires
        forall|i: int| 0 <= i < body.len() ==> WHITELIST@.contains(#[trigger] body[i]),
        forall|i: int| 0 <= i < tail.len() ==> is_white_space(#[trigger] tail[i]),
    ensures
        forall|i: int|
            0 <= i < trimmed(body + tail).len() ==> WHITELIST@.contains(
                #[trigger] trimmed(body + tail)[i],
            ),
{
    let text = body + tail;
    let bounds = lemma_trimmed_is_part(text);
    if bounds.0 < bounds.1 {
        if bounds.1 > body.len() {
            assert(text[bounds.1 - 1] == tail[bounds.1 - 1 - body.len()]);
            assert(false);
        }
    }
    assert forall|i: int| 0 <= i < trimmed(text).len() implies WHITELIST@.contains(
        #[trigger] trimmed(text)[i],
    ) by {
        assert(trimmed(text)[i] == body[bounds.0 + i]);
    }
}

/// The state after an answer, well formed and closer to the end.
pub proof fn lemma_step_well_formed(state: OcrModel, reply: OcrReply)
    requires
        state.well_formed(),
    ensures
        ocr_step(state, reply) matches OcrStepModel::Next(next, request) ==> next.well_formed()
            && request == next.request() && next.remaining() < state.remaining(),
{
}

/// No call works on an engine that is not held: every call but the creation
/// names the engine that was created and is not yet deleted.
pub proof fn lemma_calls_use_the_engine(state: OcrModel)
    requires
        state.well_formed(),
        state.stage != OcrStage::Create,
    ensures
        state.request().engine() == Some(state.engine),
        state.engine != NULL_HANDLE,
{
}

/// One answer keeps the account of engines: the engine held and the engine
/// that the answer handed over is the engine that the awaited call deleted
/// and the engine held afterwards. When the recognition is done, none is
/// held.
pub proof fn lemma_step_balanced(state: OcrModel, reply: OcrReply)
    requires
        state.well_formed(),
    ensures
        match ocr_step(state, reply) {
            OcrStepModel::Next(next, _) => held_engine(state).add(created_by(state, reply))
                =~= deleted_by(state).add(held_engine(next)),
            OcrStepModel::Done(_) => held_engine(state).add(created_by(state, reply))
                =~= deleted_by(state),
        },
{
}

/// The engine is deleted exactly once: over a recognition that is carried to
/// its end, the engines deleted are the engine held at first and the engines
/// created on the way, each as often as it was held or created.
pub proof fn lemma_run_balanced(state: OcrModel, replies: Seq<OcrReply>)
    requires
        state.well_formed(),
        outcome(state, replies) is Some,
    ensures
        deleted(state, replies) =~= held_engine(state).add(created(state, replies)),
    decreases replies.len(),
{
    lemma_step_balanced(state, replies[0]);
    lemma_step_well_formed(state, replies[0]);
    match ocr_step(state, replies[0]) {
        OcrStepModel::Next(next, _) => {
            lemma_run_balanced(next, replies.drop_first());
        },
        OcrStepModel::Done(_) => {},
    }
}

/// A recognition from its beginning deletes exactly the engines it creates,
/// whatever the answers and however it ends.
pub proof fn lemma_recognition_balanced(
    image: isize,
    region: Option<Region>,
    replies: Seq<OcrReply>,
)
    requires
        image != NULL_HANDLE,
        region_valid(region),
        outcome(OcrModel::initial(image, region), replies) is Some,
    ensures
        deleted(OcrModel::initial(image, region), replies) =~= created(
            OcrModel::initial(image, region),
            replies,
        ),
{
    lemma_run_balanced(OcrModel::initial(image, region), replies);
}

/// A recognition ends: as many answers as the state has calls remaining
/// lead to a result.
pub proof fn lemma_run_completes(state: OcrModel, replies: Seq<OcrReply>)
    requires
        state.well_formed(),
        replies.len() >= state.remaining(),
    ensures
        outcome(state, replies) is Some,
    decreases replies.len(),
{
    lemma_step_well_formed(state, replies[0]);
    match ocr_step(state, replies[0]) {
        OcrStepModel::Next(next, _) => {
            lemma_run_completes(next, replies.drop_first());
        },
        OcrStepModel::Done(_) => {},
    }
}

/// A call that fails ends the recognition with the error that names it,
/// whatever the deletion of the engine answers: no text is handed out.
pub proof fn lemma_refusal_ends_recognition(
    state: OcrModel,
    reply: OcrReply,
    rest: Seq<OcrReply>,
)
    requires
        state.well_formed(),
        state.stage != OcrStage::Delete,
        !accepted(state, reply),
        rest.len() >= 1,
    ensures
        outcome(state, seq![reply] + rest) == Some(Err::<Seq<char>, _>(refusal(state.stage))),
{
    let replies = seq![reply] + rest;
    assert(replies[0] == reply);
    assert(replies.drop_first() =~= rest);
    match ocr_step(state, reply) {
        OcrStepModel::Next(next, _) => {
            assert(ocr_step(next, rest[0]) == OcrStepModel::Done(next.outcome->Some_0));
            assert(outcome(next, rest) == Some(next.outcome->Some_0));
        },
        OcrStepModel::Done(_) => {},
    }
}

/// The answers of a recognition in which every call does its work and the
/// engine hands out the bytes `raw`.
pub open spec fn answers_of_success(engine: isize, region: Option<Region>, raw: Vec<u8>) -> Seq<
    OcrReply,
> {
    seq![
        OcrReply::Handle(engine),
        OcrReply::Status(0),
        OcrReply::Status(1),
        OcrReply::Nothing,
        OcrReply::Nothing,
    ] + (if region is Some {
        seq![OcrReply::Nothing]
    } else {
        Seq::empty()
    }) + seq![OcrReply::Status(0), OcrReply::Text(Some(raw)), OcrReply::Nothing]
}

/// The calls of a recognition in which every call does its work, after the
/// first, which creates the engine.
pub open spec fn calls_of_success(engine: isize, image: isize, region: Option<Region>) -> Seq<
    OcrRequest,
> {
    seq![
        OcrRequest::Init3 { engine, datapath: None, language: LANGUAGE },
        OcrRequest::SetVariable { engine, name: WHITELIST_VARIABLE, value: WHITELIST },
        OcrRequest::SetPageSegMode { engine, mode: PageSegMode::RawLine },
        OcrRequest::SetImage2 { engine, image },
    ] + (match region {
        Some(r) => seq![
            OcrRequest::SetRectangle {
                engine,
                left: r.left,
                top: r.top,
                width: r.spec_width() as i32,
                height: r.spec_height() as i32,
            },
        ],
        None => Seq::empty(),
    }) + seq![
        OcrRequest::Recognize { engine },
        OcrRequest::GetUtf8Text { engine },
        OcrRequest::Delete { engine },
    ]
}

/// A recognition in which every call does its work makes its calls in one
/// order: the engine is initialized before it is configured, configured
/// before the image is loaded, restricted to the region, where one is given,
/// before it recognizes, and deleted after the text was read. It ends with
/// the text that the bytes hold, read as UTF-8 and trimmed.
pub proof fn lemma_recognition_succeeds(
    engine: isize,
    image: isize,
    region: Option<Region>,
    raw: Vec<u8>,
)
    requires
        engine != NULL_HANDLE,
        image != NULL_HANDLE,
        region_valid(region),
    ensures
        ({
            let start = OcrModel::initial(image, region);
            let answers = answers_of_success(engine, region, raw);
            &&& requests(start, answers) == calls_of_success(engine, image, region)
            &&& outcome(start, answers) == Some(Ok::<_, OcrError>(extracted(raw@)))
        }),
{
    let s0 = OcrModel::initial(image, region);
    let a0 = answers_of_success(engine, region, raw);
    let calls = calls_of_success(engine, image, region);
    let s1 = lemma_unfold(s0, a0);
    let a1 = a0.drop_first();
    let s2 = lemma_unfold(s1, a1);
    let a2 = a1.drop_first();
    let s3 = lemma_unfold(s2, a2);
    let a3 = a2.drop_first();
    let s4 = lemma_unfold(s3, a3);
    let a4 = a3.drop_first();
    let s5 = lemma_unfold(s4, a4);
    let a5 = a4.drop_first();
    if region is Some {
        let s6 = lemma_unfold(s5, a5);
        let a6 = a5.drop_first();
        let s7 = lemma_unfold(s6, a6);
        let a7 = a6.drop_first();
        let s8 = lemma_unfold(s7, a7);
        let a8 = a7.drop_first();
        assert(a8.len() == 1);
        assert(ocr_step(s8, a8[0]) is Done);
        assert(requests(s8, a8) =~= Seq::empty());
        assert(requests(s0, a0) =~= calls);
    } else {
        let s6 = lemma_unfold(s5, a5);
        let a6 = a5.drop_first();
        let s7 = lemma_unfold(s6, a6);
        let a7 = a6.drop_first();
        assert(a7.len() == 1);
        assert(ocr_step(s7, a7[0]) is Done);
        assert(requests(s7, a7) =~= Seq::empty());
        assert(requests(s0, a0) =~= calls);
    }
}

/// One answer of a run that goes on: the state it leads to, with the run
/// taken apart into the first call and the rest.
proof fn lemma_unfold(state: OcrModel, replies: Seq<OcrReply>) -> (next: OcrModel)
    requires
        replies.len() > 0,
        ocr_step(state, replies[0]) is Next,
    ensures
        ocr_step(state, replies[0]) == OcrStepModel::Next(next, next.request()),
        requests(state, replies) == seq![next.request()] + requests(next, replies.drop_first()),
        outcome(state, replies) == outcome(next, replies.drop_first()),
{
    ocr_step(state, replies[0])->Next_0
}

/// The text of the bytes that the engine handed out: read as UTF-8, without
/// the white space it begins and ends with.
pub fn recognized_text(raw: &[u8]) -> (text: String)
    requires
        valid_utf8(raw@),
    ensures
        text@ == extracted(raw@),
        text@ == trimmed(decode_utf8(raw@)),
{
    match core::str::from_utf8(raw) {
        Ok(whole) => whole.trim().to_owned(),
        Err(_) => vstd::pervasive::unreached(),
    }
}

/// Whether the engine can be restricted to `region`.
pub fn is_region_valid(region: &Option<Region>) -> (b: bool)
    ensures
        b == region_valid(*region),
{
    match region {
        Some(r) => r.is_well_formed() && r.is_measurable(),
        None => true,
    }
}

/// Whether `reply` can be read as the answer to the call that `state`
/// awaits.
pub fn is_readable(state: &OcrState, reply: &OcrReply) -> (b: bool)
    ensures
        b == readable(state@, *reply),
{
    match state.stage {
        OcrStage::Text => match reply {
            OcrReply::Text(Some(raw)) => match core::str::from_utf8(raw.as_slice()) {
                Ok(_) => true,
                Err(_) => false,
            },
            _ => true,
        },
        _ => true,
    }
}

/// Begins the recognition of `image`, of the whole of it or of `region`.
/// An image handle that names no image ends it at once, before an engine is
/// created; else the first call creates the engine.
pub fn ocr_begin(image: isize, region: Option<Region>) -> (step: OcrStep)
    requires
        region_valid(region),
    ensures
        step@ == ocr_start(image, region),
        image == NULL_HANDLE <==> step@ == OcrStepModel::Done(Err(OcrError::InvalidImage)),
        step matches OcrStep::Next(state, request) ==> state@.well_formed() && request
            == OcrRequest::Create,
{
    if image == NULL_HANDLE {
        OcrStep::Done(Err(OcrError::InvalidImage))
    } else {
        OcrStep::Next(
            OcrState { stage: OcrStage::Create, engine: NULL_HANDLE, image, region, outcome: None },
            OcrRequest::Create,
        )
    }
}

/// The step that deletes the engine with the result settled.
fn delete_with(state: OcrState, result: OcrResult) -> (step: OcrStep)
    ensures
        step@ == deleting(state@, result_view(result)),
{
    let engine = state.engine;
    OcrStep::Next(
        OcrState {
            stage: OcrStage::Delete,
            engine,
            image: state.image,
            region: state.region,
            outcome: Some(result),
        },
        OcrRequest::Delete { engine },
    )
}

/// The step that goes on at `stage` with the call `request`.
fn proceed(state: OcrState, stage: OcrStage, request: OcrRequest) -> (step: OcrStep)
    requires
        state.outcome is None,
        request == (OcrModel { stage, ..state@ }).request(),
    ensures
        step@ == proceeding(OcrModel { stage, ..state@ }),
{
    OcrStep::Next(
        OcrState {
            stage,
            engine: state.engine,
            image: state.image,
            region: state.region,
            outcome: None,
        },
        request,
    )
}

/// Takes the answer to the awaited call and names the next call, or hands
/// out the result.
///
/// A call that fails ends the recognition with the error that names it; an
/// engine that was created is deleted first. The text that the engine hands
/// out is read as UTF-8 and trimmed, and handed out once the engine is
/// deleted. That the engine's text is UTF-8 is the caller's to see to.
pub fn ocr(state: OcrState, reply: OcrReply) -> (step: OcrStep)
    requires
        state@.well_formed(),
        readable(state@, reply),
    ensures
        step@ == ocr_step(state@, reply),
        step@ matches OcrStepModel::Next(next, request) ==> next.well_formed() && request
            == next.request() && next.remaining() < state@.remaining(),
{
    let engine = state.engine;
    match state.stage {
        OcrStage::Create => {
            match reply {
                OcrReply::Handle(created) if created != NULL_HANDLE => OcrStep::Next(
                    OcrState {
                        stage: OcrStage::Init,
                        engine: created,
                        image: state.image,
                        region: state.region,
                        outcome: None,
                    },
                    OcrRequest::Init3 { engine: created, datapath: None, language: LANGUAGE },
                ),
                _ => OcrStep::Done(Err(OcrError::Create)),
            }
        },
        OcrStage::Init => {
            match reply {
                OcrReply::Status(status) if status == 0 => proceed(
                    state,
                    OcrStage::Whitelist,
                    OcrRequest::SetVariable { engine, name: WHITELIST_VARIABLE, value: WHITELIST },
                ),
                _ => delete_with(state, Err(OcrError::Init)),
            }
        },
        OcrStage::Whitelist => {
            match reply {
                OcrReply::Status(status) if status != 0 => proceed(
                    state,
                    OcrStage::SegMode,
                    OcrRequest::SetPageSegMode { engine, mode: PageSegMode::RawLine },
                ),
                _ => delete_with(state, Err(OcrError::SetVariable)),
            }
        },
        OcrStage::SegMode => {
            let image = state.image;
            proceed(state, OcrStage::Image, OcrRequest::SetImage2 { engine, image })
        },
        OcrStage::Image => {
            match state.region {
                Some(region) => {
                    let request = OcrRequest::SetRectangle {
                        engine,
                        left: region.left,
                        top: region.top,
                        width: region.width(),
                        height: region.height(),
                    };
                    proceed(state, OcrStage::Rectangle, request)
                },
                None => proceed(state, OcrStage::Recognize, OcrRequest::Recognize { engine }),
            }
        },
        OcrStage::Rectangle => proceed(state, OcrStage::Recognize, OcrRequest::Recognize { engine }),
        OcrStage::Recognize => {
            match reply {
                OcrReply::Status(status) if status == 0 => proceed(
                    state,
                    OcrStage::Text,
                    OcrRequest::GetUtf8Text { engine },
                ),
                _ => delete_with(state, Err(OcrError::Recognize)),
            }
        },
        OcrStage::Text => {
            match reply {
                OcrReply::Text(Some(raw)) => {
                    let text = recognized_text(raw.as_slice());
                    delete_with(state, Ok(text))
                },
                _ => delete_with(state, Err(OcrError::GetUtf8Text)),
            }
        },
        OcrStage::Delete => {
            match state.outcome {
                Some(result) => OcrStep::Done(result),
                None => vstd::pervasive::unreached(),
            }
        },
    }
}

} // verus!
