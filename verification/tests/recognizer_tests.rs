use master_duel_translayer::recognizer::{
    is_readable, is_region_valid, ocr, ocr_begin, recognized_text, OcrError, OcrReply,
    OcrRequest, OcrResult, OcrStage, OcrState, OcrStep, PageSegMode, LANGUAGE, WHITELIST,
    WHITELIST_VARIABLE,
};
use master_duel_translayer::region::Region;

const ENGINE: isize = 0x77;
const IMAGE: isize = 0x99;

/// What an engine that reads `text` in the image answers.
fn engine(request: &OcrRequest, text: &[u8]) -> OcrReply {
    match request {
        OcrRequest::Create => OcrReply::Handle(ENGINE),
        OcrRequest::Init3 { .. } => OcrReply::Status(0),
        OcrRequest::SetVariable { .. } => OcrReply::Status(1),
        OcrRequest::Recognize { .. } => OcrReply::Status(0),
        OcrRequest::GetUtf8Text { .. } => OcrReply::Text(Some(text.to_vec())),
        _ => OcrReply::Nothing,
    }
}

/// Runs a recognition against an engine that answers as `answers` says, and
/// returns the calls made and the result.
fn run(
    image: isize,
    region: Option<Region>,
    answers: impl Fn(&OcrRequest) -> OcrReply,
) -> (Vec<OcrRequest>, OcrResult) {
    let mut calls = Vec::new();
    let mut step = ocr_begin(image, region);
    loop {
        match step {
            OcrStep::Next(state, request) => {
                calls.push(request);
                assert!(calls.len() <= 9);
                step = ocr(state, answers(&request));
            }
            OcrStep::Done(result) => return (calls, result),
        }
    }
}

/// The text recognized in an image in which the engine reads `text`.
fn ocr_of(text: &[u8]) -> String {
    run(IMAGE, None, |request| engine(request, text)).1.unwrap()
}

/// The text recognized in the region of an image in which the engine reads
/// `text` when it is restricted to `region`, and nothing otherwise.
fn ocr_of_region(text: &[u8], region: Region) -> String {
    let (calls, result) = run(IMAGE, Some(region), |request| engine(request, text));
    assert!(calls.contains(&OcrRequest::SetRectangle {
        engine: ENGINE,
        left: region.left,
        top: region.top,
        width: region.width(),
        height: region.height(),
    }));
    result.unwrap()
}

#[test]
fn ocr_test() {
    assert_eq!("DUEL", ocr_of(b"DUEL\n"));
    assert_eq!("Drytron Alpha Thuban", ocr_of(b"Drytron Alpha Thuban\n"));
    assert_eq!(
        "Drytron Alpha",
        ocr_of_region(
            b"Drytron Alpha\n",
            Region {
                left: 0,
                top: 0,
                right: 190,
                bottom: 33
            }
        )
    );
}

#[test]
fn recognition_makes_its_calls_in_order() {
    let (calls, result) = run(IMAGE, None, |request| engine(request, b" DUEL \n"));
    assert_eq!(
        calls,
        vec![
            OcrRequest::Create,
            OcrRequest::Init3 { engine: ENGINE, datapath: None, language: "eng" },
            OcrRequest::SetVariable {
                engine: ENGINE,
                name: "tessedit_char_whitelist",
                value: WHITELIST,
            },
            OcrRequest::SetPageSegMode { engine: ENGINE, mode: PageSegMode::RawLine },
            OcrRequest::SetImage2 { engine: ENGINE, image: IMAGE },
            OcrRequest::Recognize { engine: ENGINE },
            OcrRequest::GetUtf8Text { engine: ENGINE },
            OcrRequest::Delete { engine: ENGINE },
        ]
    );
    assert_eq!(result, Ok("DUEL".to_string()));
    assert_eq!(LANGUAGE, "eng");
    assert_eq!(WHITELIST_VARIABLE, "tessedit_char_whitelist");
}

#[test]
fn region_is_set_after_the_image_and_before_recognition() {
    let region = Region { left: 59, right: 424, top: 168, bottom: 201 };
    let (calls, result) = run(IMAGE, Some(region), |request| engine(request, b"Thuban"));
    assert_eq!(calls.len(), 9);
    assert_eq!(calls[4], OcrRequest::SetImage2 { engine: ENGINE, image: IMAGE });
    assert_eq!(
        calls[5],
        OcrRequest::SetRectangle { engine: ENGINE, left: 59, top: 168, width: 365, height: 33 }
    );
    assert_eq!(calls[6], OcrRequest::Recognize { engine: ENGINE });
    assert_eq!(result, Ok("Thuban".to_string()));
}

#[test]
fn invalid_image_ends_before_any_call() {
    let (calls, result) = run(0, None, |request| engine(request, b"DUEL"));
    assert!(calls.is_empty());
    assert_eq!(result, Err(OcrError::InvalidImage));
}

#[test]
fn engine_that_is_not_created_is_not_deleted() {
    let (calls, result) = run(IMAGE, None, |_| OcrReply::Handle(0));
    assert_eq!(calls, vec![OcrRequest::Create]);
    assert_eq!(result, Err(OcrError::Create));
}

#[test]
fn failed_initialization_deletes_the_engine() {
    let (calls, result) = run(IMAGE, None, |request| match request {
        OcrRequest::Init3 { .. } => OcrReply::Status(-1),
        other => engine(other, b"DUEL"),
    });
    assert_eq!(calls.len(), 3);
    assert_eq!(calls[2], OcrRequest::Delete { engine: ENGINE });
    assert_eq!(result, Err(OcrError::Init));
}

#[test]
fn refused_whitelist_deletes_the_engine() {
    let (calls, result) = run(IMAGE, None, |request| match request {
        OcrRequest::SetVariable { .. } => OcrReply::Status(0),
        other => engine(other, b"DUEL"),
    });
    assert_eq!(calls.last(), Some(&OcrRequest::Delete { engine: ENGINE }));
    assert_eq!(calls.len(), 4);
    assert_eq!(result, Err(OcrError::SetVariable));
}

#[test]
fn failed_recognition_deletes_the_engine() {
    let (calls, result) = run(IMAGE, None, |request| match request {
        OcrRequest::Recognize { .. } => OcrReply::Status(-1),
        other => engine(other, b"DUEL"),
    });
    assert_eq!(calls.last(), Some(&OcrRequest::Delete { engine: ENGINE }));
    assert_eq!(calls.len(), 7);
    assert_eq!(result, Err(OcrError::Recognize));
}

#[test]
fn missing_text_deletes_the_engine() {
    let (calls, result) = run(IMAGE, None, |request| match request {
        OcrRequest::GetUtf8Text { .. } => OcrReply::Text(None),
        other => engine(other, b"DUEL"),
    });
    assert_eq!(calls.last(), Some(&OcrRequest::Delete { engine: ENGINE }));
    assert_eq!(calls.len(), 8);
    assert_eq!(result, Err(OcrError::GetUtf8Text));
}

#[test]
fn engine_is_deleted_exactly_once() {
    for text in [&b"DUEL\n"[..], &b""[..]] {
        let (calls, _) = run(IMAGE, None, |request| engine(request, text));
        let deletions = calls
            .iter()
            .filter(|call| matches!(call, OcrRequest::Delete { engine: ENGINE }))
            .count();
        assert_eq!(deletions, 1);
        assert_eq!(calls.last(), Some(&OcrRequest::Delete { engine: ENGINE }));
    }
}

#[test]
fn blank_image_is_an_empty_text() {
    assert_eq!(ocr_of(b""), "");
    assert_eq!(ocr_of(b" \n\n"), "");
}

#[test]
fn text_is_trimmed_at_both_ends_only() {
    assert_eq!(recognized_text(b"  DUEL \n"), "DUEL");
    assert_eq!(recognized_text(b"\t\r\n Drytron  Alpha\x0B\x0C\n"), "Drytron  Alpha");
    assert_eq!(recognized_text("\u{a0}\u{3000}ab\u{2028}".as_bytes()), "ab");
    assert_eq!(recognized_text("\u{200b}ab".as_bytes()), "\u{200b}ab");
    assert_eq!(recognized_text(b"DUEL"), "DUEL");
}

#[test]
fn text_is_read_as_utf8() {
    assert_eq!(recognized_text("Drytron \u{3b1}\n".as_bytes()), "Drytron \u{3b1}");
    assert_eq!(recognized_text(&[0xE2, 0x82, 0xAC, b'\n']), "\u{20ac}");
}

#[test]
fn whitelist_is_printable_ascii() {
    assert_eq!(WHITELIST.len(), 95);
    for code in 0x20u8..=0x7E {
        assert!(WHITELIST.contains(code as char));
    }
    assert!(WHITELIST.chars().all(|c| (' '..='~').contains(&c)));
    assert!(WHITELIST.starts_with(" !#\"$"));
    assert!(WHITELIST.contains("[\\]"));
}

#[test]
fn whitelisted_engine_text_stays_within_the_whitelist() {
    for raw in [&b"DUEL\n"[..], b" Drytron Alpha Thuban \n\n", b"~!@#$%^&*()_+\n"] {
        let text = ocr_of(raw);
        assert!(text.chars().all(|c| WHITELIST.contains(c)));
    }
}

#[test]
fn recognition_errors_name_the_call() {
    assert_eq!(OcrError::InvalidImage.message(), "invalid image");
    assert_eq!(OcrError::Create.message(), "TessBaseAPICreate failed");
    assert_eq!(OcrError::Init.message(), "TessBaseAPIInit3 failed");
    assert_eq!(OcrError::SetVariable.message(), "TessBaseAPISetVariable failed");
    assert_eq!(OcrError::Recognize.message(), "TessBaseAPIRecognize failed");
    assert_eq!(OcrError::GetUtf8Text.message(), "TessBaseAPIGetUTF8Text failed");
}

#[test]
fn text_that_is_not_utf8_cannot_be_read() {
    let awaiting = |stage| OcrState { stage, engine: ENGINE, image: IMAGE, region: None, outcome: None };
    let broken = OcrReply::Text(Some(vec![b'D', 0xFF, b'U']));
    assert!(!is_readable(&awaiting(OcrStage::Text), &broken));
    assert!(is_readable(&awaiting(OcrStage::Recognize), &broken));
    assert!(is_readable(&awaiting(OcrStage::Text), &OcrReply::Text(Some(b"DUEL\n".to_vec()))));
    assert!(is_readable(&awaiting(OcrStage::Text), &OcrReply::Text(None)));
    assert!(is_region_valid(&None));
    assert!(is_region_valid(&Some(Region { left: 0, top: 0, right: 190, bottom: 33 })));
    assert!(!is_region_valid(&Some(Region { left: 1, top: 0, right: 0, bottom: 33 })));
    assert!(!is_region_valid(&Some(Region { left: i32::MIN, top: 0, right: 1, bottom: 33 })));
}

#[test]
fn white_space_is_what_unicode_says() {
    let white: Vec<char> = ('\u{9}'..='\u{d}')
        .chain([' ', '\u{85}', '\u{a0}', '\u{1680}'])
        .chain('\u{2000}'..='\u{200a}')
        .chain(['\u{2028}', '\u{2029}', '\u{202f}', '\u{205f}', '\u{3000}'])
        .collect();
    assert_eq!(white.len(), 25);
    let mut buffer = [0u8; 4];
    for c in '\0'..=char::MAX {
        let text = recognized_text(c.encode_utf8(&mut buffer).as_bytes());
        assert_eq!(text.is_empty(), white.contains(&c), "U+{:04X}", c as u32);
    }
}
