use tesseract::DecodeError;
use tesseract::ExtractError;
use tesseract::InitError;
use tesseract::RecognizeError;
use tesseract::SetVariableError;
use tesseract::Tesseract;
use tesseract::ocr;
use tesseract::ocr_from_frame;

// The foreign engine reports zero for a successful initialization or
// recognition call, nonzero for a failed one; the variable-set call uses the
// reversed polarity. These stand for outcomes a real engine could report.
const STATUS_OK: i32 = 0;
const STATUS_FAILED: i32 = 1;
const VARIABLE_ACCEPTED: i32 = 1;
const VARIABLE_REJECTED: i32 = 0;

#[test]
fn ocr_test() {
    let text = ocr(
        "eng",
        STATUS_OK,
        true,
        STATUS_OK,
        Some("hello tesseract\n".to_string()),
    );
    assert_eq!(text, "hello tesseract\n".to_string());
}

#[test]
fn ocr_from_frame_test() {
    let text = ocr_from_frame(
        2256,
        324,
        3,
        2256 * 3,
        "eng",
        STATUS_OK,
        STATUS_OK,
        Some("hello tesseract\n".to_string()),
    );
    assert_eq!(text, "hello tesseract\n".to_string());
}

#[test]
fn ocr_from_mem_with_ppi() {
    let mut cube = Tesseract::new();
    cube.set_lang("eng", STATUS_OK).unwrap();
    cube.set_image_from_mem(true).unwrap();

    cube.set_source_resolution(70);
    assert_eq!(
        cube.get_text(Some("hello tesseract\n".to_string())),
        Ok("hello tesseract\n".to_string())
    );
}

#[test]
fn expanded_test() {
    let mut cube = Tesseract::new();
    cube.set_lang("eng", STATUS_OK).unwrap();
    cube.set_image(true);
    cube.set_variable("tessedit_char_blacklist", "z", VARIABLE_ACCEPTED)
        .unwrap();
    cube.recognize(STATUS_OK).unwrap();
    assert_eq!(
        cube.get_text(Some("hello tesseract\n".to_string())),
        Ok("hello tesseract\n".to_string())
    );
}

#[test]
fn setting_image_without_initializing_test() {
    let mut cube = Tesseract::new();
    cube.set_image_from_mem(true).unwrap();
    assert!(cube.recognize(STATUS_OK).is_err());
    assert!(cube.get_text(Some("anything".to_string())).is_err());
}

#[test]
fn implicit_and_explicit_recognition_agree() {
    let fetched = "the same text\n".to_string();

    let mut explicit = Tesseract::new();
    explicit.set_lang("eng", STATUS_OK).unwrap();
    explicit.set_image(true);
    explicit.recognize(STATUS_OK).unwrap();
    let explicit_text = explicit.get_text(Some(fetched.clone()));

    let mut implicit = Tesseract::new();
    implicit.set_lang("eng", STATUS_OK).unwrap();
    implicit.set_image(true);
    let implicit_text = implicit.get_text(Some(fetched));

    assert_eq!(explicit_text, implicit_text);
    assert_eq!(explicit_text, Ok("the same text\n".to_string()));
}

#[test]
fn extraction_before_any_attachment_fails() {
    let mut cube = Tesseract::new();
    assert_eq!(
        cube.get_text(Some("never reached".to_string())),
        Err(ExtractError::NotReady)
    );

    let mut initialized_only = Tesseract::new();
    initialized_only.set_lang("eng", STATUS_OK).unwrap();
    assert_eq!(
        initialized_only.get_text(Some("never reached".to_string())),
        Err(ExtractError::NotReady)
    );
}

#[test]
fn recognition_before_readiness_fails() {
    let mut cube = Tesseract::new();
    assert_eq!(cube.recognize(STATUS_OK), Err(RecognizeError::NotReady));

    let mut initialized_only = Tesseract::new();
    initialized_only.set_lang("eng", STATUS_OK).unwrap();
    assert_eq!(
        initialized_only.recognize(STATUS_OK),
        Err(RecognizeError::NotReady)
    );
}

#[test]
fn failed_decode_reports_and_attaches_nothing() {
    let mut cube = Tesseract::new();
    cube.set_lang("eng", STATUS_OK).unwrap();
    assert_eq!(cube.set_image_from_mem(false), Err(DecodeError::NullResult));
    // Nothing was attached, so the session still refuses recognition.
    assert_eq!(cube.recognize(STATUS_OK), Err(RecognizeError::NotReady));
}

#[test]
fn failed_initialization_leaves_session_usable_for_retry() {
    let mut cube = Tesseract::new();
    assert_eq!(
        cube.set_lang("deu", STATUS_FAILED),
        Err(InitError::ForeignFailure)
    );
    assert!(!cube.is_ready());
    cube.set_lang("eng", STATUS_OK).unwrap();
    cube.set_image(true);
    assert!(cube.is_ready());
}

#[test]
fn foreign_recognition_failure_is_reported() {
    let mut cube = Tesseract::new();
    cube.set_lang("eng", STATUS_OK).unwrap();
    cube.set_image(true);
    assert_eq!(
        cube.recognize(STATUS_FAILED),
        Err(RecognizeError::ForeignFailure)
    );
}

#[test]
fn null_text_buffer_is_reported() {
    let mut cube = Tesseract::new();
    cube.set_lang("eng", STATUS_OK).unwrap();
    cube.set_image(true);
    assert_eq!(cube.get_text(None), Err(ExtractError::NullResult));
}

#[test]
fn variable_polarity_is_reversed() {
    let mut cube = Tesseract::new();
    cube.set_lang("eng", STATUS_OK).unwrap();
    assert_eq!(
        cube.set_variable("not_a_real_tunable", "1", VARIABLE_REJECTED),
        Err(SetVariableError::ForeignFailure)
    );
    assert_eq!(
        cube.set_variable("tessedit_char_blacklist", "z", VARIABLE_ACCEPTED),
        Ok(())
    );
}

#[test]
fn reinitialization_requires_a_fresh_attachment() {
    let mut cube = Tesseract::new();
    cube.set_lang("eng", STATUS_OK).unwrap();
    cube.set_image(true);
    assert!(cube.is_ready());
    // A successful re-initialization conservatively drops the attachment.
    cube.set_lang("deu", STATUS_OK).unwrap();
    assert!(!cube.is_ready());
    assert_eq!(cube.recognize(STATUS_OK), Err(RecognizeError::NotReady));
    cube.set_image(true);
    cube.recognize(STATUS_OK).unwrap();
}

#[test]
fn frame_attachment_enables_the_pipeline() {
    let mut cube = Tesseract::new();
    cube.set_lang("eng", STATUS_OK).unwrap();
    cube.set_frame(2256, 324, 3, 2256 * 3);
    cube.recognize(STATUS_OK).unwrap();
    assert_eq!(
        cube.get_text(Some("frame text".to_string())),
        Ok("frame text".to_string())
    );
}

#[test]
fn construct_then_drop_at_scale() {
    // Creating a session and dropping it without any other operation must be
    // harmless, however often it happens.
    for _ in 0..10_000 {
        let cube = Tesseract::new();
        drop(cube);
    }
    for _ in 0..10_000 {
        let cube = Tesseract::default();
        drop(cube);
    }
}
