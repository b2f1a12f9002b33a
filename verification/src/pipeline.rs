use vstd::prelude::*;

use crate::engine::Tesseract;

verus! {

/// The whole pipeline for one image decoded from a file path: create a
/// session, initialize it with `language`, attach the decoded image,
/// recognize, extract. The foreign outcomes — the initialization status,
/// whether the decode produced a handle, the recognition status and the
/// fetched text — are supplied by the runner that made the calls. A caller
/// on this path treats every failure as fatal, so the outcomes are required
/// to be successes, and the extracted text is exactly the text the engine
/// produced.
pub fn ocr(
    language: &str,
    init_status: i32,
    decoded: bool,
    recognize_status: i32,
    fetched: Option<String>,
) -> (r: String)
    requires
        init_status == 0,
        decoded,
        recognize_status == 0,
        fetched is Some,
    ensures
        r@ == fetched.unwrap()@,
{
    let mut cube = Tesseract::new();
    cube.set_lang(language, init_status).unwrap();
    cube.set_image(decoded);
    cube.recognize(recognize_status).unwrap();
    cube.get_text(fetched).unwrap()
}

/// The whole pipeline for one raw pixel buffer of the given geometry:
/// create a session, initialize it with `language`, attach the frame,
/// recognize, extract. As in [`ocr`], the foreign outcomes are supplied by
/// the runner, every failure is fatal on this path, and the extracted text
/// is exactly the text the engine produced.
pub fn ocr_from_frame(
    width: i32,
    height: i32,
    bytes_per_pixel: i32,
    bytes_per_line: i32,
    language: &str,
    init_status: i32,
    recognize_status: i32,
    fetched: Option<String>,
) -> (r: String)
    requires
        init_status == 0,
        recognize_status == 0,
        fetched is Some,
    ensures
        r@ == fetched.unwrap()@,
{
    let mut cube = Tesseract::new();
    cube.set_lang(language, init_status).unwrap();
    cube.set_frame(width, height, bytes_per_pixel, bytes_per_line);
    cube.recognize(recognize_status).unwrap();
    cube.get_text(fetched).unwrap()
}

} // verus!
