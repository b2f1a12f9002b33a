use vstd::prelude::*;

use crate::errors::DecodeError;
use crate::errors::ExtractError;
use crate::errors::InitError;
use crate::errors::RecognizeError;
use crate::state::EngineState;
use crate::state::ImageSource;
use crate::state::attach_mem_next;
use crate::state::attach_mem_result;
use crate::state::attach_next;
use crate::state::extract_next;
use crate::state::extract_result;
use crate::state::init_next;
use crate::state::init_result;
use crate::state::initial_state;
use crate::state::recognize_next;
use crate::state::recognize_result;
use crate::state::resolution_next;
use crate::state::set_variable_next;
use crate::state::wf;

verus! {

/// On successful foreign outcomes, the whole pipeline goes through: a fresh
/// session initialized with any language accepts a decoded image, its
/// recognition request succeeds, and extraction returns exactly the text the
/// engine produced.
pub proof fn lemma_pipeline_succeeds(
    datapath: Option<Seq<char>>,
    language: Option<Seq<char>>,
    text: Seq<char>,
)
    ensures
        ({
            let after_init = init_next(initial_state(), datapath, language, 0);
            let after_attach = attach_next(after_init, ImageSource::Decoded);
            let after_recognition = recognize_next(after_attach, 0);
            &&& init_result(0) == Ok::<(), InitError>(())
            &&& recognize_result(after_attach, 0) == Ok::<(), RecognizeError>(())
            &&& extract_result(after_recognition, Some(text)) == Ok::<Seq<char>, ExtractError>(
                text,
            )
        }),
{
}

/// Extraction directly after attachment — without an explicit recognition
/// request — yields exactly the same result as extraction after an explicit
/// successful recognition, given the same fetched text. The engine runs
/// recognition itself when it was not requested, so the explicit request
/// changes nothing about what extraction returns.
pub proof fn lemma_implicit_recognition_matches_explicit(s: EngineState, fetched: Option<Seq<char>>)
    ensures
        extract_result(recognize_next(s, 0), fetched) == extract_result(s, fetched),
{
}

/// Extraction on a session to which no image was ever attached fails
/// deterministically, whatever the foreign layer might have reported, and
/// leaves the session unchanged: the request never reaches the engine.
pub proof fn lemma_extract_without_image_fails(s: EngineState, fetched: Option<Seq<char>>)
    requires
        s.attached is None,
    ensures
        extract_result(s, fetched) == Err::<Seq<char>, ExtractError>(ExtractError::NotReady),
        extract_next(s, fetched) == s,
{
}

/// A failed decode from memory reports its error and attaches nothing: the
/// session is exactly as it was, so no foreign handle exists whose release
/// could be missed.
pub proof fn lemma_failed_decode_changes_nothing(s: EngineState)
    ensures
        attach_mem_result(false) == Err::<(), DecodeError>(DecodeError::NullResult),
        attach_mem_next(s, false) == s,
{
}

/// A fresh session is internally consistent, and every session step keeps
/// it so: recognition is only ever recorded on an initialized session with
/// an attached input.
pub proof fn lemma_steps_preserve_wf(
    s: EngineState,
    datapath: Option<Seq<char>>,
    language: Option<Seq<char>>,
    source: ImageSource,
    decoded: bool,
    ppi: i32,
    name: Seq<char>,
    value: Seq<char>,
    status: i32,
    fetched: Option<Seq<char>>,
)
    requires
        wf(s),
    ensures
        wf(initial_state()),
        wf(init_next(s, datapath, language, status)),
        wf(attach_next(s, source)),
        wf(attach_mem_next(s, decoded)),
        wf(resolution_next(s, ppi)),
        wf(set_variable_next(s, name, value, status)),
        wf(recognize_next(s, status)),
        wf(extract_next(s, fetched)),
{
}

} // verus!
