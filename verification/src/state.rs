use vstd::prelude::*;

use crate::errors::DecodeError;
use crate::errors::ExtractError;
use crate::errors::InitError;
use crate::errors::RecognizeError;
use crate::errors::SetVariableError;

verus! {

/// What kind of input is currently attached to the engine.
#[derive(Clone, Copy, Debug, PartialEq, Eq, Structural)]
pub enum ImageSource {
    /// A decoded image handle, produced by the foreign decoder from a file
    /// path or from an in-memory byte buffer.
    Decoded,
    /// A raw pixel buffer handed over directly, with its geometry.
    Frame { width: i32, height: i32, bytes_per_pixel: i32, bytes_per_line: i32 },
}

/// The abstract state of one engine session.
///
/// This is the mathematical model that every contract of [`crate::Tesseract`]
/// speaks of. `lang` and `vars` record the configuration the session has
/// accepted so far; they carry no executable data.
#[verifier::ext_equal]
pub struct EngineState {
    /// Whether an initialization call has succeeded since creation.
    pub initialized: bool,
    /// The input attached to the engine, if any.
    pub attached: Option<ImageSource>,
    /// Whether recognition has run on the attached input, explicitly or
    /// implicitly through a successful text extraction.
    pub recognized: bool,
    /// The source resolution hint, if one was supplied.
    pub resolution: Option<i32>,
    /// The data path accepted by the last successful initialization, if one
    /// was supplied.
    pub datapath: Option<Seq<char>>,
    /// The language code accepted by the last successful initialization, if
    /// one was supplied.
    pub lang: Option<Seq<char>>,
    /// The (name, value) pairs of every variable the engine accepted, in
    /// order.
    pub vars: Seq<(Seq<char>, Seq<char>)>,
}

/// The state of a freshly created session: an engine instance exists, but
/// nothing has been configured or attached.
pub open spec fn initial_state() -> EngineState {
    EngineState {
        initialized: false,
        attached: None,
        recognized: false,
        resolution: None,
        datapath: None,
        lang: None,
        vars: Seq::empty(),
    }
}

/// Whether the session may ask the engine for recognition or text: an
/// initialization must have succeeded and an input must be attached.
pub open spec fn ready(s: EngineState) -> bool {
    s.initialized && s.attached is Some
}

/// Internal consistency of a session state: recognition can only have run on
/// an initialized engine with an attached input.
pub open spec fn wf(s: EngineState) -> bool {
    s.recognized ==> ready(s)
}

/// The result of an initialization attempt with foreign status `status`:
/// zero means success.
pub open spec fn init_result(status: i32) -> Result<(), InitError> {
    if status == 0 {
        Ok(())
    } else {
        Err(InitError::ForeignFailure)
    }
}

/// The state after an initialization attempt. A success returns the session
/// to the bare initialized state — conservatively, any previously attached
/// input, recognition result and resolution hint are considered stale and
/// must be supplied again. A failure leaves the state unchanged, so the
/// caller may retry with different arguments.
pub open spec fn init_next(
    s: EngineState,
    datapath: Option<Seq<char>>,
    language: Option<Seq<char>>,
    status: i32,
) -> EngineState {
    if status == 0 {
        EngineState {
            initialized: true,
            attached: None,
            recognized: false,
            resolution: None,
            datapath: datapath,
            lang: language,
            vars: s.vars,
        }
    } else {
        s
    }
}

/// The state after attaching input `source`: any earlier recognition result
/// and resolution hint applied to the earlier input and are dropped.
pub open spec fn attach_next(s: EngineState, source: ImageSource) -> EngineState {
    EngineState { attached: Some(source), recognized: false, resolution: None, ..s }
}

/// The result of attaching an image decoded from memory: the decode itself
/// may have failed, in which case there is nothing to attach.
pub open spec fn attach_mem_result(decoded: bool) -> Result<(), DecodeError> {
    if decoded {
        Ok(())
    } else {
        Err(DecodeError::NullResult)
    }
}

/// The state after attempting to attach an image decoded from memory.
pub open spec fn attach_mem_next(s: EngineState, decoded: bool) -> EngineState {
    if decoded {
        attach_next(s, ImageSource::Decoded)
    } else {
        s
    }
}

/// The state after recording a source resolution hint of `ppi`.
pub open spec fn resolution_next(s: EngineState, ppi: i32) -> EngineState {
    EngineState { resolution: Some(ppi), ..s }
}

/// The result of setting a variable with foreign status `status`. The
/// polarity is reversed with respect to initialization and recognition:
/// nonzero means success.
pub open spec fn set_variable_result(status: i32) -> Result<(), SetVariableError> {
    if status != 0 {
        Ok(())
    } else {
        Err(SetVariableError::ForeignFailure)
    }
}

/// The state after a variable-set attempt: an accepted pair is appended to
/// the configuration record, a rejected one changes nothing.
pub open spec fn set_variable_next(
    s: EngineState,
    name: Seq<char>,
    value: Seq<char>,
    status: i32,
) -> EngineState {
    if status != 0 {
        EngineState { vars: s.vars.push((name, value)), ..s }
    } else {
        s
    }
}

/// The result of a recognition request. When the session is not ready the
/// request is refused by this layer itself and no foreign status exists to
/// consult; otherwise a zero status means success.
pub open spec fn recognize_result(s: EngineState, status: i32) -> Result<(), RecognizeError> {
    if !ready(s) {
        Err(RecognizeError::NotReady)
    } else if status == 0 {
        Ok(())
    } else {
        Err(RecognizeError::ForeignFailure)
    }
}

/// The state after a recognition request: only a successful request on a
/// ready session marks the input recognized.
pub open spec fn recognize_next(s: EngineState, status: i32) -> EngineState {
    if ready(s) && status == 0 {
        EngineState { recognized: true, ..s }
    } else {
        s
    }
}

/// The result of a text extraction. When the session is not ready the
/// request is refused by this layer itself; otherwise `fetched` is the text
/// the foreign call produced, with `None` standing for a null buffer.
pub open spec fn extract_result(s: EngineState, fetched: Option<Seq<char>>) -> Result<
    Seq<char>,
    ExtractError,
> {
    if !ready(s) {
        Err(ExtractError::NotReady)
    } else {
        match fetched {
            Some(text) => Ok(text),
            None => Err(ExtractError::NullResult),
        }
    }
}

/// The state after a text extraction: a successful extraction implies the
/// engine has recognized the input (it runs recognition itself if that had
/// not been requested explicitly).
pub open spec fn extract_next(s: EngineState, fetched: Option<Seq<char>>) -> EngineState {
    if ready(s) && fetched is Some {
        EngineState { recognized: true, ..s }
    } else {
        s
    }
}

} // verus!
