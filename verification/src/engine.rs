use vstd::prelude::*;

use crate::errors::DecodeError;
use crate::errors::ExtractError;
use crate::errors::InitError;
use crate::errors::RecognizeError;
use crate::errors::SetVariableError;
use crate::state::EngineState;
use crate::state::ImageSource;
use crate::state::attach_mem_next;
use crate::state::attach_mem_result;
use crate::state::attach_next;
use crate::state::extract_next;
use crate::state::extract_result;
use crate::state::init_next;
use crate::state::init_result;
use crate::state::initial_state;
use crate::state::ready;
use crate::state::recognize_next;
use crate::state::recognize_result;
use crate::state::resolution_next;
use crate::state::set_variable_next;
use crate::state::set_variable_result;

verus! {

/// The view of an `Option<&str>` argument as an optional character sequence.
pub open spec fn opt_str_view(s: Option<&str>) -> Option<Seq<char>> {
    match s {
        Some(t) => Some(t@),
        None => None,
    }
}

/// The view of an `Option<String>` outcome as an optional character sequence.
pub open spec fn fetched_view(fetched: Option<String>) -> Option<Seq<char>> {
    match fetched {
        Some(t) => Some(t@),
        None => None,
    }
}

/// The view of an extraction result as a result over character sequences.
pub open spec fn text_result_view(r: Result<String, ExtractError>) -> Result<
    Seq<char>,
    ExtractError,
> {
    match r {
        Ok(t) => Ok(t@),
        Err(e) => Err(e),
    }
}

/// One OCR engine session.
///
/// The foreign engine instance itself lives with an unverified runner; this
/// type is the session's single source of truth for which foreign call is
/// legal next and for what each foreign outcome means. The runner consults
/// [`Self::is_ready`] before the recognition and extraction calls, performs
/// the permitted call, and passes the reported outcome (a status code, or the
/// fetched text) into the matching method here, which updates the session and
/// produces the typed result the caller sees.
///
/// Every method's contract is exact: the new session state and the returned
/// value are given by the transition functions of [`crate::state`], so that
/// the safety rules — in particular that recognition and extraction are never
/// attempted before an initialization has succeeded and an image is attached
/// — are proved rather than assumed.
pub struct Tesseract {
    initialized: bool,
    attached: Option<ImageSource>,
    recognized: bool,
    resolution: Option<i32>,
    datapath: Ghost<Option<Seq<char>>>,
    lang: Ghost<Option<Seq<char>>>,
    vars: Ghost<Seq<(Seq<char>, Seq<char>)>>,
}

impl View for Tesseract {
    type V = EngineState;

    closed spec fn view(&self) -> EngineState {
        EngineState {
            initialized: self.initialized,
            attached: self.attached,
            recognized: self.recognized,
            resolution: self.resolution,
            datapath: self.datapath@,
            lang: self.lang@,
            vars: self.vars@,
        }
    }
}

impl Tesseract {
    /// Creates a fresh session. The foreign engine instance either exists by
    /// the time the runner pairs it with this session or the process has
    /// aborted, so creation itself cannot fail.
    pub fn new() -> (t: Tesseract)
        ensures
            t@ == initial_state(),
    {
        let t = Tesseract {
            initialized: false,
            attached: None,
            recognized: false,
            resolution: None,
            datapath: Ghost(None),
            lang: Ghost(None),
            vars: Ghost(Seq::empty()),
        };
        t
    }

    /// Whether the recognition and extraction calls are permitted now: an
    /// initialization has succeeded and an image is attached. The runner
    /// must check this before performing either foreign call.
    pub fn is_ready(&self) -> (b: bool)
        ensures
            b == ready(self@),
    {
        self.initialized && self.attached.is_some()
    }

    /// Records the outcome of an initialization attempt with language
    /// `language`, where `status` is the status the foreign initialization
    /// call reported: zero means success. Initialization may be attempted in
    /// any state; a failure leaves the session unchanged so the caller can
    /// retry with different arguments.
    pub fn set_lang(&mut self, language: &str, status: i32) -> (r: Result<(), InitError>)
        ensures
            r == init_result(status),
            final(self)@ == init_next(old(self)@, None, Some(language@), status),
    {
        self.initialize(None, Some(language), status)
    }

    /// Records the outcome of an initialization attempt, where `datapath`
    /// and `language` are the data path and language code that were supplied
    /// (`None` lets the engine fall back to its default search path or
    /// default language) and `status` is the status the foreign call
    /// reported: zero means success.
    ///
    /// A success returns the session to the bare initialized state: any
    /// previously attached input, recognition result and resolution hint are
    /// conservatively treated as stale, so the input must be attached again
    /// before recognition or extraction.
    pub fn initialize(
        &mut self,
        datapath: Option<&str>,
        language: Option<&str>,
        status: i32,
    ) -> (r: Result<(), InitError>)
        ensures
            r == init_result(status),
            final(self)@ == init_next(
                old(self)@,
                opt_str_view(datapath),
                opt_str_view(language),
                status,
            ),
    {
        if status == 0 {
            self.initialized = true;
            self.attached = None;
            self.recognized = false;
            self.resolution = None;
            self.datapath = Ghost(opt_str_view(datapath));
            self.lang = Ghost(opt_str_view(language));
            Ok(())
        } else {
            Err(InitError::ForeignFailure)
        }
    }

    /// Records that an image decoded from a file path was attached to the
    /// engine. The decode itself is the foreign decoder's work; `decoded`
    /// says whether it produced a handle. A caller on this path treats a
    /// failed decode as fatal, so a handle is required to exist.
    pub fn set_image(&mut self, decoded: bool)
        requires
            decoded,
        ensures
            final(self)@ == attach_next(old(self)@, ImageSource::Decoded),
    {
        self.attached = Some(ImageSource::Decoded);
        self.recognized = false;
        self.resolution = None;
    }

    /// Records the outcome of decoding an image from an in-memory byte
    /// buffer and attaching it: `decoded` says whether the foreign decoder
    /// produced a handle. A failed decode attaches nothing and leaves the
    /// session unchanged.
    pub fn set_image_from_mem(&mut self, decoded: bool) -> (r: Result<(), DecodeError>)
        ensures
            r == attach_mem_result(decoded),
            final(self)@ == attach_mem_next(old(self)@, decoded),
    {
        if decoded {
            self.attached = Some(ImageSource::Decoded);
            self.recognized = false;
            self.resolution = None;
            Ok(())
        } else {
            Err(DecodeError::NullResult)
        }
    }

    /// Records that a raw pixel buffer of the given geometry was attached.
    /// The foreign attach call reports no outcome, so attachment always
    /// succeeds at this layer; the pixel bytes themselves go to the foreign
    /// call and play no part in the session's decisions.
    pub fn set_frame(
        &mut self,
        width: i32,
        height: i32,
        bytes_per_pixel: i32,
        bytes_per_line: i32,
    )
        ensures
            final(self)@ == attach_next(
                old(self)@,
                ImageSource::Frame { width, height, bytes_per_pixel, bytes_per_line },
            ),
    {
        self.attached = Some(ImageSource::Frame { width, height, bytes_per_pixel, bytes_per_line });
        self.recognized = false;
        self.resolution = None;
    }

    /// Records a source resolution hint of `ppi` pixels per inch. The hint
    /// is advisory and the foreign call reports no outcome.
    pub fn set_source_resolution(&mut self, ppi: i32)
        ensures
            final(self)@ == resolution_next(old(self)@, ppi),
    {
        self.resolution = Some(ppi);
    }

    /// Records the outcome of setting the variable `name` to `value`, where
    /// `status` is the status the foreign call reported. The polarity is
    /// reversed with respect to initialization and recognition: nonzero
    /// means the engine accepted the variable, zero that it rejected it
    /// (for instance an unknown name). Name and value are assumed to have
    /// been validated against embedded terminators by the boundary layer
    /// that converts them for the foreign call.
    pub fn set_variable(&mut self, name: &str, value: &str, status: i32) -> (r: Result<
        (),
        SetVariableError,
    >)
        ensures
            r == set_variable_result(status),
            final(self)@ == set_variable_next(old(self)@, name@, value@, status),
    {
        if status != 0 {
            self.vars = Ghost(self.vars@.push((name@, value@)));
            Ok(())
        } else {
            Err(SetVariableError::ForeignFailure)
        }
    }

    /// Decides a recognition request. When the session is not ready — no
    /// successful initialization, or no attached image — the request is
    /// refused here, deterministically, and the foreign call must not be
    /// made: `status` is ignored in that case. When the session is ready,
    /// `status` is the status the foreign recognition call reported: zero
    /// means success.
    pub fn recognize(&mut self, status: i32) -> (r: Result<(), RecognizeError>)
        ensures
            r == recognize_result(old(self)@, status),
            final(self)@ == recognize_next(old(self)@, status),
            !ready(old(self)@) ==> r == Err::<(), RecognizeError>(RecognizeError::NotReady)
                && final(self)@ == old(self)@,
    {
        if !self.is_ready() {
            Err(RecognizeError::NotReady)
        } else if status == 0 {
            self.recognized = true;
            Ok(())
        } else {
            Err(RecognizeError::ForeignFailure)
        }
    }

    /// Decides a text-extraction request. When the session is not ready —
    /// in particular whenever no image was ever attached — the request is
    /// refused here, deterministically, and the foreign call must not be
    /// made: `fetched` is ignored in that case. When the session is ready,
    /// `fetched` is the text the foreign extraction call produced, with
    /// `None` standing for a null buffer. A successful extraction implies
    /// recognition has run: the engine runs it itself when it was not
    /// requested explicitly, so extraction directly after attachment is a
    /// legitimate path, not an error.
    pub fn get_text(&mut self, fetched: Option<String>) -> (r: Result<String, ExtractError>)
        ensures
            text_result_view(r) == extract_result(old(self)@, fetched_view(fetched)),
            final(self)@ == extract_next(old(self)@, fetched_view(fetched)),
            old(self)@.attached is None ==> r == Err::<String, ExtractError>(
                ExtractError::NotReady,
            ) && final(self)@ == old(self)@,
    {
        if !self.is_ready() {
            Err(ExtractError::NotReady)
        } else {
            match fetched {
                Some(text) => {
                    self.recognized = true;
                    Ok(text)
                },
                None => Err(ExtractError::NullResult),
            }
        }
    }
}

impl Default for Tesseract {
    /// A fresh session, as [`Tesseract::new`] creates it.
    fn default() -> (t: Tesseract)
        ensures
            t@ == initial_state(),
    {
        Tesseract::new()
    }
}

} // verus!
