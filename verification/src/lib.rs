//! A safe session layer for an external OCR engine.
//!
//! The engine, the image decoder and the recognized-text buffers live behind a
//! foreign interface that reports outcomes only as status codes and nullable
//! handles. This crate verifies the part of the binding that carries real
//! risk: the session state machine that decides which foreign call is legal in
//! which state, and how each foreign outcome maps to a typed result. The
//! foreign calls themselves are performed by an unverified runner that holds
//! the raw handles, consults the session before every call, and feeds every
//! outcome back into it.

use vstd::prelude::*;

mod engine;
mod errors;
mod laws;
mod pipeline;
mod state;

verus! {

pub use crate::engine::Tesseract;
pub use crate::engine::fetched_view;
pub use crate::engine::opt_str_view;
pub use crate::engine::text_result_view;
pub use crate::errors::DecodeError;
pub use crate::errors::ExtractError;
pub use crate::errors::InitError;
pub use crate::errors::RecognizeError;
pub use crate::errors::SetVariableError;
pub use crate::laws::lemma_extract_without_image_fails;
pub use crate::laws::lemma_failed_decode_changes_nothing;
pub use crate::laws::lemma_implicit_recognition_matches_explicit;
pub use crate::laws::lemma_pipeline_succeeds;
pub use crate::laws::lemma_steps_preserve_wf;
pub use crate::pipeline::ocr;
pub use crate::pipeline::ocr_from_frame;
pub use crate::state::EngineState;
pub use crate::state::ImageSource;
pub use crate::state::attach_mem_next;
pub use crate::state::attach_mem_result;
pub use crate::state::attach_next;
pub use crate::state::extract_next;
pub use crate::state::extract_result;
pub use crate::state::init_next;
pub use crate::state::init_result;
pub use crate::state::initial_state;
pub use crate::state::ready;
pub use crate::state::recognize_next;
pub use crate::state::recognize_result;
pub use crate::state::resolution_next;
pub use crate::state::set_variable_next;
pub use crate::state::set_variable_result;
pub use crate::state::wf;

} // verus!
