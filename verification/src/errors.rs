use vstd::prelude::*;

verus! {

/// Failure of an image decode: the foreign decoder returned a null handle.
/// The foreign interface reports nothing beyond the null result, so no finer
/// cause (unreadable path, malformed bytes, unsupported codec) is recorded.
#[derive(Clone, Copy, Debug, PartialEq, Eq, Structural)]
pub enum DecodeError {
    NullResult,
}

/// Failure of engine initialization: the foreign call reported a nonzero
/// status. The handle stays usable for a retry with different arguments.
#[derive(Clone, Copy, Debug, PartialEq, Eq, Structural)]
pub enum InitError {
    ForeignFailure,
}

/// Failure to set a tunable engine variable: the foreign call reported its
/// failure status (zero — the polarity is reversed with respect to the
/// initialization and recognition calls).
#[derive(Clone, Copy, Debug, PartialEq, Eq, Structural)]
pub enum SetVariableError {
    ForeignFailure,
}

/// Failure of a recognition request. `NotReady` is produced by this layer
/// itself, before any foreign call, when the session is not initialized or no
/// image is attached; `ForeignFailure` records a nonzero foreign status.
#[derive(Clone, Copy, Debug, PartialEq, Eq, Structural)]
pub enum RecognizeError {
    NotReady,
    ForeignFailure,
}

/// Failure of a text extraction. `NotReady` is produced by this layer itself,
/// before any foreign call, when the session is not initialized or no image is
/// attached; `NullResult` records a null foreign text buffer.
#[derive(Clone, Copy, Debug, PartialEq, Eq, Structural)]
pub enum ExtractError {
    NotReady,
    NullResult,
}

} // verus!
