//! What a toolchain stage answered, and how the answer becomes a typed result.
use crate::blob::{blob_to_string, decoded, Blob, BlobView};
use crate::error::{EncodingError, ErrorView, HassleError};
use vstd::prelude::*;

verus! {

/// One of the two stages that source passes through.
#[derive(Clone, Copy, Debug, PartialEq, Eq, Structural)]
pub enum Stage {
    /// Source text to intermediate representation.
    Compilation,
    /// Intermediate representation to a validated, signed binary.
    Validation,
}

/// The answer of one toolchain stage.
///
/// The native result object carries a status flag and two buffers. The flag is
/// asked once, where the object is received, and only the buffer that belongs
/// to that status is taken along.
#[derive(Clone, Debug, PartialEq, Eq)]
pub enum Outcome {
    /// The stage succeeded; the blob is what it produced.
    Success(Blob),
    /// The stage failed; the blob is its diagnostic buffer.
    Failure(Blob),
}

/// The answer of the compilation stage.
pub type CompileOutcome = Outcome;

/// The answer of the validation stage.
pub type ValidationOutcome = Outcome;

/// The mathematical value of an [`Outcome`].
pub enum OutcomeView {
    Success(BlobView),
    Failure(BlobView),
}

impl View for Outcome {
    type V = OutcomeView;

    open spec fn view(&self) -> OutcomeView {
        match self {
            Outcome::Success(payload) => OutcomeView::Success(payload@),
            Outcome::Failure(diagnostic) => OutcomeView::Failure(diagnostic@),
        }
    }
}

/// The error that a failed stage is reported with, given its diagnostic text.
pub open spec fn stage_error(stage: Stage, text: Seq<char>) -> ErrorView {
    match stage {
        Stage::Compilation => ErrorView::CompileError(text),
        Stage::Validation => ErrorView::ValidationError(text),
    }
}

/// The error that a failed stage is reported with, given what reading its
/// diagnostic buffer as text gave.
pub open spec fn failure_view(stage: Stage, text: Option<Seq<char>>) -> ErrorView {
    match text {
        Some(text) => stage_error(stage, text),
        None => ErrorView::EncodingError,
    }
}

/// What an outcome of `stage` means: the payload of a success, or the error
/// that a failure is reported with.
pub open spec fn translated(stage: Stage, outcome: OutcomeView) -> Result<BlobView, ErrorView> {
    match outcome {
        OutcomeView::Success(payload) => Ok(payload),
        OutcomeView::Failure(diagnostic) => Err(
            failure_view(stage, decoded(diagnostic.bytes, diagnostic.encoding)),
        ),
    }
}

/// The text that reading a diagnostic buffer gave, if it gave one.
pub open spec fn text_view(text: Result<String, EncodingError>) -> Option<Seq<char>> {
    match text {
        Ok(text) => Some(text@),
        Err(_) => None,
    }
}

/// The mathematical value of a translated outcome.
pub open spec fn payload_view(r: Result<Blob, HassleError>) -> Result<BlobView, ErrorView> {
    match r {
        Ok(payload) => Ok(payload@),
        Err(error) => Err(error@),
    }
}

impl Outcome {
    /// The outcome that a status flag and the buffer read for it stand for.
    pub fn from_status(succeeded: bool, buffer: Blob) -> (outcome: Outcome)
        ensures
            outcome@ == if succeeded {
                OutcomeView::Success(buffer@)
            } else {
                OutcomeView::Failure(buffer@)
            },
    {
        if succeeded {
            Outcome::Success(buffer)
        } else {
            Outcome::Failure(buffer)
        }
    }

    /// Whether the stage succeeded.
    pub fn is_success(&self) -> (b: bool)
        ensures
            b == (self@ is Success),
    {
        match self {
            Outcome::Success(_) => true,
            Outcome::Failure(_) => false,
        }
    }
}

/// The error for a failed `stage`, given what reading its diagnostic buffer
/// gave: the stage's own error around the text, or `EncodingError` where the
/// buffer was no text. The two are told apart by the variant.
pub fn failure(stage: Stage, text: Result<String, EncodingError>) -> (error: HassleError)
    ensures
        error@ == failure_view(stage, text_view(text)),
{
    match text {
        Ok(text) => match stage {
            Stage::Compilation => HassleError::CompileError(text),
            Stage::Validation => HassleError::ValidationError(text),
        },
        Err(_) => HassleError::EncodingError,
    }
}

/// Turns the answer of `stage` into a payload or a typed error.
///
/// A success yields its payload untouched. A failure yields the stage's error
/// with the diagnostic buffer decoded to text, or `EncodingError` where the
/// buffer is no text in its encoding.
pub fn translate(stage: Stage, outcome: Outcome) -> (r: Result<Blob, HassleError>)
    ensures
        payload_view(r) == translated(stage, outcome@),
{
    match outcome {
        Outcome::Success(payload) => Ok(payload),
        Outcome::Failure(diagnostic) => Err(failure(stage, blob_to_string(&diagnostic))),
    }
}

} // verus!
