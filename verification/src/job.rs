//! One run of source through the two stages, told as a sequence of requests.
use crate::blob::{create_blob_from_bytes, Blob, BlobView, Encoding, Ownership};
use crate::error::{ErrorView, HassleError};
use crate::outcome::{translate, translated, Outcome, OutcomeView, Stage};
use vstd::prelude::*;

verus! {

/// Everything that the compiler is given for one compilation.
#[derive(Clone, Debug, PartialEq, Eq)]
pub struct CompileRequest {
    /// The source text, wrapped as UTF-8.
    pub source: Blob,
    /// The name under which diagnostics speak of the source. Nothing is read
    /// from it.
    pub source_name: String,
    /// The entry function, where the target profile has one.
    pub entry_point: Option<String>,
    /// The target profile, in the toolchain's own grammar.
    pub target_profile: String,
    /// Further arguments, passed through as they are.
    pub args: Vec<String>,
    /// Preprocessor definitions: a name and, optionally, a value.
    pub defines: Vec<(String, Option<String>)>,
}

/// The mathematical value of a [`CompileRequest`].
pub struct RequestView {
    pub source: BlobView,
    pub source_name: Seq<char>,
    pub entry_point: Option<Seq<char>>,
    pub target_profile: Seq<char>,
    pub args: Seq<Seq<char>>,
    pub defines: Seq<(Seq<char>, Option<Seq<char>>)>,
}

impl View for CompileRequest {
    type V = RequestView;

    open spec fn view(&self) -> RequestView {
        RequestView {
            source: self.source@,
            source_name: self.source_name@,
            entry_point: self.entry_point.deep_view(),
            target_profile: self.target_profile@,
            args: self.args.deep_view(),
            defines: self.defines.deep_view(),
        }
    }
}

/// Where a run stands: what the toolchain is to do next, or how the run ended.
#[derive(Debug, PartialEq, Eq)]
pub enum Job {
    /// The compiler is to compile this request.
    Compile(CompileRequest),
    /// The validator is to validate this blob.
    Validate(Blob),
    /// The run is over: the validated bytes, or the error.
    Done(Result<Vec<u8>, HassleError>),
}

/// The mathematical value of a [`Job`].
pub enum JobView {
    Compile(RequestView),
    Validate(BlobView),
    Done(Result<Seq<u8>, ErrorView>),
}

/// The mathematical value of a run's result.
pub open spec fn result_view(r: Result<Vec<u8>, HassleError>) -> Result<Seq<u8>, ErrorView> {
    match r {
        Ok(bytes) => Ok(bytes@),
        Err(error) => Err(error@),
    }
}

impl View for Job {
    type V = JobView;

    open spec fn view(&self) -> JobView {
        match self {
            Job::Compile(request) => JobView::Compile(request@),
            Job::Validate(blob) => JobView::Validate(blob@),
            Job::Done(result) => JobView::Done(result_view(*result)),
        }
    }
}

/// The blob in which bytes are handed to the validator: the same bytes,
/// wrapped anew with no encoding declared.
pub open spec fn validation_blob(bytes: Seq<u8>) -> BlobView {
    BlobView { bytes, encoding: Encoding::Unspecified, ownership: Ownership::Caller }
}

impl JobView {
    /// Which stage the run is waiting for, if it waits for one.
    pub open spec fn pending(self) -> Option<Stage> {
        match self {
            JobView::Compile(_) => Some(Stage::Compilation),
            JobView::Validate(_) => Some(Stage::Validation),
            JobView::Done(_) => None,
        }
    }

    /// Where the run stands once the pending stage has answered `outcome`.
    ///
    /// A failed stage ends the run with that stage's error. Compiled bytes go
    /// on to validation, wrapped anew; validated bytes end the run. A run that
    /// is over stays as it is.
    pub open spec fn advance(self, outcome: OutcomeView) -> JobView {
        match self {
            JobView::Compile(_) => match translated(Stage::Compilation, outcome) {
                Ok(compiled) => JobView::Validate(validation_blob(compiled.bytes)),
                Err(error) => JobView::Done(Err(error)),
            },
            JobView::Validate(_) => match translated(Stage::Validation, outcome) {
                Ok(validated) => JobView::Done(Ok(validated.bytes)),
                Err(error) => JobView::Done(Err(error)),
            },
            JobView::Done(result) => JobView::Done(result),
        }
    }
}

/// The result of a whole run, given what the two stages answer.
///
/// The validation outcome is looked at only where compilation succeeded.
pub open spec fn pipeline_result(compilation: OutcomeView, validation: OutcomeView) -> Result<
    Seq<u8>,
    ErrorView,
> {
    match translated(Stage::Compilation, compilation) {
        Err(error) => Err(error),
        Ok(_) => match translated(Stage::Validation, validation) {
            Err(error) => Err(error),
            Ok(validated) => Ok(validated.bytes),
        },
    }
}

impl Job {
    /// Which stage the run is waiting for, if it waits for one.
    pub fn pending(&self) -> (stage: Option<Stage>)
        ensures
            stage == self@.pending(),
    {
        match self {
            Job::Compile(_) => Some(Stage::Compilation),
            Job::Validate(_) => Some(Stage::Validation),
            Job::Done(_) => None,
        }
    }

    /// Takes the answer of the pending stage and says what comes next.
    pub fn advance(self, outcome: Outcome) -> (next: Job)
        ensures
            next@ == self@.advance(outcome@),
    {
        match self {
            Job::Compile(_) => match translate(Stage::Compilation, outcome) {
                Ok(compiled) => {
                    let data = compiled.to_vec();
                    Job::Validate(create_blob_from_bytes(data.as_slice()))
                },
                Err(error) => Job::Done(Err(error)),
            },
            Job::Validate(_) => match translate(Stage::Validation, outcome) {
                Ok(validated) => Job::Done(Ok(validated.to_vec())),
                Err(error) => Job::Done(Err(error)),
            },
            Job::Done(result) => Job::Done(result),
        }
    }

    /// The result of the run, once it is over.
    pub fn finish(self) -> (result: Option<Result<Vec<u8>, HassleError>>)
        ensures
            self@ matches JobView::Done(r) ==> result is Some && result_view(result.unwrap()) == r,
            !(self@ is Done) ==> result is None,
    {
        match self {
            Job::Done(result) => Some(result),
            _ => None,
        }
    }
}

} // verus!
