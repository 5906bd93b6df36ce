//! The failures that the pipeline reports.
use vstd::prelude::*;

verus! {

/// Why constructing a pack, or running source through it, failed.
#[derive(Clone, Debug, PartialEq, Eq)]
pub enum HassleError {
    /// A native module, or an entry symbol in it, could not be resolved.
    LoadError,
    /// A subsystem's factory refused to create a service.
    CreationError,
    /// The compiler reported failure; the text is its decoded diagnostic.
    CompileError(String),
    /// The validator reported failure; the text is its decoded diagnostic.
    ValidationError(String),
    /// A diagnostic buffer was not valid text in its encoding.
    EncodingError,
}

/// The mathematical value of a [`HassleError`].
pub enum ErrorView {
    LoadError,
    CreationError,
    CompileError(Seq<char>),
    ValidationError(Seq<char>),
    EncodingError,
}

impl View for HassleError {
    type V = ErrorView;

    open spec fn view(&self) -> ErrorView {
        match self {
            HassleError::LoadError => ErrorView::LoadError,
            HassleError::CreationError => ErrorView::CreationError,
            HassleError::CompileError(text) => ErrorView::CompileError(text@),
            HassleError::ValidationError(text) => ErrorView::ValidationError(text@),
            HassleError::EncodingError => ErrorView::EncodingError,
        }
    }
}

impl ErrorView {
    /// The diagnostic text that the error carries, if it carries one.
    pub open spec fn diagnostic(self) -> Option<Seq<char>> {
        match self {
            ErrorView::CompileError(text) => Some(text),
            ErrorView::ValidationError(text) => Some(text),
            _ => None,
        }
    }
}

impl HassleError {
    /// The diagnostic text that the toolchain gave, if the error carries one.
    pub fn diagnostic(&self) -> (text: Option<&String>)
        ensures
            self@.diagnostic() matches Some(t) ==> text is Some && text.unwrap()@ == t,
            self@.diagnostic() is None ==> text is None,
    {
        match self {
            HassleError::CompileError(text) => Some(text),
            HassleError::ValidationError(text) => Some(text),
            _ => None,
        }
    }
}

/// The bytes of a blob are not text in the blob's encoding.
#[derive(Clone, Copy, Debug, PartialEq, Eq, Structural)]
pub struct EncodingError;

/// A file named by an inclusion directive could not be read.
#[derive(Clone, Debug, PartialEq, Eq)]
pub struct IncludeNotFound {
    /// The path as the directive gave it.
    pub path: String,
}

} // verus!
