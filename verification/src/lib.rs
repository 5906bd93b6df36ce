//! A host-side pipeline that turns shader source text into a validated binary.
//!
//! The native compiler and validator are driven by the caller. This crate holds
//! everything that is decided around those calls: in which order the five native
//! resources of a [`DxcPack`] are acquired and released, what is handed to the
//! compiler and to the validator, and how their answers become bytes or a typed
//! error. Every decision is a function from plain values to plain values, and
//! each one is proved against its contract.
pub mod blob;
pub mod error;
pub mod job;
pub mod laws;
pub mod lifecycle;
pub mod outcome;
pub mod pack;
pub mod resolver;
pub mod resource;

pub use crate::blob::{
    blob_to_string, create_blob_from_bytes, create_blob_from_text, Blob, Encoding, Ownership,
};
pub use crate::error::{EncodingError, HassleError, IncludeNotFound};
pub use crate::job::{CompileRequest, Job};
pub use crate::lifecycle::{Event, PackModel, Phase, Record, Step};
pub use crate::outcome::{
    failure, translate, CompileOutcome, Outcome, Stage, ValidationOutcome,
};
pub use crate::pack::DxcPack;
pub use crate::resolver::resolve;
pub use crate::resource::Resource;
