//! The answer to an inclusion directive, once the file has been looked for.
use crate::blob::{create_blob_from_text, string_from_utf8, Blob, BlobView, Encoding, Ownership};
use crate::error::IncludeNotFound;
use vstd::prelude::*;
use vstd::utf8::valid_utf8;

verus! {

/// What the compiler is given for an inclusion directive.
///
/// `contents` is what reading the file at `path` gave: its bytes, or nothing
/// where the file is missing or cannot be read. A file that holds UTF-8 text
/// is handed on as a blob of that text. A file that is missing, unreadable or
/// no UTF-8 text is reported as not found under the path that was asked for;
/// the compiler then goes on and speaks of it in its own diagnostic.
pub fn resolve(path: &str, contents: Option<Vec<u8>>) -> (found: Result<Blob, IncludeNotFound>)
    ensures
        match contents {
            Some(bytes) if valid_utf8(bytes@) => found is Ok && found.unwrap()@ == (BlobView {
                bytes: bytes@,
                encoding: Encoding::Utf8,
                ownership: Ownership::Caller,
            }),
            _ => found is Err && found.unwrap_err().path@ == path@,
        },
{
    let text = match contents {
        Some(bytes) => {
            proof {
                if valid_utf8(bytes@) {
                    vstd::utf8::decode_utf8_encode_utf8(bytes@);
                }
            }
            string_from_utf8(bytes)
        },
        None => None,
    };
    match text {
        Some(text) => Ok(create_blob_from_text(text.as_str())),
        None => Err(IncludeNotFound { path: path.to_owned() }),
    }
}

} // verus!
