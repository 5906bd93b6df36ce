//! Buffers that cross the border to the native toolchain.
use crate::error::EncodingError;
use vstd::prelude::*;
use vstd::slice::slice_to_vec;
use vstd::string::StrSliceExecFns;
use vstd::string::StringSliceAdditionalSpecFns;
use vstd::utf8::{decode_utf8, encode_utf8, valid_utf8};

verus! {

/// The text encoding that a blob declares for its bytes.
#[derive(Clone, Copy, Debug, PartialEq, Eq, Structural)]
pub enum Encoding {
    /// The bytes are UTF-8.
    Utf8,
    /// The bytes are UTF-16 code units, each stored low byte first.
    Utf16,
    /// Nothing is declared. Such bytes are read as UTF-8 when text is asked for.
    Unspecified,
}

/// Who made a blob.
#[derive(Clone, Copy, Debug, PartialEq, Eq, Structural)]
pub enum Ownership {
    /// The blob was built from a string or a byte slice of the caller.
    Caller,
    /// The blob came back from a compile or a validate call.
    Toolchain,
}

/// A byte buffer with an encoding tag.
///
/// Nothing changes a blob once it is made, and its bytes are read by copying
/// them out.
#[derive(Clone, Debug, PartialEq, Eq)]
pub struct Blob {
    bytes: Vec<u8>,
    encoding: Encoding,
    ownership: Ownership,
}

/// The mathematical value of a [`Blob`].
pub struct BlobView {
    pub bytes: Seq<u8>,
    pub encoding: Encoding,
    pub ownership: Ownership,
}

impl View for Blob {
    type V = BlobView;

    closed spec fn view(&self) -> BlobView {
        BlobView { bytes: self.bytes@, encoding: self.encoding, ownership: self.ownership }
    }
}

/// What the standard library's UTF-16 decoder makes of a sequence of code
/// units: the text, or nothing where the units are no valid UTF-16.
pub uninterp spec fn utf16_text(units: Seq<u16>) -> Option<Seq<char>>;

/// The code units that a byte sequence of even length spells, low byte first.
pub open spec fn code_units(bytes: Seq<u8>) -> Seq<u16> {
    Seq::new(
        (bytes.len() / 2) as nat,
        |i: int| (bytes[2 * i] as int + 256 * (bytes[2 * i + 1] as int)) as u16,
    )
}

/// The text that `bytes` spell under `encoding`, or nothing where they spell none.
pub open spec fn decoded(bytes: Seq<u8>, encoding: Encoding) -> Option<Seq<char>> {
    match encoding {
        Encoding::Utf16 => if bytes.len() % 2 == 0 {
            utf16_text(code_units(bytes))
        } else {
            None
        },
        _ => if valid_utf8(bytes) {
            Some(decode_utf8(bytes))
        } else {
            None
        },
    }
}

/// Calls `String::from_utf8`. The claim: it gives a string exactly when the
/// bytes are valid UTF-8, and the string is then the text that they decode to.
#[verifier::external_body]
pub(crate) fn string_from_utf8(bytes: Vec<u8>) -> (text: Option<String>)
    ensures
        text is Some <==> valid_utf8(bytes@),
        text matches Some(s) ==> s@ == decode_utf8(bytes@),
{
    String::from_utf8(bytes).ok()
}

/// Calls `String::from_utf16`. The claim: the answer depends on the code units
/// alone, and is the string that [`utf16_text`] names, or nothing where it
/// names none.
#[verifier::external_body]
fn string_from_utf16(units: &Vec<u16>) -> (text: Option<String>)
    ensures
        text is Some <==> utf16_text(units@) is Some,
        text matches Some(s) ==> utf16_text(units@) == Some(s@),
{
    String::from_utf16(units).ok()
}

/// Pairs the bytes up into code units, low byte first.
fn pair_code_units(bytes: &Vec<u8>) -> (units: Vec<u16>)
    requires
        bytes@.len() % 2 == 0,
    ensures
        units@ == code_units(bytes@),
{
    let mut units: Vec<u16> = Vec::new();
    let mut i: usize = 0;
    while i < bytes.len()
        invariant
            bytes@.len() % 2 == 0,
            i % 2 == 0,
            i <= bytes@.len(),
            units@.len() == i / 2,
            forall|k: int| 0 <= k < units@.len() ==> units@[k] == code_units(bytes@)[k],
        decreases bytes@.len() - i,
    {
        let low: u16 = bytes[i] as u16;
        let high: u16 = bytes[i + 1] as u16;
        units.push(low + 256 * high);
        i = i + 2;
    }
    assert(units@ =~= code_units(bytes@));
    units
}

impl Blob {
    /// A blob that the toolchain handed back, with the encoding it declared.
    pub fn from_toolchain(bytes: Vec<u8>, encoding: Encoding) -> (blob: Blob)
        ensures
            blob@ == (BlobView { bytes: bytes@, encoding, ownership: Ownership::Toolchain }),
    {
        Blob { bytes, encoding, ownership: Ownership::Toolchain }
    }

    /// A copy of the blob's bytes.
    pub fn to_vec(&self) -> (bytes: Vec<u8>)
        ensures
            bytes@ == self@.bytes,
    {
        slice_to_vec(self.bytes.as_slice())
    }

    /// The number of bytes in the blob.
    pub fn len(&self) -> (n: usize)
        ensures
            n == self@.bytes.len(),
    {
        self.bytes.len()
    }

    /// Whether the blob holds no bytes.
    pub fn is_empty(&self) -> (b: bool)
        ensures
            b == (self@.bytes.len() == 0),
    {
        self.bytes.len() == 0
    }

    /// The encoding that the blob declares.
    pub fn encoding(&self) -> (encoding: Encoding)
        ensures
            encoding == self@.encoding,
    {
        self.encoding
    }

    /// Who made the blob.
    pub fn ownership(&self) -> (ownership: Ownership)
        ensures
            ownership == self@.ownership,
    {
        self.ownership
    }
}

/// Wraps text for the toolchain: the bytes are the text's UTF-8 encoding, and
/// the blob says so, which leaves the toolchain nothing to guess.
pub fn create_blob_from_text(text: &str) -> (blob: Blob)
    ensures
        blob@ == (BlobView {
            bytes: encode_utf8(text@),
            encoding: Encoding::Utf8,
            ownership: Ownership::Caller,
        }),
{
    Blob { bytes: text.as_bytes_vec(), encoding: Encoding::Utf8, ownership: Ownership::Caller }
}

/// Wraps raw bytes for the toolchain, unchanged and with no encoding declared.
pub fn create_blob_from_bytes(bytes: &[u8]) -> (blob: Blob)
    ensures
        blob@ == (BlobView {
            bytes: bytes@,
            encoding: Encoding::Unspecified,
            ownership: Ownership::Caller,
        }),
{
    Blob { bytes: slice_to_vec(bytes), encoding: Encoding::Unspecified, ownership: Ownership::Caller }
}

/// Reads a blob as text.
///
/// The bytes are decoded under the encoding that the blob declares, and as
/// UTF-8 where it declares none. Bytes that are no text in that encoding give
/// an [`EncodingError`].
pub fn blob_to_string(blob: &Blob) -> (text: Result<String, EncodingError>)
    ensures
        decoded(blob@.bytes, blob@.encoding) matches Some(t) ==> text is Ok && text.unwrap()@ == t,
        decoded(blob@.bytes, blob@.encoding) is None ==> text is Err,
{
    let decoding = match blob.encoding {
        Encoding::Utf16 => {
            if blob.bytes.len() % 2 == 0 {
                let units = pair_code_units(&blob.bytes);
                string_from_utf16(&units)
            } else {
                None
            }
        },
        _ => string_from_utf8(blob.to_vec()),
    };
    match decoding {
        Some(s) => Ok(s),
        None => Err(EncodingError),
    }
}

/// Text that was wrapped with [`create_blob_from_text`] reads back unchanged.
pub proof fn lemma_text_round_trip(text: Seq<char>)
    ensures
        decoded(encode_utf8(text), Encoding::Utf8) == Some(text),
        decoded(encode_utf8(text), Encoding::Unspecified) == Some(text),
{
    vstd::utf8::encode_utf8_valid_utf8(text);
    vstd::utf8::encode_utf8_decode_utf8(text);
}

} // verus!
