//! The codec between documents and the column that stores them.
//!
//! A document is stored as JSON text. Reading one back has two stages, which fail apart: the
//! stored bytes are parsed into a document of any shape, and that document is mapped onto the
//! type that the caller asked for.

use vstd::prelude::*;

verus! {

/// A document of any shape, as `serde_json` holds it.
#[verifier::external_type_specification]
#[verifier::external_body]
pub struct ExValue(serde_json::Value);

/// What `serde_json` reports when it can not write or read a document.
#[verifier::external_type_specification]
#[verifier::external_body]
pub struct ExError(serde_json::Error);

/// Whether `serde_json::from_slice` reads `bytes` as one document.
pub uninterp spec fn parses(bytes: Seq<u8>) -> bool;

/// The document that `serde_json::from_slice` reads from `bytes`, where it reads one.
pub uninterp spec fn document_of(bytes: Seq<u8>) -> serde_json::Value;

/// `serde_json::from_slice` at the type `serde_json::Value`: reads `bytes` as one JSON
/// document of any shape. Believed, not proved: whether it succeeds, and the document that it
/// gives, depend on the bytes alone. Nothing is claimed of the error.
#[verifier::external_body]
fn from_slice(bytes: &[u8]) -> (outcome: Result<serde_json::Value, serde_json::Error>)
    ensures
        outcome is Ok == parses(bytes@),
        outcome matches Ok(document) ==> document == document_of(bytes@),
{
    serde_json::from_slice::<serde_json::Value>(bytes)
}

/// What a document holds, as the JSON text that `serde_json::to_string` writes for it.
pub uninterp spec fn json_text(document: serde_json::Value) -> Seq<char>;

/// `serde_json::to_string` at the type `serde_json::Value`: writes a document as JSON text.
/// Believed, not proved: it succeeds on every document, and the text that it gives depends on
/// the document alone. The writer fails only where the sink fails or a key of an object is
/// no string; here the sink is a vector in memory, and the keys of a document are strings.
#[verifier::external_body]
fn to_string(document: &serde_json::Value) -> (outcome: Result<String, serde_json::Error>)
    ensures
        outcome is Ok,
        outcome matches Ok(text) ==> text@ == json_text(*document),
{
    serde_json::to_string::<serde_json::Value>(document)
}

/// What a column of a row holds.
#[derive(Debug)]
pub enum ColumnValue {
    /// Nothing.
    Null,
    /// An integer.
    Integer(i64),
    /// A floating-point number, which no document is read from.
    Real,
    /// Text, as its bytes.
    Text(Vec<u8>),
    /// Bytes.
    Blob(Vec<u8>),
}

impl ColumnValue {
    /// The bytes of a stored document: those of a text or of a blob. No other column holds
    /// a document.
    pub open spec fn stored_spec(&self) -> Option<Seq<u8>> {
        match self {
            ColumnValue::Text(bytes) => Some(bytes@),
            ColumnValue::Blob(bytes) => Some(bytes@),
            _ => None,
        }
    }

    /// The bytes of the stored document, if the column can hold one.
    pub fn stored(&self) -> (bytes: Option<&Vec<u8>>)
        ensures
            match bytes {
                Some(b) => self.stored_spec() == Some(b@),
                None => self.stored_spec() is None,
            },
    {
        match self {
            ColumnValue::Text(bytes) => Some(bytes),
            ColumnValue::Blob(bytes) => Some(bytes),
            _ => None,
        }
    }
}

/// Why a document could not be written or read.
#[derive(Debug)]
pub enum CodecError {
    /// The column holds neither text nor bytes.
    InvalidType,
    /// The stored bytes are no document.
    Malformed(serde_json::Error),
    /// The stored document does not have the shape of the type asked for.
    Incompatible(serde_json::Error),
    /// The value can not be written as a document.
    Unencodable(serde_json::Error),
}

/// The outcome of writing a value as a document: the text, or the failure as
/// [`CodecError::Unencodable`].
pub fn encoded(outcome: Result<String, serde_json::Error>) -> (text: Result<String, CodecError>)
    ensures
        text == match outcome {
            Ok(t) => Ok::<String, CodecError>(t),
            Err(e) => Err(CodecError::Unencodable(e)),
        },
{
    match outcome {
        Ok(t) => Ok(t),
        Err(e) => Err(CodecError::Unencodable(e)),
    }
}

/// The outcome of the first stage of reading: the document, or the failure as
/// [`CodecError::Malformed`].
pub fn parsed<D>(outcome: Result<D, serde_json::Error>) -> (document: Result<D, CodecError>)
    ensures
        document == match outcome {
            Ok(d) => Ok::<D, CodecError>(d),
            Err(e) => Err(CodecError::Malformed(e)),
        },
{
    match outcome {
        Ok(d) => Ok(d),
        Err(e) => Err(CodecError::Malformed(e)),
    }
}

/// The outcome of the second stage of reading: the value, or the failure as
/// [`CodecError::Incompatible`].
pub fn typed<T>(outcome: Result<T, serde_json::Error>) -> (value: Result<T, CodecError>)
    ensures
        value == match outcome {
            Ok(t) => Ok::<T, CodecError>(t),
            Err(e) => Err(CodecError::Incompatible(e)),
        },
{
    match outcome {
        Ok(t) => Ok(t),
        Err(e) => Err(CodecError::Incompatible(e)),
    }
}

/// Writes a document as the text that the document column stores: its JSON text. Every
/// document can be written; [`CodecError::Unencodable`] is for values of other types, which
/// may fail before they are documents.
pub fn encode(document: &serde_json::Value) -> (text: Result<String, CodecError>)
    ensures
        text matches Ok(written) && written@ == json_text(*document),
{
    encoded(to_string(document))
}

/// The first stage of reading: parses what a column holds into a document of any shape.
///
/// A column that holds neither text nor bytes is an [`CodecError::InvalidType`], whatever it
/// holds; bytes that are no document are [`CodecError::Malformed`].
pub fn parse(column: &ColumnValue) -> (document: Result<serde_json::Value, CodecError>)
    ensures
        match document {
            Ok(read) => column.stored_spec() matches Some(bytes) && parses(bytes) && read
                == document_of(bytes),
            Err(CodecError::InvalidType) => column.stored_spec() is None,
            Err(CodecError::Malformed(_)) => column.stored_spec() matches Some(bytes) && !parses(
                bytes,
            ),
            Err(_) => false,
        },
{
    match column.stored() {
        Some(bytes) => parsed(from_slice(bytes.as_slice())),
        None => Err(CodecError::InvalidType),
    }
}

/// Reads what a column holds as a value of the type `T`, in two stages: [`parse`], and then
/// `map`, which maps the parsed document onto `T` or says why it does not fit.
///
/// The two stages fail apart: bytes that are no document are [`CodecError::Malformed`], a
/// document that `map` turns down is [`CodecError::Incompatible`] with what `map` reported,
/// and a column that holds neither text nor bytes is an [`CodecError::InvalidType`] before
/// either stage. A value comes back only as what `map` made of the document that was parsed
/// from the bytes of the column.
pub fn decode<T, F: FnOnce(serde_json::Value) -> Result<T, serde_json::Error>>(
    column: &ColumnValue,
    map: F,
) -> (value: Result<T, CodecError>)
    requires
        forall|document: serde_json::Value| call_requires(map, (document,)),
    ensures
        match value {
            Ok(t) => column.stored_spec() matches Some(bytes) && parses(bytes) && call_ensures(
                map,
                (document_of(bytes),),
                Ok::<T, serde_json::Error>(t),
            ),
            Err(CodecError::InvalidType) => column.stored_spec() is None,
            Err(CodecError::Malformed(_)) => column.stored_spec() matches Some(bytes) && !parses(
                bytes,
            ),
            Err(CodecError::Incompatible(e)) => column.stored_spec() matches Some(bytes) && parses(
                bytes,
            ) && call_ensures(map, (document_of(bytes),), Err::<T, serde_json::Error>(e)),
            Err(CodecError::Unencodable(_)) => false,
        },
{
    match parse(column) {
        Ok(document) => typed(map(document)),
        Err(error) => Err(error),
    }
}

} // verus!
