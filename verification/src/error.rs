//! Failures of the binding, and how a failed load is told apart by what the
//! native layer left behind.

use vstd::prelude::*;
use vstd::utf8::{decode_utf8, decode_utf8_encode_utf8, encode_utf8, valid_utf8};

verus! {

/// What error introspection handed back after a load that returned no handle.
#[derive(Debug, PartialEq, Eq)]
pub enum ErrorRecord {
    /// The native layer had no record to give: the query itself returned null.
    Absent,
    /// The bytes of the record's message, as the native layer wrote them.
    Payload(Vec<u8>),
}

impl View for ErrorRecord {
    type V = Option<Seq<u8>>;

    open spec fn view(&self) -> Option<Seq<u8>> {
        match self {
            ErrorRecord::Absent => None,
            ErrorRecord::Payload(bytes) => Some(bytes@),
        }
    }
}

/// A failure that a constructor of the binding reports to its caller.
#[derive(Debug, PartialEq, Eq)]
pub enum Error {
    /// Setting up the native context failed.
    InitializationError,
    /// The native layer reported a message that could be read.
    Native(String),
    /// The native layer signalled failure and produced no error record.
    Unavailable,
    /// The native layer produced an error record that is not text.
    Undecodable,
}

/// The mathematical value of an [`Error`].
pub enum ErrorView {
    InitializationError,
    Native(Seq<char>),
    Unavailable,
    Undecodable,
}

impl View for Error {
    type V = ErrorView;

    open spec fn view(&self) -> ErrorView {
        match self {
            Error::InitializationError => ErrorView::InitializationError,
            Error::Native(message) => ErrorView::Native(message@),
            Error::Unavailable => ErrorView::Unavailable,
            Error::Undecodable => ErrorView::Undecodable,
        }
    }
}

impl ErrorView {
    /// The text that describes the failure to a reader.
    pub open spec fn message(self) -> Seq<char> {
        match self {
            ErrorView::InitializationError => "native context setup failed"@,
            ErrorView::Native(message) => message,
            ErrorView::Unavailable => "unknown error — native binding inconsistency"@,
            ErrorView::Undecodable => "unknown error — text decoding failed"@,
        }
    }
}

/// The failure that a load without a handle amounts to, by its error record:
/// no record at all, a record that is not UTF-8, or the text of the record.
pub open spec fn failure(record: Option<Seq<u8>>) -> ErrorView {
    match record {
        None => ErrorView::Unavailable,
        Some(bytes) => if valid_utf8(bytes) {
            ErrorView::Native(decode_utf8(bytes))
        } else {
            ErrorView::Undecodable
        },
    }
}

/// The three failures of a load exclude each other and cover every record: a
/// missing record is `Unavailable`, a record that is not UTF-8 is
/// `Undecodable`, and a record that is UTF-8 is `Native` with exactly the text
/// that the record's bytes encode.
pub proof fn lemma_failure_tiers(record: Option<Seq<u8>>)
    ensures
        failure(record) is Unavailable <==> record is None,
        failure(record) is Undecodable <==> (record matches Some(bytes) && !valid_utf8(bytes)),
        failure(record) is Native <==> (record matches Some(bytes) && valid_utf8(bytes)),
        failure(record) matches ErrorView::Native(text) ==> text == decode_utf8(record->0)
            && encode_utf8(text) == record->0,
        !(failure(record) is InitializationError),
{
    if let Some(bytes) = record {
        if valid_utf8(bytes) {
            decode_utf8_encode_utf8(bytes);
        }
    }
}

/// Decodes a record's payload with `String::from_utf8` of the standard library.
///
/// Trusted, not proved: the conversion succeeds exactly on the byte sequences
/// that are well-formed UTF-8, and the string it then gives holds the
/// characters that those bytes encode, in order.
#[verifier::external_body]
fn decode_payload(payload: Vec<u8>) -> (text: Option<String>)
    ensures
        text is Some <==> valid_utf8(payload@),
        text matches Some(decoded) ==> decoded@ == decode_utf8(payload@),
{
    match String::from_utf8(payload) {
        Ok(decoded) => Some(decoded),
        Err(_) => None,
    }
}

impl Error {
    /// Tells the three failures of a load apart by the record that error
    /// introspection returned.
    pub fn from_error_information(error_information: ErrorRecord) -> (error: Error)
        ensures
            error@ == failure(error_information@),
    {
        match error_information {
            ErrorRecord::Absent => Error::Unavailable,
            ErrorRecord::Payload(payload) => match decode_payload(payload) {
                Some(message) => Error::Native(message),
                None => Error::Undecodable,
            },
        }
    }

    /// The text that describes the failure to a reader.
    pub fn message(&self) -> (text: String)
        ensures
            text@ == self@.message(),
    {
        match self {
            Error::InitializationError => "native context setup failed".to_owned(),
            Error::Native(message) => message.clone(),
            Error::Unavailable => "unknown error — native binding inconsistency".to_owned(),
            Error::Undecodable => "unknown error — text decoding failed".to_owned(),
        }
    }
}

} // verus!
