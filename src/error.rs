//! Errors: those that the engine reports, and those that callers of the
//! catalog and of an index handle receive.
use vstd::prelude::*;

verus! {

/// Why the engine refused a document.
#[derive(Debug, Clone)]
pub enum DocParsingError {
    NoSuchFieldInSchema(String),
    NotJSON(String),
    /// A field and the rendering of the value that does not fit it.
    ValueError(String, String),
}

/// The message of a parse error: its text, and for a value error the field
/// and the value, separated by a space.
pub open spec fn parse_error_text(e: DocParsingError) -> Seq<char> {
    match e {
        DocParsingError::NoSuchFieldInSchema(s) => s@,
        DocParsingError::NotJSON(s) => s@,
        DocParsingError::ValueError(s, v) => s@ + seq![' '] + v@,
    }
}

pub fn doc_parsing_err_to_string(e: DocParsingError) -> (r: String)
    ensures
        r@ == parse_error_text(e),
{
    match e {
        DocParsingError::NoSuchFieldInSchema(s) => s,
        DocParsingError::NotJSON(s) => s,
        DocParsingError::ValueError(s, v) => {
            let mut r = s;
            proof {
                reveal_strlit(" ");
            }
            r.append(" ");
            r.append(v.as_str());
            r
        },
    }
}

/// An error with a message, as the request layer reports it.
#[derive(Debug, Clone)]
pub enum NimoolError {
    ChannelSendErr(String),
    ChannelReceiveError(String),
    GeneralError(String),
}

impl NimoolError {
    /// The message, whatever the kind.
    pub fn unwrap(&self) -> (r: &str)
        ensures
            r@ == match self {
                NimoolError::GeneralError(s) => s@,
                NimoolError::ChannelReceiveError(s) => s@,
                NimoolError::ChannelSendErr(s) => s@,
            },
    {
        match self {
            NimoolError::GeneralError(s) => s.as_str(),
            NimoolError::ChannelReceiveError(s) => s.as_str(),
            NimoolError::ChannelSendErr(s) => s.as_str(),
        }
    }

    /// A general error that carries the description of another error.
    pub fn from(description: &str) -> (r: NimoolError)
        ensures
            r matches NimoolError::GeneralError(s) && s@ == description@,
    {
        NimoolError::GeneralError(description.to_owned())
    }
}

/// An error with its description.
#[derive(Debug)]
pub struct MyErr {
    pub s: String,
}

impl MyErr {
    pub fn new(description: &str) -> (r: Self)
        ensures
            r.s@ == description@,
    {
        Self { s: description.to_owned() }
    }
}

/// Why the engine could not open or create an index.
#[derive(Debug, Clone, PartialEq, Eq)]
pub enum EngineFailure {
    /// No index of that name exists at the location.
    NotFound,
    /// The index exists (or was to be made) and the engine failed on it.
    Failed(String),
}

/// What a caller of the catalog or of an index handle receives on failure.
///
/// It tells "no such index" (`OpenError(NotFound)`) from "the index exists
/// and the operation failed" from "the catalog's worker could not be
/// reached".
#[derive(Debug, Clone, PartialEq, Eq)]
pub enum CatalogError {
    OpenError(EngineFailure),
    CreateError(EngineFailure),
    DocumentParseError(String),
    CommitError(String),
    ChannelSendError(String),
    ChannelReceiveError(String),
}

} // verus!
