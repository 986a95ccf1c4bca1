//! Error types for the run as a whole and for individual fetch jobs.

use vstd::prelude::*;
use crate::decimal::{dec_rep, u64_to_string};
use crate::strutil::push_char;

verus! {

/// A helpful message if a suspected bug occurred.
pub open spec fn help_bug() -> Seq<char> {
    "This is likely a bug in this application and not your fault.\nPlease update the application. If the error persists, open an issue on GitHub."@
}

/// A generalized error type.
///
/// A run-fatal error either carries a plain message of this library's own,
/// or the rendered text of an error that arose outside it.
#[derive(Debug)]
pub enum Error {
    /// A message produced by this library.
    Message(String),

    /// The text of an underlying error from outside the library.
    Inner(String),
}

impl Error {
    /// Creates a new error from a simple string.
    /// Useful if there are no underlying errors.
    pub fn new(message: String) -> (e: Error)
        ensures
            e == Error::Message(message),
    {
        Error::Message(message)
    }

    /// Creates an error with a (hopefully) helpful message.
    pub fn bug() -> (e: Error)
        ensures
            e matches Error::Message(m) && m@ == help_bug(),
    {
        Error::Message("This is likely a bug in this application and not your fault.\nPlease update the application. If the error persists, open an issue on GitHub.".to_owned())
    }

    /// Returns the source of the error, if any.
    pub fn source(&self) -> (r: Option<&String>)
        ensures
            match r {
                Some(inner) => *self matches Error::Inner(m) && m == inner,
                None => *self matches Error::Message(_),
            },
    {
        match self {
            Error::Message(_) => None,
            Error::Inner(e) => Some(e),
        }
    }

    /// Converts into the underlying error, if any.
    pub fn into_source(self) -> (r: Option<String>)
        ensures
            match r {
                Some(inner) => self matches Error::Inner(m) && m == inner,
                None => self matches Error::Message(_),
            },
    {
        match self {
            Error::Message(_) => None,
            Error::Inner(e) => Some(e),
        }
    }
}

/// A typed failure of one fetch job.
///
/// Every variant is recovered per item: the run continues with the next item.
#[derive(Debug, Clone, PartialEq, Eq)]
pub enum FetchError {
    /// The upstream host answered with its 404 equivalent.
    NotFound,

    /// The upstream host answered with an unexpected status code.
    UnexpectedStatus(u16),

    /// The HTTP request itself failed; the text of the transport error.
    Transport(String),

    /// A mediating API answered with data of an unexpected shape.
    MalformedResponse(String),

    /// An external merge tool failed or is missing; the text of its error.
    ExternalTool(String),

    /// The item's host is not supported and force mode is off.
    UnsupportedDomain(String),
}

/// The message text of a [`FetchError`], by variant.
pub open spec fn fetch_error_text(e: FetchError) -> Seq<char> {
    match e {
        FetchError::NotFound => "File not found"@,
        FetchError::UnexpectedStatus(code) => "Unexpected response code "@ + dec_rep(code as nat),
        FetchError::Transport(m) => "Request failed: "@ + m@,
        FetchError::MalformedResponse(m) => "Malformed response: "@ + m@,
        FetchError::ExternalTool(m) => "External tool error: "@ + m@,
        FetchError::UnsupportedDomain(d) => "Unsupported domain '"@ + d@ + "'"@,
    }
}

impl FetchError {
    /// Renders this error as a human-readable message.
    pub fn describe(&self) -> (r: String)
        ensures
            r@ == fetch_error_text(*self),
    {
        match self {
            FetchError::NotFound => "File not found".to_owned(),
            FetchError::UnexpectedStatus(code) => {
                let mut s = "Unexpected response code ".to_owned();
                let num = u64_to_string(*code as u64);
                s.append(num.as_str());
                s
            },
            FetchError::Transport(m) => {
                let mut s = "Request failed: ".to_owned();
                s.append(m.as_str());
                s
            },
            FetchError::MalformedResponse(m) => {
                let mut s = "Malformed response: ".to_owned();
                s.append(m.as_str());
                s
            },
            FetchError::ExternalTool(m) => {
                let mut s = "External tool error: ".to_owned();
                s.append(m.as_str());
                s
            },
            FetchError::UnsupportedDomain(d) => {
                let mut s = "Unsupported domain '".to_owned();
                s.append(d.as_str());
                push_char(&mut s, '\'');
                assert(s@ =~= "Unsupported domain '"@ + d@ + "'"@) by {
                    reveal_strlit("'");
                }
                s
            },
        }
    }
}

} // verus!
