//! # Error
//!
//! The error type shared by API services. Each variant stands for an HTTP
//! status code and carries a description; an error travels between
//! services as the JSON object `{"code": <code>, "description": "<text>"}`,
//! with the text escaped for a JSON string.

use crate::json::{
    decimal_string, error_fields, error_json_text, escape, escaped, lemma_error_object_fields,
    parse_json, parsed_json, spec_error_fields,
};
use vstd::prelude::*;
use vstd::string::StringExecFns;
use anyhow::Error as AnyhowError;
use serde_json::Error as JsonError;

verus! {

/// Errors returned by API services.
#[derive(Clone, Debug, PartialEq, Eq)]
pub enum Error {
    /// The request could not be understood (400).
    BadRequest(String),
    /// The request lacks valid authentication (401).
    Unauthorized(String),
    /// The requested resource does not exist (404).
    NotFound(String),
    /// The requested resource is no longer available (410).
    Gone(String),
    /// Catch-all for errors that carry no code of their own (418).
    ImATeaPot(String),
    /// The server failed to fulfil a valid request (500).
    ServerError(String),
    /// An upstream service answered badly (502).
    BadGateway(String),
    /// The service cannot handle the request at the moment (503).
    ServiceUnavailable(String),
}

impl Error {
    /// The HTTP status code of the error.
    pub open spec fn spec_code(&self) -> u16 {
        match self {
            Error::BadRequest(_) => 400,
            Error::Unauthorized(_) => 401,
            Error::NotFound(_) => 404,
            Error::Gone(_) => 410,
            Error::ImATeaPot(_) => 418,
            Error::ServerError(_) => 500,
            Error::BadGateway(_) => 502,
            Error::ServiceUnavailable(_) => 503,
        }
    }

    /// The description the error carries.
    pub open spec fn spec_message(&self) -> String {
        match self {
            Error::BadRequest(d) => *d,
            Error::Unauthorized(d) => *d,
            Error::NotFound(d) => *d,
            Error::Gone(d) => *d,
            Error::ImATeaPot(d) => *d,
            Error::ServerError(d) => *d,
            Error::BadGateway(d) => *d,
            Error::ServiceUnavailable(d) => *d,
        }
    }

    /// The text of the description the error carries.
    pub open spec fn spec_description(&self) -> Seq<char> {
        self.spec_message()@
    }

    /// The error with status code `code` and the given description, if
    /// `code` is the code of one of the variants.
    pub open spec fn spec_with_code(code: int, description: String) -> Option<Error> {
        if code == 400 {
            Some(Error::BadRequest(description))
        } else if code == 401 {
            Some(Error::Unauthorized(description))
        } else if code == 404 {
            Some(Error::NotFound(description))
        } else if code == 410 {
            Some(Error::Gone(description))
        } else if code == 418 {
            Some(Error::ImATeaPot(description))
        } else if code == 500 {
            Some(Error::ServerError(description))
        } else if code == 502 {
            Some(Error::BadGateway(description))
        } else if code == 503 {
            Some(Error::ServiceUnavailable(description))
        } else {
            None
        }
    }

    /// Whether `code` is the status code of one of the variants.
    pub open spec fn is_error_code(code: int) -> bool {
        code == 400 || code == 401 || code == 404 || code == 410 || code == 418 || code == 500
            || code == 502 || code == 503
    }

    /// The error made of `text` and the code and description read from it
    /// (if any): the variant of that code, or else `ImATeaPot(text)`.
    pub open spec fn spec_from_parsed(text: String, fields: Option<(u64, String)>) -> Error {
        match fields {
            Some(f) => match Self::spec_with_code(f.0 as int, f.1) {
                Some(error) => error,
                None => Error::ImATeaPot(text),
            },
            None => Error::ImATeaPot(text),
        }
    }

    /// The JSON text of the error: `{"code": <code>, "description": "<description>"}`.
    pub open spec fn spec_to_json(&self) -> Seq<char> {
        error_json_text(self.spec_code(), escaped(self.spec_description()))
    }

    /// The error that reading the JSON text `text` gives: when `text` is a
    /// JSON object whose `code` member is a known code and whose
    /// `description` member is a string, the error of that code and
    /// description; otherwise an `ImATeaPot` error that carries the whole
    /// text.
    pub open spec fn spec_from_string(text: String) -> Error {
        Self::spec_from_parsed(text, fields_of_text(text@))
    }

    /// The HTTP status code of the error.
    pub fn code(&self) -> (code: u16)
        ensures
            code == self.spec_code(),
    {
        match self {
            Error::BadRequest(_) => 400,
            Error::Unauthorized(_) => 401,
            Error::NotFound(_) => 404,
            Error::Gone(_) => 410,
            Error::ImATeaPot(_) => 418,
            Error::ServerError(_) => 500,
            Error::BadGateway(_) => 502,
            Error::ServiceUnavailable(_) => 503,
        }
    }

    /// The description the error carries.
    pub fn description(&self) -> (description: String)
        ensures
            description == self.spec_message(),
            description@ == self.spec_description(),
    {
        match self {
            Error::BadRequest(d) => d.clone(),
            Error::Unauthorized(d) => d.clone(),
            Error::NotFound(d) => d.clone(),
            Error::Gone(d) => d.clone(),
            Error::ImATeaPot(d) => d.clone(),
            Error::ServerError(d) => d.clone(),
            Error::BadGateway(d) => d.clone(),
            Error::ServiceUnavailable(d) => d.clone(),
        }
    }

    /// The error with status code `code` and the given description, or
    /// `None` when no variant has that code.
    pub fn with_code(code: u64, description: String) -> (error: Option<Error>)
        ensures
            error == Self::spec_with_code(code as int, description),
            error is Some <==> Self::is_error_code(code as int),
    {
        if code == 400 {
            Some(Error::BadRequest(description))
        } else if code == 401 {
            Some(Error::Unauthorized(description))
        } else if code == 404 {
            Some(Error::NotFound(description))
        } else if code == 410 {
            Some(Error::Gone(description))
        } else if code == 418 {
            Some(Error::ImATeaPot(description))
        } else if code == 500 {
            Some(Error::ServerError(description))
        } else if code == 502 {
            Some(Error::BadGateway(description))
        } else if code == 503 {
            Some(Error::ServiceUnavailable(description))
        } else {
            None
        }
    }

    /// Make an error of `text` and of the code and description read from
    /// it, if any: the variant of that code with that description, or else
    /// an `ImATeaPot` error that carries the whole text.
    pub fn from_parsed(text: String, fields: Option<(u64, String)>) -> (error: Error)
        ensures
            error == Self::spec_from_parsed(text, fields),
    {
        match fields {
            Some((code, description)) => match Self::with_code(code, description) {
                Some(error) => error,
                None => Error::ImATeaPot(text),
            },
            None => Error::ImATeaPot(text),
        }
    }

    /// Transform a JSON error string into an error. A string that is not a
    /// JSON object with a known `code` and a `description` becomes an
    /// `ImATeaPot` error carrying the whole string. The JSON text of an error
    /// is read back as an error of the same code and description.
    pub fn from_string(text: String) -> (error: Error)
        ensures
            error == Self::spec_from_string(text),
            forall|e: Error|
                #![trigger e.spec_to_json()]
                text@ == e.spec_to_json() ==> {
                    &&& error.spec_code() == e.spec_code()
                    &&& error.spec_description() == e.spec_description()
                },
    {
        let value = parse_json(text.as_str());
        let fields = match &value {
            Some(v) => error_fields(v),
            None => None,
        };
        let error = Self::from_parsed(text, fields);
        assert forall|e: Error|
            #![trigger e.spec_to_json()]
            text@ == e.spec_to_json() implies {
                &&& error.spec_code() == e.spec_code()
                &&& error.spec_description() == e.spec_description()
            } by {
            let d = e.spec_description();
            assert(text@ == error_json_text(e.spec_code(), escaped(d)));
            lemma_error_object_fields(value->Some_0, e.spec_code() as u64, d);
        }
        error
    }

    /// The error as JSON text: `{"code": <code>, "description": "<description>"}`,
    /// with the description escaped for a JSON string.
    pub fn to_string(&self) -> (text: String)
        ensures
            text@ == self.spec_to_json(),
    {
        let mut text = String::from_str("{\"code\": ");
        let code = decimal_string(self.code());
        text.append(code.as_str());
        text.append(", \"description\": \"");
        let description = escape(self.description().as_str());
        text.append(description.as_str());
        text.append("\"}");
        text
    }
}

/// The code and description that the JSON text `text` carries, if it is
/// JSON and the `code` and `description` members are there with the right
/// types.
pub open spec fn fields_of_text(text: Seq<char>) -> Option<(u64, String)> {
    match parsed_json(text) {
        Some(value) => spec_error_fields(value),
        None => None,
    }
}

/// An error from `serde_json`.
#[verifier::external_type_specification]
#[verifier::external_body]
pub struct ExJsonError(JsonError);

/// An error from `anyhow`.
#[verifier::external_type_specification]
#[verifier::external_body]
pub struct ExAnyhowError(AnyhowError);

/// The text that `serde_json::Error`'s `Display` writes for `err`: its
/// message, and " at line L column C" where it has a position.
pub uninterp spec fn json_error_text(err: JsonError) -> Seq<char>;

/// What `serde_json::Error::is_io` says of `err`: whether it wraps an I/O
/// error.
pub uninterp spec fn json_error_is_io(err: JsonError) -> bool;

/// Calls `serde_json::Error`'s `Display` (through `to_string`) for the
/// error's message, such as "expected value at line 1 column 1", and
/// `serde_json::Error::is_io` for whether it wraps an I/O error; the flag is
/// named `json_error_is_io`. For an error that does not wrap an I/O error the
/// text is a function of the error (its code, line and column) and is named
/// `json_error_text`; the text of a wrapped I/O error comes from the
/// operating system and is not stated.
#[verifier::external_body]
fn json_error_message(err: &JsonError) -> (message: (String, bool))
    ensures
        message.1 == json_error_is_io(*err),
        !message.1 ==> message.0@ == json_error_text(*err),
{
    (err.to_string(), err.is_io())
}

/// Calls `anyhow::Error`'s `Display` (through `to_string`) for the message
/// of the outermost error. It is stated only as what `to_string` states of
/// any `Display` type: the text is one that `err` displays. The text itself
/// is whatever the wrapped error, of any type, displays.
#[verifier::external_body]
fn anyhow_error_message(err: &AnyhowError) -> (message: String)
    ensures
        vstd::string::to_string_from_display_ensures::<AnyhowError>(err, message),
{
    err.to_string()
}

impl From<JsonError> for Error {
    /// A JSON error is a bad request, described by the JSON error's message.
    fn from(err: JsonError) -> (error: Self)
        ensures
            error is BadRequest,
            error.spec_code() == 400,
            !json_error_is_io(err) ==> error.spec_description() == json_error_text(err),
    {
        let (message, _is_io) = json_error_message(&err);
        Error::BadRequest(message)
    }
}

impl vstd::std_specs::convert::FromSpecImpl<JsonError> for Error {
    open spec fn obeys_from_spec() -> bool {
        false
    }

    open spec fn from_spec(err: JsonError) -> Self {
        vstd::pervasive::arbitrary()
    }
}

impl From<AnyhowError> for Error {
    /// An `anyhow` error is read as error JSON text from its message: an
    /// error that displays as JSON with a known code comes back with that
    /// code and description, any other message becomes `ImATeaPot`.
    fn from(err: AnyhowError) -> (error: Self)
        ensures
            exists|message: String|
                #![trigger Error::spec_from_string(message)]
                vstd::string::to_string_from_display_ensures::<AnyhowError>(&err, message)
                    && error == Error::spec_from_string(message),
    {
        let message = anyhow_error_message(&err);
        Error::from_string(message)
    }
}

impl vstd::std_specs::convert::FromSpecImpl<AnyhowError> for Error {
    open spec fn obeys_from_spec() -> bool {
        false
    }

    open spec fn from_spec(err: AnyhowError) -> Self {
        vstd::pervasive::arbitrary()
    }
}

/// The status code and the description of an error determine it: making
/// an error of its own code and description gives it back, and its code is
/// one of the known codes.
pub proof fn lemma_code_description_determine(error: Error)
    ensures
        Error::spec_with_code(error.spec_code() as int, error.spec_message()) == Some(error),
        Error::is_error_code(error.spec_code() as int),
{
}

/// Reading back the code and description of an error gives the error; an
/// unknown code, or text that carries no code and description, gives an
/// `ImATeaPot` error with the whole text.
pub proof fn lemma_parsed_roundtrip(error: Error, text: String, code: u64, description: String)
    ensures
        Error::spec_from_parsed(text, Some((error.spec_code() as u64, error.spec_message())))
            == error,
        !Error::is_error_code(code as int) ==> Error::spec_from_parsed(
            text,
            Some((code, description)),
        ) == Error::ImATeaPot(text),
        Error::spec_from_parsed(text, None) == Error::ImATeaPot(text),
{
}

} // verus!
