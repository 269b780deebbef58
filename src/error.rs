//! Error types
use vstd::prelude::*;
use crate::text::{i16_to_text, int_text};
use serde_json::Error as JsonError;
use vstd::std_specs::convert::FromSpec;

verus! {

/// Declares `std::io::Error` so that [`Error::IO`] can carry it; nothing is
/// assumed of its contents.
#[verifier::external_type_specification]
#[verifier::external_body]
pub struct ExIoError(std::io::Error);

/// Declares `serde_json::Error` so that [`Error::Serde`] can carry it; nothing
/// is assumed of its contents.
#[verifier::external_type_specification]
#[verifier::external_body]
pub struct ExJsonError(JsonError);

/// Error type for TPLinker
#[derive(Debug)]
pub enum Error {
    /// Wrapped errors from std::io
    IO(std::io::Error),
    /// Wrapped errors from serde_json
    Serde(JsonError),
    /// Error decoding a section of the JSON response
    TPLink(SectionError),
    /// A generic error
    Other(String),
}

/// TPLinker result type with [`Error`]
pub type Result<T> = core::result::Result<T, Error>;

/// Error response for a section of the JSON response
#[derive(Debug, Clone)]
pub struct SectionError {
    /// The error code. Zero if no error.
    pub err_code: i16,
    /// The error message.
    pub err_msg: String,
}

/// The message shown for a failure to reach or talk to the device.
pub open spec fn transport_text() -> Seq<char> {
    "Error connecting to the device"@
}

/// The message shown when the device's response cannot be parsed.
pub open spec fn decode_text() -> Seq<char> {
    "Could not parse the response received from the device"@
}

/// The fixed prefix of a section error's message, before the code.
pub open spec fn section_prefix_text() -> Seq<char> {
    "Response data error: ("@
}

impl SectionError {
    /// What `to_string` renders: `<err_code>: <err_msg>`.
    pub open spec fn text(self) -> Seq<char> {
        int_text(self.err_code as int) + ": "@ + self.err_msg@
    }

    /// Renders the error as `<err_code>: <err_msg>`.
    pub fn to_string(&self) -> (r: String)
        ensures
            r@ == self.text(),
    {
        let mut r = i16_to_text(self.err_code);
        r.append(": ");
        r.append(self.err_msg.as_str());
        r
    }

    /// A short description of this kind of error.
    pub fn description(&self) -> (r: &'static str)
        ensures
            r@ == "TPLink section error"@,
    {
        "TPLink section error"
    }
}

impl Error {
    /// What `to_string` renders for each variant.
    pub open spec fn text(self) -> Seq<char> {
        match self {
            Error::IO(_) => transport_text(),
            Error::Serde(_) => decode_text(),
            Error::TPLink(e) => section_prefix_text() + int_text(e.err_code as int) + ") "@
                + e.err_msg@,
            Error::Other(m) => m@,
        }
    }

    /// What `description` returns for each variant.
    pub open spec fn description_text(self) -> Seq<char> {
        match self {
            Error::IO(_) => transport_text(),
            Error::Serde(_) => decode_text(),
            Error::TPLink(_) => "Response data error"@,
            Error::Other(m) => m@,
        }
    }

    /// Renders the user-facing message of the error.
    pub fn to_string(&self) -> (r: String)
        ensures
            r@ == self.text(),
    {
        match self {
            Error::IO(_) => String::from_str("Error connecting to the device"),
            Error::Serde(_) => String::from_str("Could not parse the response received from the device"),
            Error::TPLink(err) => {
                let mut r = String::from_str("Response data error: (");
                let code = i16_to_text(err.err_code);
                r.append(code.as_str());
                r.append(") ");
                r.append(err.err_msg.as_str());
                r
            },
            Error::Other(err) => err.clone(),
        }
    }

    /// A short description of the error.
    pub fn description(&self) -> (r: &str)
        ensures
            r@ == self.description_text(),
    {
        match self {
            Error::IO(_) => "Error connecting to the device",
            Error::Serde(_) => "Could not parse the response received from the device",
            Error::TPLink(_) => "Response data error",
            Error::Other(err) => err.as_str(),
        }
    }
}

impl From<std::io::Error> for Error {
    fn from(error: std::io::Error) -> Self {
        Error::IO(error)
    }
}

impl vstd::std_specs::convert::FromSpecImpl<std::io::Error> for Error {
    open spec fn obeys_from_spec() -> bool {
        true
    }

    open spec fn from_spec(v: std::io::Error) -> Error {
        Error::IO(v)
    }
}

impl From<JsonError> for Error {
    fn from(error: JsonError) -> Self {
        Error::Serde(error)
    }
}

impl vstd::std_specs::convert::FromSpecImpl<JsonError> for Error {
    open spec fn obeys_from_spec() -> bool {
        true
    }

    open spec fn from_spec(v: JsonError) -> Error {
        Error::Serde(v)
    }
}

impl From<String> for Error {
    fn from(error: String) -> Self {
        Error::Other(error)
    }
}

impl vstd::std_specs::convert::FromSpecImpl<String> for Error {
    open spec fn obeys_from_spec() -> bool {
        true
    }

    open spec fn from_spec(v: String) -> Error {
        Error::Other(v)
    }
}

impl<'a> From<&'a str> for Error {
    fn from(error: &'a str) -> (r: Self)
        ensures
            r matches Error::Other(m) && m@ == error@,
    {
        Error::from(error.to_owned())
    }
}

/// A borrowed `str` has no `String` to name in spec code, so what `from`
/// returns for one is stated on `from` itself.
impl<'a> vstd::std_specs::convert::FromSpecImpl<&'a str> for Error {
    open spec fn obeys_from_spec() -> bool {
        false
    }

    open spec fn from_spec(v: &'a str) -> Error {
        arbitrary()
    }
}

impl From<SectionError> for Error {
    fn from(error: SectionError) -> Self {
        Error::TPLink(error)
    }
}

impl vstd::std_specs::convert::FromSpecImpl<SectionError> for Error {
    open spec fn obeys_from_spec() -> bool {
        true
    }

    open spec fn from_spec(v: SectionError) -> Error {
        Error::TPLink(v)
    }
}

/// Converting any I/O failure gives a transport failure, whose message is the
/// fixed transport message whatever the failure holds.
pub proof fn lemma_io_failure_text(e: std::io::Error)
    ensures
        <Error as FromSpec<std::io::Error>>::from_spec(e) is IO,
        <Error as FromSpec<std::io::Error>>::from_spec(e).text() == transport_text(),
{
}

/// Converting any JSON parse failure gives a decode failure, whose message is
/// the fixed decode message whatever the failure holds.
pub proof fn lemma_json_failure_text(e: JsonError)
    ensures
        <Error as FromSpec<JsonError>>::from_spec(e) is Serde,
        <Error as FromSpec<JsonError>>::from_spec(e).text() == decode_text(),
{
}

/// Converting a section error gives a section failure whose message is
/// `Response data error: (<code>) <message>`, while the section error itself
/// renders as `<code>: <message>`.
pub proof fn lemma_section_failure_text(s: SectionError)
    ensures
        <Error as FromSpec<SectionError>>::from_spec(s) is TPLink,
        <Error as FromSpec<SectionError>>::from_spec(s).text() == section_prefix_text()
            + int_text(s.err_code as int) + ") "@ + s.err_msg@,
        s.text() == int_text(s.err_code as int) + ": "@ + s.err_msg@,
{
}

/// Converting any string gives a generic failure whose message is that
/// string exactly, with nothing added; so does any generic failure with the
/// same text, such as the one converted from a borrowed `str`.
pub proof fn lemma_generic_failure_text(s: String)
    ensures
        <Error as FromSpec<String>>::from_spec(s) is Other,
        <Error as FromSpec<String>>::from_spec(s).text() == s@,
        forall|e: Error| (e matches Error::Other(m) && m@ == s@) ==> #[trigger] e.text() == s@,
{
}

/// Wrapping a section error built from a code and a message keeps both
/// fields unchanged.
pub proof fn lemma_section_failure_keeps_fields(code: i16, msg: String)
    ensures
        <Error as FromSpec<SectionError>>::from_spec(SectionError { err_code: code, err_msg: msg })
            matches Error::TPLink(s) && s.err_code == code && s.err_msg == msg,
{
}

} // verus!
