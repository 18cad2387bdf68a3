//! Errors of the domain: the error carried by a response, and the errors that
//! transports and tools report.
use vstd::prelude::*;
use serde_json::Error as SerdeJsonError;

verus! {

/// Domain error carried by a response.
#[derive(Debug)]
pub enum Error {
    /// Error related to a specific tool
    ToolError(String),
    /// Tool not found
    ToolNotFound(String),
    /// Invalid parameters
    InvalidParams(String),
    /// Internal error
    InternalError(String),
}

impl Error {
    /// The text by which the error presents itself to a reader.
    pub open spec fn text(&self) -> Seq<char> {
        match self {
            Error::ToolError(m) => "Tool Error: "@ + m@,
            Error::ToolNotFound(m) => "Tool Not Found: "@ + m@,
            Error::InvalidParams(m) => "Invalid Parameters: "@ + m@,
            Error::InternalError(m) => "Internal Error: "@ + m@,
        }
    }

    /// Renders the error as text: a fixed prefix naming the kind of error,
    /// followed by its message.
    pub fn to_string(&self) -> (s: String)
        ensures
            s@ == self.text(),
    {
        match self {
            Error::ToolError(m) => prefixed("Tool Error: ", m),
            Error::ToolNotFound(m) => prefixed("Tool Not Found: ", m),
            Error::InvalidParams(m) => prefixed("Invalid Parameters: ", m),
            Error::InternalError(m) => prefixed("Internal Error: ", m),
        }
    }
}

impl Clone for Error {
    fn clone(&self) -> (r: Self)
        ensures
            r == *self,
    {
        match self {
            Error::ToolError(m) => Error::ToolError(m.clone()),
            Error::ToolNotFound(m) => Error::ToolNotFound(m.clone()),
            Error::InvalidParams(m) => Error::InvalidParams(m.clone()),
            Error::InternalError(m) => Error::InternalError(m.clone()),
        }
    }
}

/// The JSON (de)serialisation error of `serde_json`, carried opaquely.
#[verifier::external_type_specification]
#[verifier::external_body]
pub struct ExJsonError(SerdeJsonError);

/// Whether `text` is a rendering of the JSON error `e` through its `Display`.
/// What that rendering holds is `serde_json`'s own and is left open here.
pub open spec fn renders_json_error(e: &SerdeJsonError, text: String) -> bool {
    vstd::string::to_string_from_display_ensures::<SerdeJsonError>(e, text)
}

/// Renders a JSON error of `serde_json` as text.
fn render_json_error(e: &SerdeJsonError) -> (text: String)
    ensures
        renders_json_error(e, text),
{
    e.to_string()
}

/// Error reported by a transport.
#[derive(Debug)]
pub enum TransportError {
    /// Error when reading data
    ReadError(String),
    /// Error when writing data
    WriteError(String),
    /// Connection error
    ConnectionError(String),
    /// JSON serialization/deserialization error, held as the text that the
    /// `serde_json` error renders to
    JsonError(String),
    /// Generic error
    Other(String),
}

impl TransportError {
    /// The text by which the error presents itself to a reader.
    pub open spec fn text(&self) -> Seq<char> {
        match self {
            TransportError::ReadError(m) => "Read Error: "@ + m@,
            TransportError::WriteError(m) => "Write Error: "@ + m@,
            TransportError::ConnectionError(m) => "Connection Error: "@ + m@,
            TransportError::JsonError(m) => "JSON Error: "@ + m@,
            TransportError::Other(m) => m@,
        }
    }

    /// Renders the error as text: a prefix naming the kind of error followed
    /// by its message; a generic error is its message alone.
    pub fn to_string(&self) -> (s: String)
        ensures
            s@ == self.text(),
    {
        match self {
            TransportError::ReadError(m) => prefixed("Read Error: ", m),
            TransportError::WriteError(m) => prefixed("Write Error: ", m),
            TransportError::ConnectionError(m) => prefixed("Connection Error: ", m),
            TransportError::JsonError(m) => prefixed("JSON Error: ", m),
            TransportError::Other(m) => m.clone(),
        }
    }
}

/// Error reported by a tool.
#[derive(Debug)]
pub enum ToolError {
    /// Invalid parameters provided to the tool
    InvalidParams(String),
    /// The tool encountered an error during execution
    ExecutionError(String),
    /// The requested tool does not exist
    ToolNotFound(String),
    /// JSON serialization/deserialization error, held as the text that the
    /// `serde_json` error renders to
    JsonError(String),
    /// Generic error
    Other(String),
}

impl ToolError {
    /// The text by which the error presents itself to a reader.
    pub open spec fn text(&self) -> Seq<char> {
        match self {
            ToolError::InvalidParams(m) => "Invalid Parameters: "@ + m@,
            ToolError::ExecutionError(m) => "Execution Error: "@ + m@,
            ToolError::ToolNotFound(m) => "Tool Not Found: "@ + m@,
            ToolError::JsonError(m) => "JSON Error: "@ + m@,
            ToolError::Other(m) => m@,
        }
    }

    /// Renders the error as text: a prefix naming the kind of error followed
    /// by its message; a generic error is its message alone.
    pub fn to_string(&self) -> (s: String)
        ensures
            s@ == self.text(),
    {
        match self {
            ToolError::InvalidParams(m) => prefixed("Invalid Parameters: ", m),
            ToolError::ExecutionError(m) => prefixed("Execution Error: ", m),
            ToolError::ToolNotFound(m) => prefixed("Tool Not Found: ", m),
            ToolError::JsonError(m) => prefixed("JSON Error: ", m),
            ToolError::Other(m) => m.clone(),
        }
    }
}

impl From<SerdeJsonError> for TransportError {
    /// A JSON error becomes a transport error holding its rendered text.
    fn from(e: SerdeJsonError) -> (r: TransportError)
        ensures
            exists|text: String| r == TransportError::JsonError(text) && renders_json_error(&e, text),
    {
        TransportError::JsonError(render_json_error(&e))
    }
}

/// The rendering of a JSON error is tied to the error only as a relation, so
/// the conversion is described by its `ensures` above and not as a function.
impl vstd::std_specs::convert::FromSpecImpl<SerdeJsonError> for TransportError {
    open spec fn obeys_from_spec() -> bool {
        false
    }

    open spec fn from_spec(e: SerdeJsonError) -> TransportError {
        TransportError::JsonError(choose|text: String| #[trigger] renders_json_error(&e, text))
    }
}

impl From<SerdeJsonError> for ToolError {
    /// A JSON error becomes a tool error holding its rendered text.
    fn from(e: SerdeJsonError) -> (r: ToolError)
        ensures
            exists|text: String| r == ToolError::JsonError(text) && renders_json_error(&e, text),
    {
        ToolError::JsonError(render_json_error(&e))
    }
}

/// The rendering of a JSON error is tied to the error only as a relation, so
/// the conversion is described by its `ensures` above and not as a function.
impl vstd::std_specs::convert::FromSpecImpl<SerdeJsonError> for ToolError {
    open spec fn obeys_from_spec() -> bool {
        false
    }

    open spec fn from_spec(e: SerdeJsonError) -> ToolError {
        ToolError::JsonError(choose|text: String| #[trigger] renders_json_error(&e, text))
    }
}

/// `prefix` followed by `message`, as a new string.
fn prefixed(prefix: &str, message: &String) -> (s: String)
    ensures
        s@ == prefix@ + message@,
{
    let mut s = String::from_str(prefix);
    s.append(message.as_str());
    s
}

} // verus!
