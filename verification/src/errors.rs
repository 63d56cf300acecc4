//! The domain errors of the dispatch and translation layer, and the one
//! human-readable message each of them shows across the protocol boundary.
use vstd::prelude::*;

verus! {

/// A domain error, local to the one invocation that produced it.  Callers of
/// the protocol see only the rendered message, never the variant.
#[derive(Debug, Clone)]
pub enum CerebroError {
    /// A filter value could not be rendered as query text.  The verified
    /// encoder never produces this; it remains as a safety valve of the
    /// error taxonomy.
    SerializationError(String),
    /// The outbound request failed before any response was obtained.
    HttpRequestError(String),
    /// A response was obtained, but reading its body failed.
    ResponseBodyError(String),
    /// The invocation's arguments do not match the tool's parameter table.
    SchemaValidationError(String),
    /// The invocation names a tool that is not registered.
    UnknownToolError(String),
}

/// The detail text of every schema-validation failure.
pub open spec fn invalid_args_chars() -> Seq<char> {
    "the arguments do not match the tool's parameter schema"@
}

/// The message of each error kind: a fixed prefix naming the kind, then the
/// detail text.
pub open spec fn error_message_chars(e: CerebroError) -> Seq<char> {
    match e {
        CerebroError::SerializationError(d) => "Failed to serialize request parameters: "@ + d@,
        CerebroError::HttpRequestError(d) => "HTTP request failed: "@ + d@,
        CerebroError::ResponseBodyError(d) => "Failed to read response body: "@ + d@,
        CerebroError::SchemaValidationError(d) => "Invalid tool arguments: "@ + d@,
        CerebroError::UnknownToolError(d) => "Unknown tool: "@ + d@,
    }
}

impl CerebroError {
    /// Render the one opaque message that crosses the protocol boundary.
    pub fn message(&self) -> (r: String)
        ensures
            r@ == error_message_chars(*self),
    {
        match self {
            CerebroError::SerializationError(d) => {
                let mut m = "Failed to serialize request parameters: ".to_owned();
                m.append(d.as_str());
                m
            },
            CerebroError::HttpRequestError(d) => {
                let mut m = "HTTP request failed: ".to_owned();
                m.append(d.as_str());
                m
            },
            CerebroError::ResponseBodyError(d) => {
                let mut m = "Failed to read response body: ".to_owned();
                m.append(d.as_str());
                m
            },
            CerebroError::SchemaValidationError(d) => {
                let mut m = "Invalid tool arguments: ".to_owned();
                m.append(d.as_str());
                m
            },
            CerebroError::UnknownToolError(d) => {
                let mut m = "Unknown tool: ".to_owned();
                m.append(d.as_str());
                m
            },
        }
    }
}

/// The schema-validation error every non-conforming argument object yields.
pub fn schema_validation_error() -> (r: CerebroError)
    ensures
        r matches CerebroError::SchemaValidationError(m) && m@ == invalid_args_chars(),
{
    CerebroError::SchemaValidationError(
        "the arguments do not match the tool's parameter schema".to_owned(),
    )
}

} // verus!
