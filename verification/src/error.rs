//! The failures that a query can end in.

use vstd::prelude::*;
use vstd::string::*;

verus! {

/// Why a reply could not be read as the records it should hold.
#[derive(Clone, Debug, PartialEq, Eq)]
pub enum DecodeError {
    /// The text is not a JSON document. Holds the parser's message.
    Syntax(String),
    /// A record was to be read from a value that is not an object.
    NotAnObject,
    /// The object has no member under the name of a required field.
    Missing(&'static str),
    /// The member under this name holds a value of the wrong type.
    Invalid(&'static str),
}

/// The single error value that every operation of the client returns.
#[derive(Clone, Debug, PartialEq, Eq)]
pub enum QueryError {
    /// The request did not bring a reply: the network, the TLS layer or a
    /// non-success HTTP status.
    Transport(String),
    /// The reply does not match the expected schema.
    Deserialize(DecodeError),
    /// The server returned no bug for the requested ID.
    NotFound,
}

impl DecodeError {
    /// The failure in words.
    pub open spec fn description(self) -> Seq<char> {
        match self {
            DecodeError::Syntax(message) => message@,
            DecodeError::NotAnObject => "expected an object"@,
            DecodeError::Missing(name) => "missing field `"@ + name@ + "`"@,
            DecodeError::Invalid(name) => "invalid value for field `"@ + name@ + "`"@,
        }
    }

    /// Describes the failure in words.
    pub fn describe(&self) -> (text: String)
        ensures
            text@ == self.description(),
    {
        match self {
            DecodeError::Syntax(message) => message.clone(),
            DecodeError::NotAnObject => String::from_str("expected an object"),
            DecodeError::Missing(name) => {
                let mut text = String::from_str("missing field `");
                text.append(name);
                text.append("`");
                text
            },
            DecodeError::Invalid(name) => {
                let mut text = String::from_str("invalid value for field `");
                text.append(name);
                text.append("`");
                text
            },
        }
    }
}

impl QueryError {
    /// The failure in words.
    pub open spec fn description(self) -> Seq<char> {
        match self {
            QueryError::Transport(message) => message@,
            QueryError::Deserialize(cause) => "deserialization failed: "@ + cause.description(),
            QueryError::NotFound => "no bug found"@,
        }
    }

    /// Describes the failure in words.
    pub fn describe(&self) -> (text: String)
        ensures
            text@ == self.description(),
    {
        match self {
            QueryError::Transport(message) => message.clone(),
            QueryError::Deserialize(cause) => {
                let mut text = String::from_str("deserialization failed: ");
                let detail = cause.describe();
                text.append(detail.as_str());
                text
            },
            QueryError::NotFound => String::from_str("no bug found"),
        }
    }
}

/// What a fallible reading gave, with its value taken by its view.
pub open spec fn outcome<T: DeepView>(r: Result<T, DecodeError>) -> Result<T::V, DecodeError> {
    match r {
        Ok(value) => Ok(value.deep_view()),
        Err(e) => Err(e),
    }
}

} // verus!
