//! The error taxonomy of the core.
//!
//! Every stage returns a typed error and no stage recovers from another
//! stage's error: all failures propagate to the invocation boundary, where
//! they terminate the invocation with a single diagnostic line.

use vstd::prelude::*;
use vstd::string::StringExecFns;

use crate::attributes::BuildError;
use crate::operation::OperationKind;

verus! {

/// One error for the whole invocation, one variant per stage.
#[derive(Clone, Debug, PartialEq, Eq)]
pub enum CoreError {
    /// The builder or factory rejected a parameter combination. Local and
    /// user-facing; the operation client is never invoked.
    InputConstruction(BuildError),
    /// An explicit provider override named an unknown provider; the unknown
    /// code is carried for the diagnostic.
    ProviderResolution(u8),
    /// The operation client call itself failed; the collaborator's diagnostic
    /// is carried verbatim, never rephrased and never retried.
    Dispatch(String),
    /// The result descriptor's tag did not match the operation kind that was
    /// requested: a contract violation between core and client/service,
    /// reported distinctly from a dispatch failure.
    ResultMismatch { expected: OperationKind, actual: OperationKind },
}

/// The short label of an operation kind, used in diagnostics.
pub open spec fn spec_kind_label(kind: OperationKind) -> Seq<char> {
    match kind {
        OperationKind::GenerateKey => "generate-key"@,
        OperationKind::Ping => "ping"@,
    }
}

/// The diagnostic line for each error variant. A dispatch error keeps the
/// collaborator's message verbatim after a fixed prefix.
pub open spec fn spec_describe(error: CoreError) -> Seq<char> {
    match error {
        CoreError::InputConstruction(BuildError::InvalidSize) => "invalid key size"@,
        CoreError::InputConstruction(BuildError::UnsupportedIntent) => (
        "usage intent not supported for this key kind"@),
        CoreError::ProviderResolution(_) => "unknown provider"@,
        CoreError::Dispatch(message) => "dispatch error: "@ + message@,
        CoreError::ResultMismatch { expected, actual } => "unexpected result: expected "@
            + spec_kind_label(expected) + ", got "@ + spec_kind_label(actual),
    }
}

/// The short label of an operation kind.
pub fn kind_label(kind: OperationKind) -> (label: &'static str)
    ensures
        label@ == spec_kind_label(kind),
{
    match kind {
        OperationKind::GenerateKey => "generate-key",
        OperationKind::Ping => "ping",
    }
}

impl CoreError {
    /// The single diagnostic line describing this error to the user.
    pub fn describe(&self) -> (diagnostic: String)
        ensures
            diagnostic@ == spec_describe(*self),
    {
        match self {
            CoreError::InputConstruction(BuildError::InvalidSize) => "invalid key size".to_owned(),
            CoreError::InputConstruction(BuildError::UnsupportedIntent) => {
                "usage intent not supported for this key kind".to_owned()
            },
            CoreError::ProviderResolution(_) => "unknown provider".to_owned(),
            CoreError::Dispatch(message) => {
                let mut diagnostic: String = "dispatch error: ".to_owned();
                diagnostic.append(message.as_str());
                diagnostic
            },
            CoreError::ResultMismatch { expected, actual } => {
                let mut diagnostic: String = "unexpected result: expected ".to_owned();
                diagnostic.append(kind_label(*expected));
                diagnostic.append(", got ");
                diagnostic.append(kind_label(*actual));
                diagnostic
            },
        }
    }
}

} // verus!
