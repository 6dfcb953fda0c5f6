//! Operation and result descriptors, and the descriptor factory.
//!
//! An operation descriptor is the provider-neutral, typed request sent to the
//! service for one operation; a result descriptor is the typed response. Both
//! are closed sum types with one case per operation kind, so tag matching at
//! the dispatch step is exhaustive. The factory converts one validated
//! subcommand value into a descriptor and fails only on builder-detected
//! policy violations, never by silent coercion.

use vstd::prelude::*;

use crate::attributes::{spec_build, build, KeyAttributes, KeyKind, UsagePolicy, UsageIntent};
use crate::error::CoreError;

verus! {

/// The operation kinds this core supports, used as request and response tags.
#[derive(Clone, Copy, Debug, PartialEq, Eq, Structural)]
pub enum OperationKind {
    GenerateKey,
    Ping,
}

/// The provider-neutral request for one operation, one case per kind.
#[derive(Clone, Debug, PartialEq, Eq)]
pub enum OperationDescriptor {
    GenerateKey { key_name: String, attributes: KeyAttributes, policy: UsagePolicy },
    Ping,
}

/// The typed response returned by the service, one case per kind. Key
/// generation returns only success-shaped data, so its case has no payload.
#[derive(Clone, Copy, Debug, PartialEq, Eq, Structural)]
pub enum ResultDescriptor {
    GenerateKey,
    Ping,
}

/// The tag of an operation descriptor.
pub open spec fn descriptor_kind(descriptor: OperationDescriptor) -> OperationKind {
    match descriptor {
        OperationDescriptor::GenerateKey { .. } => OperationKind::GenerateKey,
        OperationDescriptor::Ping => OperationKind::Ping,
    }
}

/// The tag of a result descriptor.
pub open spec fn result_kind(result: ResultDescriptor) -> OperationKind {
    match result {
        ResultDescriptor::GenerateKey => OperationKind::GenerateKey,
        ResultDescriptor::Ping => OperationKind::Ping,
    }
}

/// The validated input of the create-RSA-key subcommand: a key name, the
/// requested size, the usage intent, and an optional provider override.
#[derive(Clone, Debug, PartialEq, Eq)]
pub struct CreateRsaKey {
    pub key_name: String,
    pub size_in_bits: i64,
    pub usage_intent: UsageIntent,
    pub provider: Option<u8>,
}

/// What the factory returns for a create-RSA-key input: the generate-key
/// descriptor carrying the built attributes and policy, or the construction
/// error, exactly.
pub open spec fn spec_descriptor(cmd: CreateRsaKey) -> Result<OperationDescriptor, CoreError> {
    match spec_build(KeyKind::RsaKeyPair, cmd.size_in_bits, cmd.usage_intent) {
        Ok(built) => Ok(
            OperationDescriptor::GenerateKey {
                key_name: cmd.key_name,
                attributes: built.0,
                policy: built.1,
            },
        ),
        Err(e) => Err(CoreError::InputConstruction(e)),
    }
}

impl CreateRsaKey {
    /// The descriptor factory: converts this subcommand value into an
    /// operation descriptor, or rejects it before anything is dispatched.
    pub fn descriptor(&self) -> (result: Result<OperationDescriptor, CoreError>)
        ensures
            result == spec_descriptor(*self),
    {
        match build(KeyKind::RsaKeyPair, self.size_in_bits, self.usage_intent) {
            Ok((attributes, policy)) => Ok(
                OperationDescriptor::GenerateKey {
                    key_name: self.key_name.clone(),
                    attributes,
                    policy,
                },
            ),
            Err(e) => Err(CoreError::InputConstruction(e)),
        }
    }
}

} // verus!
