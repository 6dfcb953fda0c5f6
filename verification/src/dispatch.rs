//! The subcommand contract: one linear pass per invocation.
//!
//! Each invocation moves through `Parsed -> Built -> Dispatched -> {Validated
//! success | Validated mismatch | Dispatch failed}` and never revisits a
//! state. The core decides everything around the one blocking client call:
//! `prepare` builds the descriptor and resolves the provider (failing fast so
//! that no partial request is ever sent), the caller performs the dispatch
//! through the operation client, and `conclude` validates the shape of what
//! came back and produces the confirmation line or the typed error.

use vstd::prelude::*;
use vstd::string::StringExecFns;

use crate::error::CoreError;
use crate::operation::{
    descriptor_kind,
    result_kind,
    spec_descriptor,
    CreateRsaKey,
    OperationDescriptor,
    OperationKind,
    ResultDescriptor,
};
use crate::provider::{resolve, spec_resolve, ProviderId};

verus! {

/// A dispatch failure reported by the operation client: transport trouble,
/// authentication rejection, or a service-side denial. The collaborator's
/// diagnostic is carried verbatim.
#[derive(Clone, Debug, PartialEq, Eq)]
pub struct DispatchError {
    pub message: String,
}

/// Everything the operation client needs for one call: the descriptor and
/// the resolved provider. Authentication material is supplied at the call
/// site and passed through unmodified, so it is not part of the request.
#[derive(Clone, Debug, PartialEq, Eq)]
pub struct PreparedRequest {
    pub descriptor: OperationDescriptor,
    pub provider: ProviderId,
}

/// The result-mismatch error for a requested kind and the tag that actually
/// came back.
pub open spec fn spec_mismatch_error(expected: OperationKind, actual: OperationKind) -> CoreError {
    CoreError::ResultMismatch { expected, actual }
}

/// The confirmation line naming the created key.
pub open spec fn spec_success_message(key_name: Seq<char>) -> Seq<char> {
    "Key \""@ + key_name + "\" created."@
}

/// What preparation returns: the descriptor and resolved provider, or the
/// first error on the way there — construction before resolution, exactly.
pub open spec fn spec_prepare(cmd: CreateRsaKey, service_default: u8) -> Result<
    PreparedRequest,
    CoreError,
> {
    match spec_descriptor(cmd) {
        Err(e) => Err(e),
        Ok(descriptor) => match spec_resolve(cmd.provider, service_default) {
            Err(e) => Err(e),
            Ok(provider) => Ok(PreparedRequest { descriptor, provider }),
        },
    }
}

/// Builds the confirmation line for a created key.
pub fn success_message(key_name: &str) -> (message: String)
    ensures
        message@ == spec_success_message(key_name@),
{
    let mut message: String = "Key \"".to_owned();
    message.append(key_name);
    message.append("\" created.");
    message
}

impl CreateRsaKey {
    /// The tag every successful response to this subcommand must carry.
    pub fn expected_kind(&self) -> (kind: OperationKind)
        ensures
            kind == OperationKind::GenerateKey,
    {
        OperationKind::GenerateKey
    }

    /// Converts the input into a descriptor and resolves the provider,
    /// failing fast on either: no partial request is ever handed out.
    pub fn prepare(&self, service_default: u8) -> (request: Result<PreparedRequest, CoreError>)
        ensures
            request == spec_prepare(*self, service_default),
            (request matches Ok(r) ==> descriptor_kind(r.descriptor) == OperationKind::GenerateKey),
    {
        let descriptor = match self.descriptor() {
            Ok(descriptor) => descriptor,
            Err(e) => {
                return Err(e);
            },
        };
        let provider = match resolve(self.provider, service_default) {
            Ok(provider) => provider,
            Err(e) => {
                return Err(e);
            },
        };
        Ok(PreparedRequest { descriptor, provider })
    }

    /// Validates the outcome of the one client call and reports it.
    ///
    /// A dispatch failure propagates unchanged, its message preserved
    /// verbatim. A response whose tag is not the requested kind is a
    /// protocol-contract violation and is reported as a mismatch, never as
    /// success. Only a response with the matching tag yields the
    /// confirmation line, which names the key.
    pub fn conclude(&self, outcome: Result<ResultDescriptor, DispatchError>) -> (report: Result<
        String,
        CoreError,
    >)
        ensures
            (outcome matches Err(e) ==> report == Err::<String, CoreError>(
                CoreError::Dispatch(e.message),
            )),
            (outcome matches Ok(res) ==> if result_kind(res) == OperationKind::GenerateKey {
                report matches Ok(message) && message@ == spec_success_message(self.key_name@)
            } else {
                report == Err::<String, CoreError>(
                    spec_mismatch_error(OperationKind::GenerateKey, result_kind(res)),
                )
            }),
    {
        match outcome {
            Err(e) => Err(CoreError::Dispatch(e.message)),
            Ok(ResultDescriptor::GenerateKey) => Ok(success_message(self.key_name.as_str())),
            Ok(res) => Err(
                CoreError::ResultMismatch {
                    expected: OperationKind::GenerateKey,
                    actual: match res {
                        ResultDescriptor::GenerateKey => OperationKind::GenerateKey,
                        ResultDescriptor::Ping => OperationKind::Ping,
                    },
                },
            ),
        }
    }
}

/// Law: an invalid size is rejected during construction, before dispatch.
/// For every input whose size is invalid for an RSA key pair, preparation
/// returns the input-construction error, so no request ever reaches the
/// operation client.
pub proof fn lemma_invalid_size_rejected(cmd: CreateRsaKey, service_default: u8)
    requires
        !crate::attributes::spec_valid_size(crate::attributes::KeyKind::RsaKeyPair,
            cmd.size_in_bits,
        ),
    ensures
        spec_prepare(cmd, service_default) == Err::<PreparedRequest, CoreError>(
            CoreError::InputConstruction(crate::attributes::BuildError::InvalidSize),
        ),
{
}

} // verus!
