//! Provider selection.
//!
//! A provider is a backend implementation capable of executing cryptographic
//! operations. Resolution is a single deterministic lookup: an explicit
//! override is validated against the known provider codes, and without one
//! the service-advertised default code is used. No retry logic.

use vstd::prelude::*;

use crate::error::CoreError;

verus! {

/// The known backend providers, by their service-assigned codes.
#[derive(Clone, Copy, Debug, PartialEq, Eq, Structural)]
pub enum ProviderId {
    /// Code 0: core service operations.
    Core,
    /// Code 1: Mbed Crypto software library.
    MbedCrypto,
    /// Code 2: a PKCS#11 compatible library.
    Pkcs11,
    /// Code 3: a TSS 2.0 enhanced system API library.
    Tpm,
    /// Code 4: the crypto trusted service running in TrustZone.
    TrustedService,
    /// Code 5: the CryptoAuthentication library.
    CryptoAuthLib,
}

/// The provider a code stands for, or nothing for an unknown code.
pub open spec fn spec_provider_of(code: u8) -> Option<ProviderId> {
    if code == 0 {
        Some(ProviderId::Core)
    } else if code == 1 {
        Some(ProviderId::MbedCrypto)
    } else if code == 2 {
        Some(ProviderId::Pkcs11)
    } else if code == 3 {
        Some(ProviderId::Tpm)
    } else if code == 4 {
        Some(ProviderId::TrustedService)
    } else if code == 5 {
        Some(ProviderId::CryptoAuthLib)
    } else {
        None
    }
}

/// The code a provider stands for; inverse of `spec_provider_of`.
pub open spec fn spec_provider_code(provider: ProviderId) -> u8 {
    match provider {
        ProviderId::Core => 0,
        ProviderId::MbedCrypto => 1,
        ProviderId::Pkcs11 => 2,
        ProviderId::Tpm => 3,
        ProviderId::TrustedService => 4,
        ProviderId::CryptoAuthLib => 5,
    }
}

/// What resolution returns: the provider for the explicit override if one is
/// given, else for the service-advertised default code; an error exactly when
/// the code taken is unknown.
pub open spec fn spec_resolve(explicit: Option<u8>, service_default: u8) -> Result<
    ProviderId,
    CoreError,
> {
    let code = match explicit {
        Some(code) => code,
        None => service_default,
    };
    match spec_provider_of(code) {
        Some(provider) => Ok(provider),
        None => Err(CoreError::ProviderResolution(code)),
    }
}

/// Resolves which provider should execute the operation: the explicit
/// override where one is given, else the service-advertised default.
pub fn resolve(explicit: Option<u8>, service_default: u8) -> (result: Result<
    ProviderId,
    CoreError,
>)
    ensures
        result == spec_resolve(explicit, service_default),
{
    let code = match explicit {
        Some(code) => code,
        None => service_default,
    };
    match provider_of(code) {
        Some(provider) => Ok(provider),
        None => Err(CoreError::ProviderResolution(code)),
    }
}

/// Looks a provider up by its code.
pub fn provider_of(code: u8) -> (provider: Option<ProviderId>)
    ensures
        provider == spec_provider_of(code),
{
    if code == 0 {
        Some(ProviderId::Core)
    } else if code == 1 {
        Some(ProviderId::MbedCrypto)
    } else if code == 2 {
        Some(ProviderId::Pkcs11)
    } else if code == 3 {
        Some(ProviderId::Tpm)
    } else if code == 4 {
        Some(ProviderId::TrustedService)
    } else if code == 5 {
        Some(ProviderId::CryptoAuthLib)
    } else {
        None
    }
}

/// The code to put on the wire for a resolved provider.
pub fn provider_code(provider: ProviderId) -> (code: u8)
    ensures
        code == spec_provider_code(provider),
        spec_provider_of(code) == Some(provider),
{
    match provider {
        ProviderId::Core => 0,
        ProviderId::MbedCrypto => 1,
        ProviderId::Pkcs11 => 2,
        ProviderId::Tpm => 3,
        ProviderId::TrustedService => 4,
        ProviderId::CryptoAuthLib => 5,
    }
}

} // verus!
