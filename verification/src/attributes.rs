//! Key attributes and the attribute/policy builder.
//!
//! The builder is the authoritative source of cryptographic defaults: it maps
//! a closed set of usage intents to the exact usage-flag / permitted-algorithm
//! combination the service expects, and rejects obviously invalid key sizes
//! before anything is sent to the service. It is a pure function: no I/O and
//! fully deterministic.

use vstd::prelude::*;

verus! {

/// Whether a key persists across service restarts.
#[derive(Clone, Copy, Debug, PartialEq, Eq, Structural)]
pub enum Lifetime {
    Volatile,
    Persistent,
}

/// The supported key kinds.
#[derive(Clone, Copy, Debug, PartialEq, Eq, Structural)]
pub enum KeyKind {
    RsaKeyPair,
    EccKeyPair,
}

/// The algorithms a key's usage may be restricted to.
#[derive(Clone, Copy, Debug, PartialEq, Eq, Structural)]
pub enum Algorithm {
    RsaPkcs1v15Crypt,
    RsaPkcs1v15Sign,
    EcdsaSha256,
}

/// Capability bits declaring which operations a key may be used for.
#[derive(Clone, Copy, Debug, PartialEq, Eq, Structural)]
pub struct UsageFlags {
    pub encrypt: bool,
    pub decrypt: bool,
    pub sign: bool,
    pub verify: bool,
    pub export: bool,
}

/// Attributes of a key to be created: lifetime, kind and size.
#[derive(Clone, Copy, Debug, PartialEq, Eq, Structural)]
pub struct KeyAttributes {
    pub lifetime: Lifetime,
    pub key_type: KeyKind,
    pub size_in_bits: u32,
}

/// Usage flags together with the single algorithm they are restricted to.
#[derive(Clone, Copy, Debug, PartialEq, Eq, Structural)]
pub struct UsagePolicy {
    pub usage_flags: UsageFlags,
    pub permitted_algorithm: Algorithm,
}

/// The closed set of usage intents a user may ask for.
#[derive(Clone, Copy, Debug, PartialEq, Eq, Structural)]
pub enum UsageIntent {
    AsymmetricEncrypt,
    SignVerify,
}

/// Why the builder rejected a parameter combination.
#[derive(Clone, Copy, Debug, PartialEq, Eq, Structural)]
pub enum BuildError {
    /// The size is zero, negative, above any sane bound, or not a multiple
    /// of the kind's granularity.
    InvalidSize,
    /// The usage intent has no consistent flag/algorithm combination for the
    /// chosen key kind.
    UnsupportedIntent,
}

/// An upper bound no provider's key size could sensibly exceed.
pub const MAX_KEY_BITS: i64 = 65528;

/// The granularity a key size of the given kind must be a multiple of.
pub open spec fn size_granularity(kind: KeyKind) -> int {
    match kind {
        KeyKind::RsaKeyPair => 8,
        KeyKind::EccKeyPair => 1,
    }
}

/// A size is valid when it is positive, within the sane bound, and a multiple
/// of the kind's granularity.
pub open spec fn spec_valid_size(kind: KeyKind, size_in_bits: i64) -> bool {
    &&& 0 < size_in_bits <= MAX_KEY_BITS
    &&& size_in_bits as int % size_granularity(kind) == 0
}

/// Whether the algorithm belongs to the encryption family.
pub open spec fn is_cipher_algorithm(alg: Algorithm) -> bool {
    match alg {
        Algorithm::RsaPkcs1v15Crypt => true,
        Algorithm::RsaPkcs1v15Sign => false,
        Algorithm::EcdsaSha256 => false,
    }
}

/// Whether the algorithm belongs to the signature family.
pub open spec fn is_signature_algorithm(alg: Algorithm) -> bool {
    match alg {
        Algorithm::RsaPkcs1v15Crypt => false,
        Algorithm::RsaPkcs1v15Sign => true,
        Algorithm::EcdsaSha256 => true,
    }
}

/// Every flag set in the policy is consistent with the permitted algorithm:
/// no flag implies an algorithm family that contradicts it.
pub open spec fn flags_consistent(policy: UsagePolicy) -> bool {
    &&& (policy.usage_flags.encrypt || policy.usage_flags.decrypt) ==> is_cipher_algorithm(
        policy.permitted_algorithm,
    )
    &&& (policy.usage_flags.sign || policy.usage_flags.verify) ==> is_signature_algorithm(
        policy.permitted_algorithm,
    )
}

/// The closed intent table: the flag/algorithm combination the service
/// expects for each key kind and usage intent, or nothing where the intent
/// has no consistent combination for that kind.
pub open spec fn spec_intent_policy(kind: KeyKind, intent: UsageIntent) -> Option<UsagePolicy> {
    match (kind, intent) {
        (KeyKind::RsaKeyPair, UsageIntent::AsymmetricEncrypt) => Some(
            UsagePolicy {
                usage_flags: UsageFlags {
                    encrypt: true,
                    decrypt: true,
                    sign: false,
                    verify: false,
                    export: false,
                },
                permitted_algorithm: Algorithm::RsaPkcs1v15Crypt,
            },
        ),
        (KeyKind::RsaKeyPair, UsageIntent::SignVerify) => Some(
            UsagePolicy {
                usage_flags: UsageFlags {
                    encrypt: false,
                    decrypt: false,
                    sign: true,
                    verify: true,
                    export: false,
                },
                permitted_algorithm: Algorithm::RsaPkcs1v15Sign,
            },
        ),
        (KeyKind::EccKeyPair, UsageIntent::AsymmetricEncrypt) => None,
        (KeyKind::EccKeyPair, UsageIntent::SignVerify) => Some(
            UsagePolicy {
                usage_flags: UsageFlags {
                    encrypt: false,
                    decrypt: false,
                    sign: true,
                    verify: true,
                    export: false,
                },
                permitted_algorithm: Algorithm::EcdsaSha256,
            },
        ),
    }
}

/// What the builder returns: the attributes and policy for the given inputs,
/// or the construction error, exactly.
pub open spec fn spec_build(kind: KeyKind, size_in_bits: i64, intent: UsageIntent) -> Result<
    (KeyAttributes, UsagePolicy),
    BuildError,
> {
    if !spec_valid_size(kind, size_in_bits) {
        Err(BuildError::InvalidSize)
    } else {
        match spec_intent_policy(kind, intent) {
            None => Err(BuildError::UnsupportedIntent),
            Some(policy) => Ok(
                (
                    KeyAttributes {
                        lifetime: Lifetime::Persistent,
                        key_type: kind,
                        size_in_bits: size_in_bits as u32,
                    },
                    policy,
                ),
            ),
        }
    }
}

/// Validates a key size for the given kind.
pub fn valid_size(kind: KeyKind, size_in_bits: i64) -> (valid: bool)
    ensures
        valid == spec_valid_size(kind, size_in_bits),
{
    if size_in_bits <= 0 || size_in_bits > MAX_KEY_BITS {
        false
    } else {
        match kind {
            KeyKind::RsaKeyPair => size_in_bits % 8 == 0,
            KeyKind::EccKeyPair => true,
        }
    }
}

/// The attribute/policy builder: maps a key kind, size and usage intent to
/// the attributes and policy to request from the service, or rejects the
/// combination before anything reaches the service.
pub fn build(kind: KeyKind, size_in_bits: i64, intent: UsageIntent) -> (result: Result<
    (KeyAttributes, UsagePolicy),
    BuildError,
>)
    ensures
        result == spec_build(kind, size_in_bits, intent),
{
    if !valid_size(kind, size_in_bits) {
        return Err(BuildError::InvalidSize);
    }
    let policy: UsagePolicy = match (kind, intent) {
        (KeyKind::RsaKeyPair, UsageIntent::AsymmetricEncrypt) => UsagePolicy {
            usage_flags: UsageFlags {
                encrypt: true,
                decrypt: true,
                sign: false,
                verify: false,
                export: false,
            },
            permitted_algorithm: Algorithm::RsaPkcs1v15Crypt,
        },
        (KeyKind::RsaKeyPair, UsageIntent::SignVerify) => UsagePolicy {
            usage_flags: UsageFlags {
                encrypt: false,
                decrypt: false,
                sign: true,
                verify: true,
                export: false,
            },
            permitted_algorithm: Algorithm::RsaPkcs1v15Sign,
        },
        (KeyKind::EccKeyPair, UsageIntent::AsymmetricEncrypt) => {
            return Err(BuildError::UnsupportedIntent);
        },
        (KeyKind::EccKeyPair, UsageIntent::SignVerify) => UsagePolicy {
            usage_flags: UsageFlags {
                encrypt: false,
                decrypt: false,
                sign: true,
                verify: true,
                export: false,
            },
            permitted_algorithm: Algorithm::EcdsaSha256,
        },
    };
    Ok(
        (
            KeyAttributes {
                lifetime: Lifetime::Persistent,
                key_type: kind,
                size_in_bits: size_in_bits as u32,
            },
            policy,
        ),
    )
}

/// Law: whatever the builder accepts is policy-consistent. For every key
/// kind, size and usage intent on which construction succeeds, the usage
/// flags of the produced policy are consistent with its permitted algorithm.
pub proof fn lemma_build_flags_consistent(kind: KeyKind, size_in_bits: i64, intent: UsageIntent)
    requires
        spec_build(kind, size_in_bits, intent) is Ok,
    ensures
        flags_consistent(spec_build(kind, size_in_bits, intent)->Ok_0.1),
{
}

/// Law: construction is a pure function. Two builds from equal inputs yield
/// equal attribute/policy values.
pub proof fn lemma_build_deterministic(
    kind_a: KeyKind,
    size_a: i64,
    intent_a: UsageIntent,
    kind_b: KeyKind,
    size_b: i64,
    intent_b: UsageIntent,
)
    requires
        kind_a == kind_b,
        size_a == size_b,
        intent_a == intent_b,
    ensures
        spec_build(kind_a, size_a, intent_a) == spec_build(kind_b, size_b, intent_b),
{
}

} // verus!
