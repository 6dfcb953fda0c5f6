use parsec_tool::attributes::{
    build, Algorithm, BuildError, KeyKind, Lifetime, UsageIntent, MAX_KEY_BITS,
};
use parsec_tool::error::CoreError;
use parsec_tool::provider::{provider_code, resolve, ProviderId};

#[test]
fn builder_rsa_asymmetric_encrypt_defaults() {
    let (attributes, policy) =
        build(KeyKind::RsaKeyPair, 2048, UsageIntent::AsymmetricEncrypt).unwrap();
    assert_eq!(attributes.lifetime, Lifetime::Persistent);
    assert_eq!(attributes.key_type, KeyKind::RsaKeyPair);
    assert_eq!(attributes.size_in_bits, 2048);
    assert!(policy.usage_flags.encrypt);
    assert!(policy.usage_flags.decrypt);
    assert!(!policy.usage_flags.sign);
    assert!(!policy.usage_flags.verify);
    assert!(!policy.usage_flags.export);
    assert_eq!(policy.permitted_algorithm, Algorithm::RsaPkcs1v15Crypt);
}

#[test]
fn builder_rsa_sign_verify() {
    let (attributes, policy) = build(KeyKind::RsaKeyPair, 3072, UsageIntent::SignVerify).unwrap();
    assert_eq!(attributes.size_in_bits, 3072);
    assert!(policy.usage_flags.sign);
    assert!(policy.usage_flags.verify);
    assert!(!policy.usage_flags.encrypt);
    assert!(!policy.usage_flags.decrypt);
    assert_eq!(policy.permitted_algorithm, Algorithm::RsaPkcs1v15Sign);
}

#[test]
fn builder_ecc_sign_verify() {
    let (attributes, policy) = build(KeyKind::EccKeyPair, 521, UsageIntent::SignVerify).unwrap();
    assert_eq!(attributes.key_type, KeyKind::EccKeyPair);
    assert_eq!(attributes.size_in_bits, 521);
    assert!(policy.usage_flags.sign);
    assert!(policy.usage_flags.verify);
    assert_eq!(policy.permitted_algorithm, Algorithm::EcdsaSha256);
}

#[test]
fn builder_flags_consistent_with_algorithm() {
    // No flag may imply an algorithm family that contradicts the permitted
    // algorithm: encryption flags only come with the encryption algorithm,
    // signature flags only with signature algorithms.
    let cases = vec![
        build(KeyKind::RsaKeyPair, 2048, UsageIntent::AsymmetricEncrypt).unwrap(),
        build(KeyKind::RsaKeyPair, 2048, UsageIntent::SignVerify).unwrap(),
        build(KeyKind::EccKeyPair, 256, UsageIntent::SignVerify).unwrap(),
    ];
    for (_, policy) in cases {
        let is_cipher = policy.permitted_algorithm == Algorithm::RsaPkcs1v15Crypt;
        if policy.usage_flags.encrypt || policy.usage_flags.decrypt {
            assert!(is_cipher);
        }
        if policy.usage_flags.sign || policy.usage_flags.verify {
            assert!(!is_cipher);
        }
    }
}

#[test]
fn builder_rejects_zero_size() {
    let result = build(KeyKind::RsaKeyPair, 0, UsageIntent::AsymmetricEncrypt);
    assert_eq!(result, Err(BuildError::InvalidSize));
}

#[test]
fn builder_rejects_negative_size() {
    let result = build(KeyKind::RsaKeyPair, -2048, UsageIntent::AsymmetricEncrypt);
    assert_eq!(result, Err(BuildError::InvalidSize));
}

#[test]
fn builder_rejects_non_granular_size() {
    // RSA sizes must be a multiple of eight bits.
    let result = build(KeyKind::RsaKeyPair, 2047, UsageIntent::AsymmetricEncrypt);
    assert_eq!(result, Err(BuildError::InvalidSize));
    // ECC has no such granularity: 521 is accepted elsewhere.
}

#[test]
fn builder_rejects_oversize() {
    let result = build(KeyKind::RsaKeyPair, MAX_KEY_BITS + 8, UsageIntent::AsymmetricEncrypt);
    assert_eq!(result, Err(BuildError::InvalidSize));
}

#[test]
fn builder_accepts_largest_size() {
    let (attributes, _) =
        build(KeyKind::RsaKeyPair, MAX_KEY_BITS, UsageIntent::AsymmetricEncrypt).unwrap();
    assert_eq!(attributes.size_in_bits as i64, MAX_KEY_BITS);
}

#[test]
fn builder_rejects_ecc_asymmetric_encrypt() {
    let result = build(KeyKind::EccKeyPair, 256, UsageIntent::AsymmetricEncrypt);
    assert_eq!(result, Err(BuildError::UnsupportedIntent));
}

#[test]
fn builder_idempotent() {
    let first = build(KeyKind::RsaKeyPair, 2048, UsageIntent::AsymmetricEncrypt);
    let second = build(KeyKind::RsaKeyPair, 2048, UsageIntent::AsymmetricEncrypt);
    assert_eq!(first, second);
    let first = build(KeyKind::EccKeyPair, 384, UsageIntent::SignVerify);
    let second = build(KeyKind::EccKeyPair, 384, UsageIntent::SignVerify);
    assert_eq!(first, second);
}

#[test]
fn resolve_uses_service_default_without_override() {
    assert_eq!(resolve(None, 0), Ok(ProviderId::Core));
    assert_eq!(resolve(None, 1), Ok(ProviderId::MbedCrypto));
}

#[test]
fn resolve_prefers_explicit_override() {
    assert_eq!(resolve(Some(3), 0), Ok(ProviderId::Tpm));
    assert_eq!(resolve(Some(5), 1), Ok(ProviderId::CryptoAuthLib));
}

#[test]
fn resolve_rejects_unknown_provider() {
    let result = resolve(Some(99), 0);
    assert_eq!(result, Err(CoreError::ProviderResolution(99)));
    assert_eq!(result.unwrap_err().describe(), "unknown provider");
}

#[test]
fn provider_codes_round_trip() {
    let providers = vec![
        ProviderId::Core,
        ProviderId::MbedCrypto,
        ProviderId::Pkcs11,
        ProviderId::Tpm,
        ProviderId::TrustedService,
        ProviderId::CryptoAuthLib,
    ];
    for provider in providers {
        assert_eq!(resolve(Some(provider_code(provider)), 0), Ok(provider));
    }
}

#[test]
fn describe_input_construction_errors() {
    assert_eq!(
        CoreError::InputConstruction(BuildError::InvalidSize).describe(),
        "invalid key size"
    );
    assert_eq!(
        CoreError::InputConstruction(BuildError::UnsupportedIntent).describe(),
        "usage intent not supported for this key kind"
    );
}
