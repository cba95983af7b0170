use keystore_security_level::request::{
    authenticator_sid, import_format, new_key_descriptor, operation_purpose,
};
use keystore_security_level::types::{
    Algorithm, AuthenticatorSpec, Domain, Error, ErrorCode, HardwareAuthenticatorType,
    KeyDescriptor, KeyFormat, KeyParameter, KeyParameterValue, KeyPurpose, ScalarKind, Tag,
};

const INVALID: Error = Error::Km(ErrorCode::InvalidArgument);

fn algorithm(a: Algorithm) -> KeyParameter {
    KeyParameter { tag: Tag::Algorithm, value: KeyParameterValue::Algorithm(a) }
}

fn purpose(p: i32) -> KeyParameter {
    KeyParameter {
        tag: Tag::Purpose,
        value: KeyParameterValue::KeyPurpose(KeyPurpose { value: p }),
    }
}

fn size(bits: i64) -> KeyParameter {
    KeyParameter {
        tag: Tag::Other(3),
        value: KeyParameterValue::Scalar(ScalarKind::Integer, bits),
    }
}

#[test]
fn first_purpose_counts() {
    let params = vec![size(256), purpose(2), purpose(3)];
    assert_eq!(operation_purpose(&params), Ok(KeyPurpose { value: 2 }));
}

#[test]
fn purpose_must_be_given() {
    assert_eq!(operation_purpose(&[]), Err(INVALID));
    assert_eq!(operation_purpose(&[size(256)]), Err(INVALID));
}

#[test]
fn malformed_purpose_is_refused_even_before_a_good_one() {
    let malformed = KeyParameter {
        tag: Tag::Purpose,
        value: KeyParameterValue::Scalar(ScalarKind::Integer, 2),
    };
    assert_eq!(operation_purpose(&[malformed, purpose(2)]), Err(INVALID));
}

#[test]
fn purpose_under_another_tag_does_not_count() {
    let stray = KeyParameter {
        tag: Tag::Other(9),
        value: KeyParameterValue::KeyPurpose(KeyPurpose { value: 1 }),
    };
    assert_eq!(operation_purpose(&[stray]), Err(INVALID));
}

#[test]
fn symmetric_keys_are_imported_raw() {
    assert_eq!(import_format(&[algorithm(Algorithm::Aes)]), Ok(KeyFormat::Raw));
    assert_eq!(import_format(&[algorithm(Algorithm::Hmac)]), Ok(KeyFormat::Raw));
    assert_eq!(import_format(&[size(168), algorithm(Algorithm::TripleDes)]), Ok(KeyFormat::Raw));
}

#[test]
fn asymmetric_keys_are_imported_as_pkcs8() {
    assert_eq!(import_format(&[algorithm(Algorithm::Rsa)]), Ok(KeyFormat::Pkcs8));
    assert_eq!(import_format(&[size(256), algorithm(Algorithm::Ec)]), Ok(KeyFormat::Pkcs8));
}

#[test]
fn algorithm_must_be_known() {
    assert_eq!(import_format(&[]), Err(INVALID));
    assert_eq!(import_format(&[size(256)]), Err(INVALID));
    assert_eq!(import_format(&[algorithm(Algorithm::Other(99))]), Err(INVALID));
    let malformed = KeyParameter {
        tag: Tag::Algorithm,
        value: KeyParameterValue::Scalar(ScalarKind::Integer, 32),
    };
    assert_eq!(import_format(&[malformed, algorithm(Algorithm::Aes)]), Err(INVALID));
}

#[test]
fn first_authenticator_of_a_kind_counts() {
    let spec = |kind, id| AuthenticatorSpec { authenticator_type: kind, authenticator_id: id };
    let authenticators = [
        spec(HardwareAuthenticatorType::Other(7), 1),
        spec(HardwareAuthenticatorType::Fingerprint, 2),
        spec(HardwareAuthenticatorType::Password, 3),
        spec(HardwareAuthenticatorType::Password, 4),
        spec(HardwareAuthenticatorType::Fingerprint, 5),
    ];
    assert_eq!(authenticator_sid(&authenticators, HardwareAuthenticatorType::Password), Ok(3));
    assert_eq!(authenticator_sid(&authenticators, HardwareAuthenticatorType::Fingerprint), Ok(2));
    assert_eq!(
        authenticator_sid(&authenticators[..2], HardwareAuthenticatorType::Password),
        Err(INVALID)
    );
}

fn descriptor(domain: Domain, alias: Option<&str>) -> KeyDescriptor {
    KeyDescriptor {
        domain,
        nspace: 77,
        alias: alias.map(|a| a.to_string()),
        blob: Some(vec![1, 2]),
    }
}

#[test]
fn app_keys_are_bound_to_the_uid_of_the_caller() {
    let bound = new_key_descriptor(&descriptor(Domain::App, Some("a")), u32::MAX);
    assert_eq!(
        bound,
        Ok(KeyDescriptor {
            domain: Domain::App,
            nspace: 4294967295,
            alias: Some("a".to_string()),
            blob: None,
        })
    );
}

#[test]
fn other_keys_are_bound_as_they_are_named() {
    let named = descriptor(Domain::Other(2), Some("a"));
    assert_eq!(new_key_descriptor(&named, 10001), Ok(named));
    let blob = descriptor(Domain::Blob, None);
    assert_eq!(new_key_descriptor(&blob, 10001), Ok(blob));
}

#[test]
fn new_keys_need_an_alias_outside_the_blob_domain() {
    for domain in [Domain::App, Domain::KeyId, Domain::Other(2)] {
        assert_eq!(new_key_descriptor(&descriptor(domain, None), 10001), Err(INVALID));
    }
}
