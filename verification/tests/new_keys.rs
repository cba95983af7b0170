use keystore_security_level::generate_key::GenerateKey;
use keystore_security_level::import_key::ImportKey;
use keystore_security_level::import_wrapped_key::ImportWrappedKey;
use keystore_security_level::key_entry::{KeyEntry, KeyEntryLoadBits, KeyType};
use keystore_security_level::security_level::KeystoreSecurityLevel;
use keystore_security_level::store::{split_certificates, StoreNewKey};
use keystore_security_level::target::Caller;
use keystore_security_level::types::{
    Algorithm, AuthenticatorSpec, Certificate, DateTime, Domain, Error, ErrorCode,
    HardwareAuthenticatorType, KeyCreationResult, KeyDescriptor, KeyFormat, KeyMetadata,
    KeyParameter, KeyParameterValue, KeyPerm, KsKeyParam, KsKeyParamValue, ScalarKind,
    SecurityLevel, Tag,
};
use keystore_security_level::upgrade::SubComponentType;

const LEVEL: KeystoreSecurityLevel =
    KeystoreSecurityLevel { security_level: SecurityLevel::TrustedEnvironment };
const CALLER: Caller = Caller { uid: 1010042, user_id: 10 };
const INVALID: Error = Error::Km(ErrorCode::InvalidArgument);
const WANTS_UPGRADE: Error = Error::Km(ErrorCode::KeyRequiresUpgrade);
const NOW: DateTime = DateTime { millis_epoch: 1600000000123 };

fn cert(bytes: &[u8]) -> Certificate {
    Certificate { encoded_certificate: bytes.to_vec() }
}

fn key_size() -> KeyParameter {
    KeyParameter {
        tag: Tag::Other(3),
        value: KeyParameterValue::Scalar(ScalarKind::Integer, 256),
    }
}

fn algorithm(a: Algorithm) -> KeyParameter {
    KeyParameter { tag: Tag::Algorithm, value: KeyParameterValue::Algorithm(a) }
}

fn device_param() -> KsKeyParam {
    KsKeyParam {
        value: KsKeyParamValue::Parameter(key_size()),
        security_level: SecurityLevel::TrustedEnvironment,
    }
}

fn user_param(user_id: i32) -> KsKeyParam {
    KsKeyParam {
        value: KsKeyParamValue::UserID(user_id),
        security_level: SecurityLevel::Software,
    }
}

fn created() -> KeyCreationResult {
    KeyCreationResult {
        key_blob: vec![9, 9],
        key_parameters: vec![device_param()],
        certificate_chain: vec![cert(&[1, 2]), cert(&[3]), cert(&[]), cert(&[4, 5])],
    }
}

fn descriptor(domain: Domain, alias: Option<&str>, blob: Option<&[u8]>) -> KeyDescriptor {
    KeyDescriptor {
        domain,
        nspace: 7,
        alias: alias.map(|a| a.to_string()),
        blob: blob.map(|b| b.to_vec()),
    }
}

fn metadata_of(key: KeyDescriptor) -> KeyMetadata {
    KeyMetadata {
        key,
        key_security_level: SecurityLevel::TrustedEnvironment,
        certificate: Some(vec![1, 2]),
        certificate_chain: Some(vec![3, 4, 5]),
        authorizations: vec![device_param(), user_param(10)],
        modification_time_ms: 1600000000123,
    }
}

fn by_id(id: i64) -> KeyDescriptor {
    KeyDescriptor { domain: Domain::KeyId, nspace: id, alias: None, blob: None }
}

fn by_blob(blob: &[u8]) -> KeyDescriptor {
    KeyDescriptor { domain: Domain::Blob, nspace: 0, alias: None, blob: Some(blob.to_vec()) }
}

#[test]
fn certificates_are_split() {
    assert_eq!(split_certificates(vec![]), (None, None));
    assert_eq!(split_certificates(vec![cert(&[1])]), (Some(vec![1]), None));
    assert_eq!(split_certificates(vec![cert(&[]), cert(&[])]), (Some(vec![]), Some(vec![])));
    assert_eq!(
        split_certificates(vec![cert(&[1]), cert(&[2, 3]), cert(&[4])]),
        (Some(vec![1]), Some(vec![2, 3, 4]))
    );
}

#[test]
fn key_is_stored_and_known_by_its_id() {
    let pending = LEVEL.store_new_key(descriptor(Domain::App, Some("a"), None), created(), 10);
    let StoreNewKey::StoreKey(store) = pending.resume(Ok(NOW)) else {
        panic!("the key has to be stored")
    };
    assert_eq!(store.creation_date, NOW);
    assert_eq!(store.new_key.key, descriptor(Domain::App, Some("a"), None));
    assert_eq!(store.new_key.key_blob, vec![9, 9]);
    assert_eq!(store.new_key.certificate, Some(vec![1, 2]));
    assert_eq!(store.new_key.certificate_chain, Some(vec![3, 4, 5]));
    assert_eq!(store.new_key.key_parameters, vec![device_param(), user_param(10)]);
    assert_eq!(store.resume(Ok(-5)), StoreNewKey::Done(Ok(metadata_of(by_id(-5)))));
}

#[test]
fn key_of_the_blob_domain_is_not_stored() {
    let pending = LEVEL.store_new_key(descriptor(Domain::Blob, None, Some(&[1])), created(), 10);
    assert_eq!(pending.resume(Ok(NOW)), StoreNewKey::Done(Ok(metadata_of(by_blob(&[9, 9])))));
}

#[test]
fn failing_to_store_ends_a_request() {
    let pending = LEVEL.store_new_key(descriptor(Domain::Blob, None, None), created(), 10);
    assert_eq!(pending.resume(Err(Error::Other(3))), StoreNewKey::Done(Err(Error::Other(3))));
    let pending = LEVEL.store_new_key(descriptor(Domain::App, Some("a"), None), created(), 10);
    let StoreNewKey::StoreKey(store) = pending.resume(Ok(NOW)) else {
        panic!("the key has to be stored")
    };
    assert_eq!(store.resume(Err(Error::Sys)), StoreNewKey::Done(Err(Error::Sys)));
}

#[test]
fn user_numbers_wrap_around() {
    for (user_id, signed) in
        [(0, 0), (2147483647, 2147483647), (2147483648, -2147483648), (4294967295, -1)]
    {
        let key = descriptor(Domain::Blob, None, None);
        let pending = LEVEL.store_new_key(key, created(), user_id);
        assert_eq!(pending.new_key.key_parameters[1], user_param(signed));
    }
}

#[test]
fn key_is_generated() {
    let params = vec![key_size()];
    let key = descriptor(Domain::App, Some("a"), Some(&[6]));
    let GenerateKey::<&str>::CheckPermission(check) =
        LEVEL.generate_key(&key, None, &params, 0, &[1, 2, 3], CALLER)
    else {
        panic!("the permission has to be checked")
    };
    assert_eq!(check.perm, KeyPerm::Rebind);
    assert_eq!(
        check.generation.target.key,
        KeyDescriptor {
            domain: Domain::App,
            nspace: 1010042,
            alias: Some("a".to_string()),
            blob: None
        }
    );
    let GenerateKey::<&str>::GetInterface(connect) = check.resume(Ok(())) else {
        panic!("the device has to be reached")
    };
    let GenerateKey::AddRngEntropy(add) = connect.resume(Ok("dev")) else {
        panic!("the entropy comes first")
    };
    assert_eq!(add.device, "dev");
    assert_eq!(add.generation.entropy, &[1, 2, 3]);
    let GenerateKey::MakeKey(make) = add.resume(Ok(())) else {
        panic!("the key has to be made")
    };
    assert_eq!(make.device, "dev");
    assert_eq!(make.generation.params, &params[..]);
    let GenerateKey::Store(StoreNewKey::ReadTime(time)) = make.resume(Ok(created())) else {
        panic!("the key has to be kept")
    };
    let StoreNewKey::StoreKey(store) = time.resume(Ok(NOW)) else {
        panic!("the key has to be stored")
    };
    assert_eq!(store.new_key.key.nspace, 1010042);
    assert_eq!(store.resume(Ok(31)), StoreNewKey::Done(Ok(metadata_of(by_id(31)))));
}

#[test]
fn generation_without_permission_asks_nothing_of_the_device() {
    let key = descriptor(Domain::Blob, None, None);
    let GenerateKey::<&str>::CheckPermission(check) =
        LEVEL.generate_key(&key, None, &[], 0, &[], CALLER)
    else {
        panic!("the permission has to be checked")
    };
    assert_eq!(check.resume(Err(Error::Other(6))), GenerateKey::<&str>::Failed(Error::Other(6)));
}

#[test]
fn generation_fails_as_the_device_does() {
    let start = || {
        let key = descriptor(Domain::Blob, None, None);
        let GenerateKey::<&str>::CheckPermission(check) =
            LEVEL.generate_key(&key, None, &[], 0, &[], CALLER)
        else {
            panic!("the permission has to be checked")
        };
        let GenerateKey::<&str>::GetInterface(connect) = check.resume(Ok(())) else {
            panic!("the device has to be reached")
        };
        connect
    };
    let e = Error::Km(ErrorCode::Other(-100));
    assert_eq!(start().resume(Err(e)), GenerateKey::<&str>::Failed(e));
    let GenerateKey::AddRngEntropy(add) = start().resume(Ok("dev")) else { panic!("entropy") };
    assert_eq!(add.resume(Err(e)), GenerateKey::Failed(e));
    let GenerateKey::AddRngEntropy(add) = start().resume(Ok("dev")) else { panic!("entropy") };
    let GenerateKey::MakeKey(make) = add.resume(Ok(())) else { panic!("key") };
    assert_eq!(make.resume(Err(e)), GenerateKey::Failed(e));
}

#[test]
fn requests_for_new_keys_without_an_alias_are_refused() {
    let key = descriptor(Domain::App, None, Some(&[1]));
    assert_eq!(
        LEVEL.generate_key(&key, None, &[], 0, &[], CALLER),
        GenerateKey::<&str>::Failed(INVALID)
    );
    assert_eq!(
        LEVEL.import_key(&key, None, &[], 0, &[], CALLER),
        ImportKey::<&str>::Failed(INVALID)
    );
    let wrapping = descriptor(Domain::App, Some("w"), None);
    assert_eq!(
        LEVEL.import_wrapped_key::<u64, &str>(&key, &wrapping, None, &[], &[], CALLER),
        ImportWrappedKey::Failed(INVALID)
    );
}

#[test]
fn key_is_imported() {
    let params = vec![key_size(), algorithm(Algorithm::Ec)];
    let key = descriptor(Domain::Other(2), Some("a"), None);
    let ImportKey::<&str>::CheckPermission(check) =
        LEVEL.import_key(&key, None, &params, 0, &[5, 5], CALLER)
    else {
        panic!("the permission has to be checked")
    };
    assert_eq!(check.perm, KeyPerm::Rebind);
    assert_eq!(check.import.target.key, key);
    let ImportKey::<&str>::GetInterface(connect) = check.resume(Ok(())) else {
        panic!("the device has to be reached")
    };
    let ImportKey::ImportData(import) = connect.resume(Ok("dev")) else {
        panic!("the key has to be imported")
    };
    assert_eq!(import.device, "dev");
    assert_eq!(import.format, KeyFormat::Pkcs8);
    assert_eq!(import.import.params, &params[..]);
    assert_eq!(import.import.key_data, &[5, 5]);
    let ImportKey::Store(StoreNewKey::ReadTime(time)) = import.resume(Ok(created())) else {
        panic!("the key has to be kept")
    };
    let StoreNewKey::StoreKey(store) = time.resume(Ok(NOW)) else {
        panic!("the key has to be stored")
    };
    assert_eq!(store.new_key.key, key);
    assert_eq!(store.resume(Ok(32)), StoreNewKey::Done(Ok(metadata_of(by_id(32)))));
}

#[test]
fn import_checks_the_permission_before_the_algorithm() {
    let params = vec![algorithm(Algorithm::Other(5))];
    let key = descriptor(Domain::Blob, None, None);
    let start = || {
        let ImportKey::<&str>::CheckPermission(check) =
            LEVEL.import_key(&key, None, &params, 0, &[5], CALLER)
        else {
            panic!("the permission has to be checked")
        };
        check
    };
    assert_eq!(start().resume(Err(Error::Other(6))), ImportKey::<&str>::Failed(Error::Other(6)));
    assert_eq!(start().resume(Ok(())), ImportKey::<&str>::Failed(INVALID));
}

#[test]
fn import_fails_as_the_device_does() {
    let params = vec![algorithm(Algorithm::Aes)];
    let key = descriptor(Domain::Blob, None, None);
    let start = || {
        let ImportKey::<&str>::CheckPermission(check) =
            LEVEL.import_key(&key, None, &params, 0, &[5], CALLER)
        else {
            panic!("the permission has to be checked")
        };
        let ImportKey::<&str>::GetInterface(connect) = check.resume(Ok(())) else {
            panic!("the device has to be reached")
        };
        assert_eq!(connect.format, KeyFormat::Raw);
        connect
    };
    assert_eq!(start().resume(Err(Error::Sys)), ImportKey::<&str>::Failed(Error::Sys));
    let ImportKey::ImportData(import) = start().resume(Ok("dev")) else { panic!("import") };
    assert_eq!(import.resume(Err(INVALID)), ImportKey::Failed(INVALID));
    let ImportKey::ImportData(import) = start().resume(Ok("dev")) else { panic!("import") };
    let ImportKey::Store(StoreNewKey::ReadTime(time)) = import.resume(Ok(created())) else {
        panic!("the key has to be kept")
    };
    assert_eq!(time.resume(Ok(NOW)), StoreNewKey::Done(Ok(metadata_of(by_blob(&[9, 9])))));
}

fn authenticators() -> Vec<AuthenticatorSpec> {
    vec![
        AuthenticatorSpec {
            authenticator_type: HardwareAuthenticatorType::Fingerprint,
            authenticator_id: 200,
        },
        AuthenticatorSpec {
            authenticator_type: HardwareAuthenticatorType::Password,
            authenticator_id: 100,
        },
    ]
}

fn entry(km_blob: Option<&[u8]>) -> KeyEntry {
    KeyEntry { km_blob: km_blob.map(|b| b.to_vec()), key_parameters: vec![] }
}

#[test]
fn wrapped_key_is_imported_after_an_upgrade() {
    let params = vec![key_size()];
    let authenticators = authenticators();
    let key = descriptor(Domain::App, Some("a"), Some(&[6, 7]));
    let wrapping = descriptor(Domain::Other(2), Some("w"), None);
    let ImportWrappedKey::<u64, &str>::CheckPermission(check) =
        LEVEL.import_wrapped_key(&key, &wrapping, None, &params, &authenticators, CALLER)
    else {
        panic!("the permission has to be checked")
    };
    assert_eq!(check.perm, KeyPerm::Rebind);
    assert_eq!(check.import.target.key.nspace, 1010042);
    assert_eq!(check.import.target.key.blob, None);

    let ImportWrappedKey::LoadWrappingKey(load) = check.resume::<u64, &str>(Ok(())) else {
        panic!("the wrapping key has to be found")
    };
    assert_eq!(load.lookup.key, &wrapping);
    assert_eq!(load.lookup.key_type, KeyType::Client);
    assert_eq!(load.lookup.load_bits, KeyEntryLoadBits::Km);
    assert_eq!(load.lookup.caller_uid, 1010042);
    assert_eq!(load.lookup.perm, KeyPerm::Use);

    let ImportWrappedKey::<u64, &str>::GetInterface(connect) =
        load.resume(Ok((55, entry(Some(&[8])))))
    else {
        panic!("the device has to be reached")
    };
    let ImportWrappedKey::UnwrapKey(unwrap) = connect.resume(Ok("dev")) else {
        panic!("the key has to be unwrapped")
    };
    assert_eq!(unwrap.unwrapping.wrapped_data, &[6, 7]);
    assert_eq!(unwrap.unwrapping.wrapping_key_blob, vec![8]);
    assert_eq!(unwrap.unwrapping.masking_key, vec![0u8; 32]);
    assert_eq!(unwrap.unwrapping.params, &params[..]);
    assert_eq!(unwrap.unwrapping.password_sid, 100);
    assert_eq!(unwrap.unwrapping.fingerprint_sid, 200);

    let ImportWrappedKey::UpgradeKey(upgrade) = unwrap.resume(Err(WANTS_UPGRADE)) else {
        panic!("an upgrade is due")
    };
    assert_eq!(upgrade.upgrade.device, "dev");
    assert_eq!(upgrade.upgrade.blob, vec![8]);
    assert_eq!(upgrade.upgrade.params, &[]);

    let ImportWrappedKey::InsertBlob(insert) = upgrade.resume(Ok(vec![80])) else {
        panic!("the new blob has to be stored")
    };
    assert_eq!(insert.insert.key_id_guard, 55);
    assert_eq!(insert.insert.component, SubComponentType::KeyBlob);
    assert_eq!(insert.insert.blob, vec![80]);

    let ImportWrappedKey::UnwrapKey(unwrap) = insert.resume(Ok(())) else {
        panic!("a second try is due")
    };
    assert_eq!(unwrap.attempt.device, "dev");
    assert!(unwrap.attempt.upgraded);
    assert_eq!(unwrap.unwrapping.wrapping_key_blob, vec![8]);

    let ImportWrappedKey::Store(StoreNewKey::ReadTime(time)) = unwrap.resume(Ok(created())) else {
        panic!("the key has to be kept")
    };
    let StoreNewKey::StoreKey(store) = time.resume(Ok(NOW)) else {
        panic!("the key has to be stored")
    };
    assert_eq!(store.resume(Ok(33)), StoreNewKey::Done(Ok(metadata_of(by_id(33)))));
}

#[test]
fn given_masking_key_is_used() {
    let authenticators = authenticators();
    let key = descriptor(Domain::Blob, None, Some(&[6]));
    let wrapping = descriptor(Domain::App, Some("w"), None);
    let ImportWrappedKey::CheckPermission(check) = LEVEL.import_wrapped_key::<u64, &str>(
        &key,
        &wrapping,
        Some(&[4, 4]),
        &[],
        &authenticators,
        CALLER,
    ) else {
        panic!("the permission has to be checked")
    };
    let ImportWrappedKey::LoadWrappingKey(load) = check.resume::<u64, &str>(Ok(())) else {
        panic!("the wrapping key has to be found")
    };
    let ImportWrappedKey::<u64, &str>::GetInterface(connect) =
        load.resume(Ok((1, entry(Some(&[])))))
    else {
        panic!("the device has to be reached")
    };
    assert_eq!(connect.unwrapping.masking_key, vec![4, 4]);
    assert_eq!(
        connect.resume::<&str>(Err(Error::Other(2))),
        ImportWrappedKey::Failed(Error::Other(2))
    );
}

#[test]
fn malformed_wrapped_imports_are_refused() {
    let kept = descriptor(Domain::App, Some("w"), None);
    let own = descriptor(Domain::Blob, None, Some(&[3]));
    let key = descriptor(Domain::App, Some("a"), Some(&[6]));
    let empty = descriptor(Domain::App, Some("a"), None);
    assert_eq!(
        LEVEL.import_wrapped_key::<u64, &str>(&key, &own, None, &[], &authenticators(), CALLER),
        ImportWrappedKey::Failed(INVALID)
    );
    assert_eq!(
        LEVEL.import_wrapped_key::<u64, &str>(&empty, &kept, None, &[], &authenticators(), CALLER),
        ImportWrappedKey::Failed(INVALID)
    );
}

#[test]
fn wrapped_imports_need_the_wrapping_key_and_both_authenticators() {
    let both = authenticators();
    let key = descriptor(Domain::App, Some("a"), Some(&[6]));
    let wrapping = descriptor(Domain::App, Some("w"), None);
    let load = |specs| {
        let ImportWrappedKey::CheckPermission(check) =
            LEVEL.import_wrapped_key::<u64, &str>(&key, &wrapping, None, &[], specs, CALLER)
        else {
            panic!("the permission has to be checked")
        };
        let ImportWrappedKey::LoadWrappingKey(load) = check.resume::<u64, &str>(Ok(())) else {
            panic!("the wrapping key has to be found")
        };
        load
    };
    let failed = |e| ImportWrappedKey::<u64, &str>::Failed(e);
    assert_eq!(load(&both).resume(Err(Error::Other(4))), failed(Error::Other(4)));
    assert_eq!(load(&both).resume(Ok((1u64, entry(None)))), failed(Error::Sys));
    assert_eq!(load(&both[..1]).resume(Ok((1u64, entry(Some(&[8]))))), failed(INVALID));
    assert_eq!(load(&both[1..]).resume(Ok((1u64, entry(Some(&[8]))))), failed(INVALID));
    assert_eq!(load(&both[..1]).resume(Ok((1u64, entry(None)))), failed(Error::Sys));
}

#[test]
fn wrapped_import_fails_as_its_steps_do() {
    let both = authenticators();
    let key = descriptor(Domain::App, Some("a"), Some(&[6]));
    let wrapping = descriptor(Domain::App, Some("w"), None);
    let check = || {
        let ImportWrappedKey::CheckPermission(check) =
            LEVEL.import_wrapped_key::<u64, &str>(&key, &wrapping, None, &[], &both, CALLER)
        else {
            panic!("the permission has to be checked")
        };
        check
    };
    let unwrap = || {
        let ImportWrappedKey::LoadWrappingKey(load) = check().resume::<u64, &str>(Ok(())) else {
            panic!("the wrapping key has to be found")
        };
        let ImportWrappedKey::<u64, &str>::GetInterface(connect) =
            load.resume(Ok((1, entry(Some(&[8])))))
        else {
            panic!("the device has to be reached")
        };
        let ImportWrappedKey::UnwrapKey(unwrap) = connect.resume(Ok("dev")) else {
            panic!("the key has to be unwrapped")
        };
        unwrap
    };
    let upgrade = || {
        let ImportWrappedKey::UpgradeKey(upgrade) = unwrap().resume(Err(WANTS_UPGRADE)) else {
            panic!("an upgrade is due")
        };
        upgrade
    };
    let insert = || {
        let ImportWrappedKey::InsertBlob(insert) = upgrade().resume(Ok(vec![80])) else {
            panic!("the new blob has to be stored")
        };
        insert
    };
    let failed = |e| ImportWrappedKey::<u64, &str>::Failed(e);
    assert_eq!(check().resume(Err(Error::Other(1))), failed(Error::Other(1)));
    assert_eq!(unwrap().resume(Err(INVALID)), failed(INVALID));
    assert_eq!(upgrade().resume(Err(WANTS_UPGRADE)), failed(WANTS_UPGRADE));
    assert_eq!(insert().resume(Err(Error::Sys)), failed(Error::Sys));
    let ImportWrappedKey::UnwrapKey(second) = insert().resume(Ok(())) else {
        panic!("a second try is due")
    };
    assert_eq!(second.resume(Err(WANTS_UPGRADE)), failed(WANTS_UPGRADE));
}
