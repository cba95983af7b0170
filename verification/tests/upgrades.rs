use keystore_security_level::security_level::KeystoreSecurityLevel;
use keystore_security_level::types::{
    Error, ErrorCode, KeyParameter, KeyParameterValue, ScalarKind, SecurityLevel, Tag,
};
use keystore_security_level::upgrade::{
    Attempt, InsertBlob, SubComponentType, Upgrade, UpgradeKey,
};

const LEVEL: KeystoreSecurityLevel =
    KeystoreSecurityLevel { security_level: SecurityLevel::TrustedEnvironment };
const WANTS_UPGRADE: Error = Error::Km(ErrorCode::KeyRequiresUpgrade);

fn params() -> Vec<KeyParameter> {
    vec![KeyParameter {
        tag: Tag::Other(1),
        value: KeyParameterValue::Scalar(ScalarKind::Integer, 5),
    }]
}

#[test]
fn try_that_succeeds_needs_no_upgrade() {
    let params = params();
    let first = LEVEL.upgrade_keyblob_if_required_with("dev", Some(8u64), vec![1], &params);
    assert_eq!(first.resume(Ok("done")), Upgrade::Done(Ok(("done", None))));
}

#[test]
fn other_errors_end_the_first_try() {
    for e in [Error::Sys, Error::Km(ErrorCode::TooManyOperations), Error::Other(-7)] {
        let first = LEVEL.upgrade_keyblob_if_required_with("dev", Some(8u64), vec![1], &[]);
        assert_eq!(first.resume::<()>(Err(e)), Upgrade::Done(Err(e)));
    }
}

#[test]
fn upgraded_blob_is_stored_and_then_tried() {
    let params = params();
    let first = LEVEL.upgrade_keyblob_if_required_with("dev", Some(8u64), vec![1], &params);
    assert_eq!(
        first,
        Attempt {
            device: "dev",
            key_id_guard: Some(8),
            blob: vec![1],
            params: &params,
            upgraded: false
        }
    );

    let Upgrade::UpgradeKey(upgrade) = first.resume::<&str>(Err(WANTS_UPGRADE)) else {
        panic!("an upgrade is due")
    };
    assert_eq!(
        upgrade,
        UpgradeKey { device: "dev", key_id_guard: Some(8), blob: vec![1], params: &params }
    );

    let Upgrade::InsertBlob(insert) = upgrade.resume::<&str>(Ok(vec![2, 3])) else {
        panic!("the new blob has to be stored")
    };
    assert_eq!(
        insert,
        InsertBlob {
            device: "dev",
            key_id_guard: 8,
            component: SubComponentType::KeyBlob,
            blob: vec![2, 3],
            params: &params
        }
    );

    let Upgrade::Attempt(second) = insert.resume::<&str>(Ok(())) else {
        panic!("a second try is due")
    };
    assert_eq!(
        second,
        Attempt {
            device: "dev",
            key_id_guard: None,
            blob: vec![2, 3],
            params: &params,
            upgraded: true
        }
    );
    assert_eq!(second.resume(Ok("done")), Upgrade::Done(Ok(("done", Some(vec![2, 3])))));
}

#[test]
fn blob_of_no_entry_is_not_stored() {
    let first = LEVEL.upgrade_keyblob_if_required_with("dev", None::<u64>, vec![1], &[]);
    let Upgrade::UpgradeKey(upgrade) = first.resume::<()>(Err(WANTS_UPGRADE)) else {
        panic!("an upgrade is due")
    };
    assert_eq!(
        upgrade.resume::<()>(Ok(vec![2])),
        Upgrade::Attempt(Attempt {
            device: "dev",
            key_id_guard: None,
            blob: vec![2],
            params: &[],
            upgraded: true
        })
    );
}

#[test]
fn second_demand_for_an_upgrade_is_an_error() {
    let second = Attempt {
        device: "dev",
        key_id_guard: None::<u64>,
        blob: vec![2],
        params: &[],
        upgraded: true,
    };
    assert_eq!(second.resume::<()>(Err(WANTS_UPGRADE)), Upgrade::Done(Err(WANTS_UPGRADE)));
}

#[test]
fn failed_upgrade_ends_the_run() {
    let upgrade =
        UpgradeKey { device: "dev", key_id_guard: Some(8u64), blob: vec![1], params: &[] };
    assert_eq!(upgrade.resume::<()>(Err(Error::Other(5))), Upgrade::Done(Err(Error::Other(5))));
    let insert = InsertBlob {
        device: "dev",
        key_id_guard: 8u64,
        component: SubComponentType::KeyBlob,
        blob: vec![2],
        params: &[],
    };
    assert_eq!(insert.resume::<()>(Err(Error::Sys)), Upgrade::Done(Err(Error::Sys)));
}

#[test]
fn security_level_is_served_with_its_device() {
    let pending = KeystoreSecurityLevel::new_native_binder(SecurityLevel::Strongbox);
    assert_eq!(pending.security_level, SecurityLevel::Strongbox);
    let binder = pending.resume(Ok("device")).unwrap();
    assert_eq!(binder.service.security_level, SecurityLevel::Strongbox);
    assert_eq!(binder.keymint, "device");
    assert!(binder.requesting_sid);

    let pending = KeystoreSecurityLevel::new_native_binder(SecurityLevel::Strongbox);
    assert_eq!(pending.resume::<&str>(Err(Error::Other(1))), Err(Error::Other(1)));
}
