use keystore_security_level::create_operation::{CreateOperation, OpenOperation};
use keystore_security_level::key_entry::KeyEntry;
use keystore_security_level::operation::{
    AuthTokenHandler, Authorization, BeginResult, CreateOperationResponse, HardwareAuthToken,
    NewOperation, OperationChallenge,
};
use keystore_security_level::security_level::KeystoreSecurityLevel;
use keystore_security_level::types::{
    Domain, Error, ErrorCode, HardwareAuthenticatorType, KeyDescriptor, KeyParameter,
    KeyParameterValue, KeyPerm, KeyPurpose, KsKeyParam, KsKeyParamValue, ScalarKind,
    SecurityLevel, Tag,
};
use keystore_security_level::upgrade::SubComponentType;

const LEVEL: KeystoreSecurityLevel =
    KeystoreSecurityLevel { security_level: SecurityLevel::Strongbox };
const UID: u32 = 10042;
const TOO_MANY: Error = Error::Km(ErrorCode::TooManyOperations);
const WANTS_UPGRADE: Error = Error::Km(ErrorCode::KeyRequiresUpgrade);
const INVALID: Error = Error::Km(ErrorCode::InvalidArgument);

type Op<'a> = CreateOperation<'a, u64, i16, &'static str, char, u8>;

fn params() -> Vec<KeyParameter> {
    vec![
        KeyParameter { tag: Tag::Other(40), value: KeyParameterValue::Blob(vec![1, 2]) },
        KeyParameter {
            tag: Tag::Purpose,
            value: KeyParameterValue::KeyPurpose(KeyPurpose { value: 2 }),
        },
    ]
}

fn key_param() -> KsKeyParam {
    KsKeyParam { value: KsKeyParamValue::UserID(3), security_level: SecurityLevel::Software }
}

fn entry(km_blob: Option<&[u8]>) -> KeyEntry {
    KeyEntry { km_blob: km_blob.map(|b| b.to_vec()), key_parameters: vec![key_param()] }
}

fn named() -> KeyDescriptor {
    KeyDescriptor {
        domain: Domain::App,
        nspace: 5,
        alias: Some("k".to_string()),
        blob: Some(vec![99]),
    }
}

fn own(blob: Option<&[u8]>) -> KeyDescriptor {
    KeyDescriptor {
        domain: Domain::Blob,
        nspace: 0,
        alias: None,
        blob: blob.map(|b| b.to_vec()),
    }
}

fn token(mac: u8) -> HardwareAuthToken {
    HardwareAuthToken {
        challenge: 1,
        user_id: 2,
        authenticator_id: 3,
        authenticator_type: HardwareAuthenticatorType::Password,
        timestamp_ms: 4,
        mac: vec![mac],
    }
}

fn begun(operation: Option<char>, params: Vec<KeyParameter>) -> BeginResult<char> {
    BeginResult { challenge: 777, params, operation }
}

/// Goes as far as the first try to begin, with a key of the database.
fn begin_loaded<'a>(
    key: &'a KeyDescriptor,
    params: &'a [KeyParameter],
    authorization: Authorization<&'static str>,
) -> Op<'a> {
    let Op::LoadKey(load) = LEVEL.create_operation(key, params, false, UID) else {
        panic!("the key has to be found")
    };
    let Op::Authorize(authorize) = load.resume(Ok((55, entry(Some(&[8]))))) else {
        panic!("authorization is due")
    };
    let Op::GetInterface(connect) = authorize.resume(Ok(authorization)) else {
        panic!("the device has to be reached")
    };
    connect.resume(Ok(-3))
}

fn free() -> Authorization<&'static str> {
    Authorization { handler: AuthTokenHandler::NoAuthRequired, auth_token: None }
}

#[test]
fn operation_with_a_blob_of_the_client() {
    let params = params();
    let key = own(Some(&[4]));
    let Op::CheckPermission(check) = LEVEL.create_operation(&key, &params, true, UID) else {
        panic!("the permission has to be checked")
    };
    assert_eq!(check.perm, KeyPerm::Use);
    assert_eq!(check.key, &key);
    let Op::GetInterface(connect) = check.resume(Ok(())) else {
        panic!("the device has to be reached")
    };
    let Op::Begin(begin) = connect.resume(Ok(-3)) else {
        panic!("the operation has to begin")
    };
    assert_eq!(begin.attempt.device, -3);
    assert_eq!(begin.attempt.blob, vec![4]);
    assert_eq!(begin.beginning.purpose, KeyPurpose { value: 2 });
    assert_eq!(begin.beginning.context.params, &params[..]);
    assert_eq!(begin.beginning.auth_token, None);
    let Op::Open(OpenOperation { operation, response }) = begin.resume(Ok(begun(Some('m'), vec![])))
    else {
        panic!("the operation has to be kept")
    };
    assert_eq!(
        operation,
        NewOperation {
            km_op: 'm',
            owner: UID,
            auth_token_handler: AuthTokenHandler::NoAuthRequired,
            key_parameters: None,
            challenge: None,
        }
    );
    let done: Op = response.resume(Ok(7));
    assert_eq!(
        done,
        Op::Done(Ok(CreateOperationResponse {
            i_operation: Some(7),
            operation_challenge: None,
            parameters: None,
        }))
    );
}

#[test]
fn operation_with_a_key_of_the_database_is_authorized() {
    let params = params();
    let key = named();
    let Op::LoadKey(load) = LEVEL.create_operation(&key, &params, false, UID) else {
        panic!("the key has to be found")
    };
    assert_eq!(load.lookup.key, &key);
    assert_eq!(load.lookup.caller_uid, UID);
    assert_eq!(load.lookup.perm, KeyPerm::Use);
    let Op::Authorize(authorize) = load.resume(Ok((55, entry(Some(&[8]))))) else {
        panic!("authorization is due")
    };
    assert_eq!(authorize.purpose, KeyPurpose { value: 2 });
    assert_eq!(authorize.key_params, vec![key_param()]);
    assert_eq!(authorize.security_level, SecurityLevel::Strongbox);
    let expected: Vec<KsKeyParam> = params
        .iter()
        .map(|p| KsKeyParam {
            value: KsKeyParamValue::Parameter(p.clone()),
            security_level: SecurityLevel::Strongbox,
        })
        .collect();
    assert_eq!(authorize.op_params, expected);
    let Op::GetInterface(connect) = authorize.resume(Ok(Authorization {
        handler: AuthTokenHandler::Other("token"),
        auth_token: Some(token(1)),
    })) else {
        panic!("the device has to be reached")
    };
    let Op::Begin(begin) = connect.resume(Ok(-3)) else {
        panic!("the operation has to begin")
    };
    assert_eq!(begin.attempt.blob, vec![8]);
    assert_eq!(begin.attempt.key_id_guard, Some(55));
    assert_eq!(begin.beginning.auth_token, Some(token(1)));
    let returned = vec![KeyParameter {
        tag: Tag::Other(50),
        value: KeyParameterValue::Scalar(ScalarKind::Integer, 16),
    }];
    let Op::Open(OpenOperation { operation, response }) =
        begin.resume(Ok(begun(Some('m'), returned.clone())))
    else {
        panic!("the operation has to be kept")
    };
    assert_eq!(
        operation,
        NewOperation {
            km_op: 'm',
            owner: UID,
            auth_token_handler: AuthTokenHandler::Other("token"),
            key_parameters: Some(vec![key_param()]),
            challenge: None,
        }
    );
    let done: Op = response.resume(Ok(7));
    assert_eq!(
        done,
        Op::Done(Ok(CreateOperationResponse {
            i_operation: Some(7),
            operation_challenge: None,
            parameters: Some(returned),
        }))
    );
}

#[test]
fn challenge_is_told_where_the_user_has_to_authenticate() {
    let params = params();
    let key = named();
    let Op::Begin(begin) = begin_loaded(
        &key,
        &params,
        Authorization { handler: AuthTokenHandler::OpAuthRequired, auth_token: None },
    ) else {
        panic!("the operation has to begin")
    };
    let Op::NoteChallenge(note) = begin.resume(Ok(begun(Some('m'), vec![]))) else {
        panic!("the challenge has to be noted")
    };
    assert_eq!(note.challenge, 777);
    let opened: Op = note.resume();
    let Op::Open(OpenOperation { operation, response }) = opened else {
        panic!("the operation has to be kept")
    };
    assert_eq!(operation.auth_token_handler, AuthTokenHandler::OpAuthRequired);
    assert_eq!(operation.challenge, Some(OperationChallenge { challenge: 777 }));
    let done: Op = response.resume(Ok(7));
    let Op::Done(Ok(response)) = done else { panic!("the operation is there") };
    assert_eq!(response.operation_challenge, Some(OperationChallenge { challenge: 777 }));
}

#[test]
fn timestamp_is_asked_for_where_it_is_missing() {
    let params = params();
    let key = named();
    let start = || {
        let Op::Begin(begin) = begin_loaded(
            &key,
            &params,
            Authorization {
                handler: AuthTokenHandler::TimestampRequired(token(2)),
                auth_token: Some(token(2)),
            },
        ) else {
            panic!("the operation has to begin")
        };
        let Op::RequestTimestamp(request) = begin.resume(Ok(begun(Some('m'), vec![]))) else {
            panic!("the timestamp has to be asked for")
        };
        request
    };
    assert_eq!(start().auth_token, token(2));
    assert_eq!(start().challenge, OperationChallenge { challenge: 777 });
    let opened: Op = start().resume(Ok(AuthTokenHandler::Other("with timestamp")));
    let Op::Open(OpenOperation { operation, response }) = opened else {
        panic!("the operation has to be kept")
    };
    assert_eq!(operation.auth_token_handler, AuthTokenHandler::Other("with timestamp"));
    assert_eq!(operation.challenge, None);
    assert_eq!(response.challenge, None);
    let failed: Op = start().resume(Err(Error::Other(8)));
    assert_eq!(failed, Op::Done(Err(Error::Other(8))));
}

#[test]
fn room_is_made_for_the_operation_as_often_as_needed() {
    let params = params();
    let key = named();
    let mut state = begin_loaded(&key, &params, free());
    for _ in 0..3 {
        let Op::Begin(begin) = state else { panic!("the operation has to begin") };
        assert_eq!(begin.attempt.blob, vec![8]);
        let Op::Prune(prune) = begin.resume(Err(TOO_MANY)) else {
            panic!("room has to be made")
        };
        assert_eq!(prune.beginning.context.caller_uid, UID);
        state = prune.resume(Ok(()));
    }
    let Op::Begin(begin) = state else { panic!("the operation has to begin") };
    let Op::Prune(prune) = begin.resume(Err(TOO_MANY)) else { panic!("room has to be made") };
    let failed: Op = prune.resume(Err(Error::Other(18)));
    assert_eq!(failed, Op::Done(Err(Error::Other(18))));
}

#[test]
fn operation_begins_with_the_upgraded_blob() {
    let params = params();
    let key = named();
    let Op::Begin(begin) = begin_loaded(&key, &params, free()) else {
        panic!("the operation has to begin")
    };
    let Op::UpgradeKey(upgrade) = begin.resume(Err(WANTS_UPGRADE)) else {
        panic!("an upgrade is due")
    };
    assert_eq!(upgrade.upgrade.blob, vec![8]);
    assert_eq!(upgrade.upgrade.params, &params[..]);
    let Op::InsertBlob(insert) = upgrade.resume(Ok(vec![80])) else {
        panic!("the new blob has to be stored")
    };
    assert_eq!(insert.insert.key_id_guard, 55);
    assert_eq!(insert.insert.component, SubComponentType::KeyBlob);
    assert_eq!(insert.insert.blob, vec![80]);
    let Op::Begin(second) = insert.resume(Ok(())) else { panic!("a second try is due") };
    assert_eq!(second.attempt.device, -3);
    assert_eq!(second.attempt.blob, vec![80]);
    let Op::Prune(prune) = second.resume(Err(TOO_MANY)) else { panic!("room has to be made") };
    let Op::Begin(again) = prune.resume(Ok(())) else { panic!("the same try again") };
    assert_eq!(again.attempt.blob, vec![80]);
    let failed: Op = again.resume(Err(WANTS_UPGRADE));
    assert_eq!(failed, Op::Done(Err(WANTS_UPGRADE)));
}

#[test]
fn upgraded_blob_of_the_client_is_not_stored() {
    let params = params();
    let key = own(Some(&[4]));
    let Op::CheckPermission(check) = LEVEL.create_operation(&key, &params, false, UID) else {
        panic!("the permission has to be checked")
    };
    let Op::GetInterface(connect) = check.resume(Ok(())) else { panic!("the device") };
    let Op::Begin(begin) = connect.resume(Ok(-3)) else { panic!("the operation") };
    let Op::UpgradeKey(upgrade) = begin.resume(Err(WANTS_UPGRADE)) else {
        panic!("an upgrade is due")
    };
    let Op::Begin(second) = upgrade.resume(Ok(vec![40])) else { panic!("a second try is due") };
    assert_eq!(second.attempt.blob, vec![40]);
    assert!(second.attempt.upgraded);
}

#[test]
fn demand_for_an_upgrade_while_making_room_is_met() {
    let params = params();
    let key = named();
    let Op::Begin(begin) = begin_loaded(&key, &params, free()) else {
        panic!("the operation has to begin")
    };
    let Op::Prune(prune) = begin.resume(Err(TOO_MANY)) else { panic!("room has to be made") };
    let next: Op = prune.resume(Err(WANTS_UPGRADE));
    assert!(matches!(next, Op::UpgradeKey(_)));
}

#[test]
fn operation_needs_a_blob_and_a_purpose() {
    let good = params();
    let check = |key: &KeyDescriptor, params: &[KeyParameter]| {
        let Op::CheckPermission(check) = LEVEL.create_operation(key, params, false, UID) else {
            panic!("the permission has to be checked")
        };
        let next: Op = check.resume(Ok(()));
        let Op::Done(Err(e)) = next else { panic!("this has to fail") };
        e
    };
    assert_eq!(check(&own(None), &good), Error::Sys);
    assert_eq!(check(&own(None), &[]), Error::Sys);
    assert_eq!(check(&own(Some(&[4])), &[]), INVALID);
    let load = |params: &[KeyParameter], found: KeyEntry| {
        let key = named();
        let Op::LoadKey(load) = LEVEL.create_operation(&key, params, false, UID) else {
            panic!("the key has to be found")
        };
        let next: Op = load.resume(Ok((55, found)));
        let Op::Done(Err(e)) = next else { panic!("this has to fail") };
        e
    };
    assert_eq!(load(&good, entry(None)), Error::Sys);
    assert_eq!(load(&[], entry(None)), Error::Sys);
    assert_eq!(load(&[], entry(Some(&[8]))), INVALID);
}

#[test]
fn operation_that_the_device_does_not_have_is_a_system_error() {
    let params = params();
    let key = named();
    let Op::Begin(begin) = begin_loaded(&key, &params, free()) else { panic!("begin") };
    let next: Op = begin.resume(Ok(begun(None, vec![])));
    assert_eq!(next, Op::Done(Err(Error::Sys)));
    let Op::Begin(begin) = begin_loaded(
        &key,
        &params,
        Authorization { handler: AuthTokenHandler::OpAuthRequired, auth_token: None },
    ) else {
        panic!("begin")
    };
    let Op::NoteChallenge(note) = begin.resume::<char, u8>(Ok(begun(None, vec![]))) else {
        panic!("the challenge has to be noted")
    };
    let next: Op = note.resume();
    assert_eq!(next, Op::Done(Err(Error::Sys)));
}

#[test]
fn operation_fails_as_its_steps_do() {
    let e = Error::Other(21);
    let failed = || Op::Done(Err(e));
    let params = params();
    let key = named();
    let blob = own(Some(&[4]));

    let Op::CheckPermission(check) = LEVEL.create_operation(&blob, &params, false, UID) else {
        panic!("check")
    };
    assert_eq!(check.resume(Err(e)), failed());

    let load = || {
        let Op::LoadKey(load) = LEVEL.create_operation(&key, &params, false, UID) else {
            panic!("load")
        };
        load
    };
    assert_eq!(load().resume(Err(e)), failed());

    let authorize = || {
        let Op::Authorize(authorize) = load().resume(Ok((55, entry(Some(&[8]))))) else {
            panic!("authorize")
        };
        authorize
    };
    assert_eq!(authorize().resume(Err(e)), failed());

    let Op::GetInterface(connect) = authorize().resume(Ok(free())) else { panic!("connect") };
    assert_eq!(connect.resume(Err(e)), failed());

    let begin = || {
        let Op::Begin(begin) = begin_loaded(&key, &params, free()) else { panic!("begin") };
        begin
    };
    assert_eq!(begin().resume(Err(e)), failed());

    let upgrade = || {
        let Op::UpgradeKey(upgrade) = begin().resume(Err(WANTS_UPGRADE)) else {
            panic!("upgrade")
        };
        upgrade
    };
    assert_eq!(upgrade().resume(Err(e)), failed());

    let Op::InsertBlob(insert) = upgrade().resume(Ok(vec![80])) else { panic!("insert") };
    assert_eq!(insert.resume(Err(e)), failed());

    let Op::Open(open) = begin().resume(Ok(begun(Some('m'), vec![]))) else { panic!("open") };
    assert_eq!(open.response.resume(Err(e)), failed());
}
