//! Importing a key that another key wraps.

use crate::key_entry::{KeyEntry, KeyEntryLoadBits, KeyLookup, KeyType};
use crate::process::{is_run, step_at, Process};
use crate::request::{
    authenticator_sid, bound_key, has_type, law_first_where, lemma_first_of_type, names_new_key,
    new_key_descriptor, sid_of,
};
use crate::security_level::KeystoreSecurityLevel;
use crate::store::{describes, is_created, StoreNewKey, StoreReply};
use crate::target::{Caller, Target};
use crate::types::{
    AuthenticatorSpec, DateTime, Domain, Error, ErrorCode, HardwareAuthenticatorType,
    KeyCreationResult, KeyDescriptor, KeyMetadata, KeyParameter, KeyPerm,
};
use crate::upgrade::{Attempt, InsertBlob, SubComponentType, Upgrade, UpgradeKey};
use vstd::prelude::*;
use vstd::slice::{slice_subrange, slice_to_vec};

verus! {

/// What a wrapped key is imported from.
#[derive(Debug, PartialEq, Eq)]
pub struct WrappedImport<'a> {
    pub target: Target,
    pub caller_uid: u32,
    pub wrapping_key: &'a KeyDescriptor,
    pub wrapped_data: &'a [u8],
    pub masking_key: Option<&'a [u8]>,
    pub params: &'a [KeyParameter],
    pub authenticators: &'a [AuthenticatorSpec],
}

/// Waits for the check that the caller has the permission `perm` for the key of the target.
#[derive(Debug, PartialEq, Eq)]
pub struct CheckWrapped<'a> {
    pub perm: KeyPerm,
    pub import: WrappedImport<'a>,
}

/// Waits for the entry of the wrapping key.
#[derive(Debug, PartialEq, Eq)]
pub struct LoadWrappingKey<'a> {
    pub lookup: KeyLookup<'a>,
    pub import: WrappedImport<'a>,
}

/// What the device needs to unwrap a key.
#[derive(Debug, PartialEq, Eq)]
pub struct Unwrapping<'a> {
    pub target: Target,
    pub wrapped_data: &'a [u8],
    pub wrapping_key_blob: Vec<u8>,
    pub masking_key: Vec<u8>,
    pub params: &'a [KeyParameter],
    pub password_sid: i64,
    pub fingerprint_sid: i64,
}

/// Waits for the interface of the device.
#[derive(Debug, PartialEq, Eq)]
pub struct ConnectWrapped<'a, G> {
    pub key_id_guard: G,
    pub unwrapping: Unwrapping<'a>,
}

/// Waits for the device of `attempt` to unwrap the wrapped data of `unwrapping` with the
/// wrapping key blob of `unwrapping`, and to import the key. A second try hands the device
/// that same blob, though the one of `attempt` has been upgraded by then.
#[derive(Debug, PartialEq, Eq)]
pub struct UnwrapKey<'a, G, D> {
    pub attempt: Attempt<'a, G, D>,
    pub unwrapping: Unwrapping<'a>,
}

/// Waits for the device to upgrade the blob of the wrapping key.
#[derive(Debug, PartialEq, Eq)]
pub struct UpgradeWrappingKey<'a, G, D> {
    pub upgrade: UpgradeKey<'a, G, D>,
    pub unwrapping: Unwrapping<'a>,
}

/// Waits for the database to store the new blob of the wrapping key.
#[derive(Debug, PartialEq, Eq)]
pub struct InsertWrappingKey<'a, G, D> {
    pub insert: InsertBlob<'a, G, D>,
    pub unwrapping: Unwrapping<'a>,
}

/// Imports a wrapped key and keeps it.
#[derive(Debug, PartialEq, Eq)]
pub enum ImportWrappedKey<'a, G, D> {
    CheckPermission(CheckWrapped<'a>),
    LoadWrappingKey(LoadWrappingKey<'a>),
    GetInterface(ConnectWrapped<'a, G>),
    UnwrapKey(UnwrapKey<'a, G, D>),
    UpgradeKey(UpgradeWrappingKey<'a, G, D>),
    InsertBlob(InsertWrappingKey<'a, G, D>),
    /// The key is there. What is left is to keep it.
    Store(StoreNewKey),
    /// There is no key.
    Failed(Error),
}

/// What an `ImportWrappedKey` can be answered.
pub enum WrappedReply<G, D> {
    Permission(Result<(), Error>),
    KeyEntry(Result<(G, KeyEntry), Error>),
    Interface(Result<D, Error>),
    Unwrapped(Result<KeyCreationResult, Error>),
    Upgraded(Result<Vec<u8>, Error>),
    Inserted(Result<(), Error>),
    Store(StoreReply),
}

/// The masking key that stands for none: 32 zeroes.
pub open spec fn zero_blob_32() -> Seq<u8> {
    Seq::new(32, |i: int| 0u8)
}

/// The masking key that the device gets.
pub open spec fn effective_masking_key(masking_key: Option<&[u8]>) -> Seq<u8> {
    match masking_key {
        Some(m) => m@,
        None => zero_blob_32(),
    }
}

impl<'a> CheckWrapped<'a> {
    /// What follows the check: the wrapping key is searched for, for use by the caller.
    pub open spec fn next<G, D>(self, allowed: Result<(), Error>) -> ImportWrappedKey<'a, G, D> {
        match allowed {
            Ok(_) => ImportWrappedKey::LoadWrappingKey(
                LoadWrappingKey {
                    lookup: KeyLookup::for_use(self.import.wrapping_key, self.import.caller_uid),
                    import: self.import,
                },
            ),
            Err(e) => ImportWrappedKey::Failed(e),
        }
    }

    /// Takes the result of the check.
    pub fn resume<G, D>(self, allowed: Result<(), Error>) -> (next: ImportWrappedKey<'a, G, D>)
        ensures
            next == self.next::<G, D>(allowed),
    {
        match allowed {
            Ok(_) => ImportWrappedKey::LoadWrappingKey(
                LoadWrappingKey {
                    lookup: KeyLookup::new_for_use(
                        self.import.wrapping_key,
                        self.import.caller_uid,
                    ),
                    import: self.import,
                },
            ),
            Err(e) => ImportWrappedKey::Failed(e),
        }
    }
}

impl<'a> Unwrapping<'a> {
    /// Whether this is what the device needs for an import, once the blob of the wrapping
    /// key is known.
    pub open spec fn is_of(self, import: WrappedImport<'a>, wrapping_key_blob: Vec<u8>) -> bool {
        &&& self.target == import.target
        &&& self.wrapped_data == import.wrapped_data
        &&& self.wrapping_key_blob == wrapping_key_blob
        &&& self.masking_key@ == effective_masking_key(import.masking_key)
        &&& self.params == import.params
        &&& sid_of(import.authenticators@, HardwareAuthenticatorType::Password) == Ok::<i64, Error>(
            self.password_sid,
        )
        &&& sid_of(import.authenticators@, HardwareAuthenticatorType::Fingerprint) == Ok::<
            i64,
            Error,
        >(self.fingerprint_sid)
    }
}

impl<'a> LoadWrappingKey<'a> {
    /// Whether `next` follows the answer of the database: the entry must have a blob, and
    /// both a password and a fingerprint authenticator must be given.
    pub open spec fn leads_to<G, D>(
        self,
        loaded: Result<(G, KeyEntry), Error>,
        next: ImportWrappedKey<'a, G, D>,
    ) -> bool {
        match loaded {
            Err(e) => next == ImportWrappedKey::<G, D>::Failed(e),
            Ok((_, KeyEntry { km_blob: None, .. })) => next == ImportWrappedKey::<G, D>::Failed(
                Error::Sys,
            ),
            Ok((key_id_guard, KeyEntry { km_blob: Some(blob), .. })) => if sid_of(
                self.import.authenticators@,
                HardwareAuthenticatorType::Password,
            ) is Err || sid_of(
                self.import.authenticators@,
                HardwareAuthenticatorType::Fingerprint,
            ) is Err {
                next == ImportWrappedKey::<G, D>::Failed(Error::invalid_argument())
            } else {
                next matches ImportWrappedKey::GetInterface(s) && {
                    &&& s.key_id_guard == key_id_guard
                    &&& s.unwrapping.is_of(self.import, blob)
                }
            },
        }
    }

    /// Takes the answer of the database.
    pub fn resume<G, D>(self, loaded: Result<(G, KeyEntry), Error>) -> (next:
        ImportWrappedKey<'a, G, D>)
        ensures
            self.leads_to(loaded, next),
    {
        let (key_id_guard, entry) = match loaded {
            Ok(found) => found,
            Err(e) => return ImportWrappedKey::Failed(e),
        };
        let wrapping_key_blob = match entry.km_blob {
            Some(blob) => blob,
            None => return ImportWrappedKey::Failed(Error::Sys),
        };
        let import = self.import;
        let password_sid = match authenticator_sid(
            import.authenticators,
            HardwareAuthenticatorType::Password,
        ) {
            Ok(sid) => sid,
            Err(e) => return ImportWrappedKey::Failed(e),
        };
        let fingerprint_sid = match authenticator_sid(
            import.authenticators,
            HardwareAuthenticatorType::Fingerprint,
        ) {
            Ok(sid) => sid,
            Err(e) => return ImportWrappedKey::Failed(e),
        };
        let masking_key = match import.masking_key {
            Some(masking_key) => slice_to_vec(masking_key),
            None => vec![0u8; 32],
        };
        assert(masking_key@ =~= effective_masking_key(import.masking_key));
        ImportWrappedKey::GetInterface(
            ConnectWrapped {
                key_id_guard,
                unwrapping: Unwrapping {
                    target: import.target,
                    wrapped_data: import.wrapped_data,
                    wrapping_key_blob,
                    masking_key,
                    params: import.params,
                    password_sid,
                    fingerprint_sid,
                },
            },
        )
    }
}

impl<'a, G> ConnectWrapped<'a, G> {
    /// Whether `next` follows the connection: the first try with the blob of the wrapping
    /// key. An upgrade of that blob would get no parameters.
    pub open spec fn leads_to<D>(
        self,
        connected: Result<D, Error>,
        next: ImportWrappedKey<'a, G, D>,
    ) -> bool {
        match connected {
            Err(e) => next == ImportWrappedKey::<G, D>::Failed(e),
            Ok(device) => next matches ImportWrappedKey::UnwrapKey(s) && {
                &&& s.unwrapping == self.unwrapping
                &&& s.attempt.device == device
                &&& s.attempt.key_id_guard == Some(self.key_id_guard)
                &&& s.attempt.blob@ == self.unwrapping.wrapping_key_blob@
                &&& s.attempt.params@.len() == 0
                &&& !s.attempt.upgraded
            },
        }
    }

    /// Takes the interface of the device, or why it is not there.
    pub fn resume<D>(self, connected: Result<D, Error>) -> (next: ImportWrappedKey<'a, G, D>)
        ensures
            self.leads_to(connected, next),
    {
        let device = match connected {
            Ok(device) => device,
            Err(e) => return ImportWrappedKey::Failed(e),
        };
        let blob = slice_to_vec(self.unwrapping.wrapping_key_blob.as_slice());
        let no_params = slice_subrange(self.unwrapping.params, 0, 0);
        let attempt = self.unwrapping.target.level.upgrade_keyblob_if_required_with(
            device,
            Some(self.key_id_guard),
            blob,
            no_params,
        );
        ImportWrappedKey::UnwrapKey(UnwrapKey { attempt, unwrapping: self.unwrapping })
    }
}

impl<'a> Unwrapping<'a> {
    /// Whether `next` is the import of the key as far as the use of the wrapping key has
    /// come.
    pub open spec fn continues_as<G, D>(
        self,
        upgrade: Upgrade<'a, G, D, KeyCreationResult>,
        next: ImportWrappedKey<'a, G, D>,
    ) -> bool {
        match upgrade {
            Upgrade::Attempt(attempt) => next == ImportWrappedKey::UnwrapKey(
                UnwrapKey { attempt, unwrapping: self },
            ),
            Upgrade::UpgradeKey(upgrade) => next == ImportWrappedKey::UpgradeKey(
                UpgradeWrappingKey { upgrade, unwrapping: self },
            ),
            Upgrade::InsertBlob(insert) => next == ImportWrappedKey::InsertBlob(
                InsertWrappingKey { insert, unwrapping: self },
            ),
            Upgrade::Done(Err(e)) => next == ImportWrappedKey::<G, D>::Failed(e),
            Upgrade::Done(Ok((created, _))) => next matches ImportWrappedKey::Store(s)
                && self.target.keeps(created, s),
        }
    }

    /// Goes on with the import as far as the use of the wrapping key has come.
    fn proceed<G, D>(self, upgrade: Upgrade<'a, G, D, KeyCreationResult>) -> (next:
        ImportWrappedKey<'a, G, D>)
        ensures
            self.continues_as(upgrade, next),
    {
        match upgrade {
            Upgrade::Attempt(attempt) => ImportWrappedKey::UnwrapKey(
                UnwrapKey { attempt, unwrapping: self },
            ),
            Upgrade::UpgradeKey(upgrade) => ImportWrappedKey::UpgradeKey(
                UpgradeWrappingKey { upgrade, unwrapping: self },
            ),
            Upgrade::InsertBlob(insert) => ImportWrappedKey::InsertBlob(
                InsertWrappingKey { insert, unwrapping: self },
            ),
            Upgrade::Done(Err(e)) => ImportWrappedKey::Failed(e),
            Upgrade::Done(Ok((created, _))) => ImportWrappedKey::Store(self.target.keep(created)),
        }
    }
}

impl<'a, G, D> UnwrapKey<'a, G, D> {
    /// Whether `next` follows the answer of the device.
    pub open spec fn leads_to(
        self,
        unwrapped: Result<KeyCreationResult, Error>,
        next: ImportWrappedKey<'a, G, D>,
    ) -> bool {
        self.unwrapping.continues_as(self.attempt.next(unwrapped), next)
    }

    /// Takes the answer of the device.
    pub fn resume(self, unwrapped: Result<KeyCreationResult, Error>) -> (next:
        ImportWrappedKey<'a, G, D>)
        ensures
            self.leads_to(unwrapped, next),
    {
        self.unwrapping.proceed(self.attempt.resume(unwrapped))
    }
}

impl<'a, G, D> UpgradeWrappingKey<'a, G, D> {
    /// Whether `next` follows the answer of the device.
    pub open spec fn leads_to(
        self,
        upgraded: Result<Vec<u8>, Error>,
        next: ImportWrappedKey<'a, G, D>,
    ) -> bool {
        self.unwrapping.continues_as(self.upgrade.next(upgraded), next)
    }

    /// Takes the answer of the device.
    pub fn resume(self, upgraded: Result<Vec<u8>, Error>) -> (next: ImportWrappedKey<'a, G, D>)
        ensures
            self.leads_to(upgraded, next),
    {
        self.unwrapping.proceed(self.upgrade.resume(upgraded))
    }
}

impl<'a, G, D> InsertWrappingKey<'a, G, D> {
    /// Whether `next` follows the answer of the database.
    pub open spec fn leads_to(
        self,
        inserted: Result<(), Error>,
        next: ImportWrappedKey<'a, G, D>,
    ) -> bool {
        self.unwrapping.continues_as(self.insert.next(inserted), next)
    }

    /// Takes the answer of the database.
    pub fn resume(self, inserted: Result<(), Error>) -> (next: ImportWrappedKey<'a, G, D>)
        ensures
            self.leads_to(inserted, next),
    {
        self.unwrapping.proceed(self.insert.resume(inserted))
    }
}

impl<'a, G, D> ImportWrappedKey<'a, G, D> {
    /// What the request has come to, once it is finished.
    pub open spec fn outcome(self) -> Option<Result<KeyMetadata, Error>> {
        match self {
            ImportWrappedKey::Failed(e) => Some(Err(e)),
            ImportWrappedKey::Store(StoreNewKey::Done(r)) => Some(r),
            _ => None,
        }
    }
}

impl<'a, G, D> Process for ImportWrappedKey<'a, G, D> {
    type Reply = WrappedReply<G, D>;

    open spec fn step(self, reply: WrappedReply<G, D>, next: Self) -> bool {
        match (self, reply) {
            (ImportWrappedKey::CheckPermission(s), WrappedReply::Permission(r)) => next == s.next::<
                G,
                D,
            >(r),
            (ImportWrappedKey::LoadWrappingKey(s), WrappedReply::KeyEntry(r)) => s.leads_to(
                r,
                next,
            ),
            (ImportWrappedKey::GetInterface(s), WrappedReply::Interface(r)) => s.leads_to(r, next),
            (ImportWrappedKey::UnwrapKey(s), WrappedReply::Unwrapped(r)) => s.leads_to(r, next),
            (ImportWrappedKey::UpgradeKey(s), WrappedReply::Upgraded(r)) => s.leads_to(r, next),
            (ImportWrappedKey::InsertBlob(s), WrappedReply::Inserted(r)) => s.leads_to(r, next),
            (ImportWrappedKey::Store(s), WrappedReply::Store(r)) => {
                next matches ImportWrappedKey::Store(n) && s.step(r, n)
            },
            _ => false,
        }
    }
}

/// A request to import a wrapped key: who asks, where, and for what.
pub struct WrappedRequest<'a> {
    pub level: KeystoreSecurityLevel,
    pub key: KeyDescriptor,
    pub wrapping_key: &'a KeyDescriptor,
    pub masking_key: Option<&'a [u8]>,
    pub params: &'a [KeyParameter],
    pub authenticators: &'a [AuthenticatorSpec],
    pub caller: Caller,
}

impl<'a> WrappedRequest<'a> {
    /// Whether the request is well-formed: the descriptor must be able to name the new
    /// key and hold the wrapped data, and the wrapping key must be one that Keystore
    /// keeps.
    pub open spec fn is_well_formed(self) -> bool {
        &&& names_new_key(self.key)
        &&& self.wrapping_key.domain != Domain::Blob
        &&& self.key.blob is Some
    }

    /// Whether `first` is how the request begins. It must be well-formed. Then the caller
    /// needs the permission to rebind the key that the new one will be bound to.
    pub open spec fn begins_as<G, D>(self, first: ImportWrappedKey<'a, G, D>) -> bool {
        if self.is_well_formed() {
            first matches ImportWrappedKey::CheckPermission(s) && {
                &&& s.perm == KeyPerm::Rebind
                &&& s.import.target.is_of(self.level, self.key, self.caller)
                &&& s.import.caller_uid == self.caller.uid
                &&& s.import.wrapping_key == self.wrapping_key
                &&& s.import.wrapped_data@ == self.key.blob->0@
                &&& s.import.masking_key == self.masking_key
                &&& s.import.params == self.params
                &&& s.import.authenticators == self.authenticators
            }
        } else {
            first == ImportWrappedKey::<'a, G, D>::Failed(Error::invalid_argument())
        }
    }
}

impl KeystoreSecurityLevel {
    /// Takes up a request to import the wrapped key that the blob of `key` holds.
    pub fn import_wrapped_key<'a, G, D>(
        &self,
        key: &'a KeyDescriptor,
        wrapping_key: &'a KeyDescriptor,
        masking_key: Option<&'a [u8]>,
        params: &'a [KeyParameter],
        authenticators: &'a [AuthenticatorSpec],
        caller: Caller,
    ) -> (first: ImportWrappedKey<'a, G, D>)
        ensures
            (WrappedRequest {
                level: *self,
                key: *key,
                wrapping_key,
                masking_key,
                params,
                authenticators,
                caller,
            }).begins_as(first),
    {
        let bound = match new_key_descriptor(key, caller.uid) {
            Ok(bound) => bound,
            Err(e) => return ImportWrappedKey::Failed(e),
        };
        if wrapping_key.domain == Domain::Blob {
            return ImportWrappedKey::Failed(Error::Km(ErrorCode::InvalidArgument));
        }
        let wrapped_data = match &key.blob {
            Some(data) => data.as_slice(),
            None => return ImportWrappedKey::Failed(Error::Km(ErrorCode::InvalidArgument)),
        };
        ImportWrappedKey::CheckPermission(
            CheckWrapped {
                perm: KeyPerm::Rebind,
                import: WrappedImport {
                    target: Target { level: *self, key: bound, user_id: caller.user_id },
                    caller_uid: caller.uid,
                    wrapping_key,
                    wrapped_data,
                    masking_key,
                    params,
                    authenticators,
                },
            },
        )
    }
}

/// Whether a request to import a wrapped key passes through `states` as it gets `replies`.
pub open spec fn is_wrapped_run<'a, G, D>(
    request: WrappedRequest<'a>,
    states: Seq<ImportWrappedKey<'a, G, D>>,
    replies: Seq<WrappedReply<G, D>>,
) -> bool {
    &&& is_run(states, replies)
    &&& request.begins_as(states[0])
}

/// A run of at most ten states, each by its position.
proof fn lemma_wrapped_states<'a, G, D>(
    request: WrappedRequest<'a>,
    states: Seq<ImportWrappedKey<'a, G, D>>,
    replies: Seq<WrappedReply<G, D>>,
)
    requires
        is_wrapped_run(request, states, replies),
    ensures
        replies.len() <= 9,
        replies.len() >= 1 ==> step_at(states, replies, 0),
        replies.len() >= 2 ==> step_at(states, replies, 1),
        replies.len() >= 3 ==> step_at(states, replies, 2),
        replies.len() >= 4 ==> step_at(states, replies, 3),
        replies.len() >= 5 ==> step_at(states, replies, 4),
        replies.len() >= 6 ==> step_at(states, replies, 5),
        replies.len() >= 7 ==> step_at(states, replies, 6),
        replies.len() >= 8 ==> step_at(states, replies, 7),
        replies.len() >= 9 ==> step_at(states, replies, 8),
{
    assert(replies.len() >= 1 ==> step_at(states, replies, 0));
    assert(replies.len() >= 2 ==> step_at(states, replies, 1));
    assert(replies.len() >= 3 ==> step_at(states, replies, 2));
    assert(replies.len() >= 4 ==> step_at(states, replies, 3));
    assert(replies.len() >= 5 ==> step_at(states, replies, 4));
    assert(replies.len() >= 6 ==> step_at(states, replies, 5));
    assert(replies.len() >= 7 ==> step_at(states, replies, 6));
    assert(replies.len() >= 8 ==> step_at(states, replies, 7));
    assert(replies.len() >= 9 ==> step_at(states, replies, 8));
    assert(replies.len() >= 10 ==> step_at(states, replies, 9));
}

/// Importing a wrapped key requires the rebind permission for the new key: nothing is asked
/// of the device or of the database before the caller was found to have it, for the very
/// descriptor that the new key is bound to.
pub proof fn law_wrapped_import_requires_rebind<'a, G, D>(
    request: WrappedRequest<'a>,
    states: Seq<ImportWrappedKey<'a, G, D>>,
    replies: Seq<WrappedReply<G, D>>,
    i: int,
)
    requires
        is_wrapped_run(request, states, replies),
        0 <= i < states.len(),
        states[i] !is CheckPermission,
        states[i] !is Failed,
    ensures
        i > 0,
        states[0] matches ImportWrappedKey::CheckPermission(s) && s.perm == KeyPerm::Rebind
            && s.import.target.key@ == bound_key(request.key@, request.caller.uid),
        replies[0] matches WrappedReply::Permission(Ok(_)),
{
    lemma_wrapped_states(request, states, replies);
}

/// Nothing is asked of the device before the wrapping key was found in the database, on
/// behalf of a caller who may use it.
pub proof fn law_wrapping_key_is_usable<'a, G, D>(
    request: WrappedRequest<'a>,
    states: Seq<ImportWrappedKey<'a, G, D>>,
    replies: Seq<WrappedReply<G, D>>,
    i: int,
)
    requires
        is_wrapped_run(request, states, replies),
        0 <= i < states.len(),
        states[i] !is CheckPermission,
        states[i] !is LoadWrappingKey,
        states[i] !is Failed,
    ensures
        i > 1,
        states[1] matches ImportWrappedKey::LoadWrappingKey(s) && s.lookup == KeyLookup::for_use(
            request.wrapping_key,
            request.caller.uid,
        ),
        replies[1] matches WrappedReply::KeyEntry(Ok(_)),
{
    lemma_wrapped_states(request, states, replies);
}

/// Each time the device that was reached is asked to unwrap the key it gets what the caller
/// gave: the wrapped data, the parameters, the masking key or, for want of one, zeroes, and
/// the ids of the first password and of the first fingerprint authenticator. It also gets
/// the blob of the wrapping key as it was found in the database.
pub proof fn law_unwrapped_as_given<'a, G, D>(
    request: WrappedRequest<'a>,
    states: Seq<ImportWrappedKey<'a, G, D>>,
    replies: Seq<WrappedReply<G, D>>,
    i: int,
)
    requires
        is_wrapped_run(request, states, replies),
        0 <= i < states.len(),
        states[i] is UnwrapKey,
    ensures
        states[i] matches ImportWrappedKey::UnwrapKey(s) && {
            &&& request.key.blob is Some
            &&& s.unwrapping.wrapped_data@ == request.key.blob->0@
            &&& replies[1] matches WrappedReply::KeyEntry(Ok((_, entry)))
            &&& entry.km_blob == Some(s.unwrapping.wrapping_key_blob)
            &&& s.unwrapping.masking_key@ == effective_masking_key(request.masking_key)
            &&& s.unwrapping.params == request.params
            &&& replies[2] == WrappedReply::<G, D>::Interface(Ok(s.attempt.device))
            &&& sid_of(request.authenticators@, HardwareAuthenticatorType::Password) == Ok::<
                i64,
                Error,
            >(s.unwrapping.password_sid)
            &&& sid_of(request.authenticators@, HardwareAuthenticatorType::Fingerprint) == Ok::<
                i64,
                Error,
            >(s.unwrapping.fingerprint_sid)
        },
{
    lemma_wrapped_states(request, states, replies);
}

/// The key is unwrapped at most twice. The second time comes only after the device asked
/// for an upgrade of the blob of the wrapping key, made it, and the database stored it
/// in the entry that the wrapping key was found in.
pub proof fn law_unwrapped_again_after_upgrade<'a, G, D>(
    request: WrappedRequest<'a>,
    states: Seq<ImportWrappedKey<'a, G, D>>,
    replies: Seq<WrappedReply<G, D>>,
    i: int,
)
    requires
        is_wrapped_run(request, states, replies),
        3 < i < states.len(),
        states[i] is UnwrapKey,
    ensures
        i == 6,
        replies[3] == WrappedReply::<G, D>::Unwrapped(
            Err(Error::Km(ErrorCode::KeyRequiresUpgrade)),
        ),
        states[4] matches ImportWrappedKey::UpgradeKey(u) && {
            &&& replies[1] matches WrappedReply::KeyEntry(Ok((key_id_guard, entry)))
            &&& entry.km_blob is Some
            &&& u.upgrade.blob@ == entry.km_blob->0@
            &&& u.upgrade.params@.len() == 0
            &&& replies[2] == WrappedReply::<G, D>::Interface(Ok(u.upgrade.device))
            &&& states[5] matches ImportWrappedKey::InsertBlob(n)
            &&& replies[4] == WrappedReply::<G, D>::Upgraded(Ok(n.insert.blob))
            &&& n.insert.key_id_guard == key_id_guard
            &&& n.insert.component == SubComponentType::KeyBlob
            &&& replies[5] matches WrappedReply::Inserted(Ok(_))
        },
{
    lemma_wrapped_states(request, states, replies);
}

/// A caller that is told about a new key is told about the one that the device unwrapped,
/// with the time at which it was imported, and finds it as `describes` says.
pub proof fn law_unwrapped_key_is_described<'a, G, D>(
    request: WrappedRequest<'a>,
    states: Seq<ImportWrappedKey<'a, G, D>>,
    replies: Seq<WrappedReply<G, D>>,
)
    requires
        is_wrapped_run(request, states, replies),
        states.last() matches ImportWrappedKey::Store(StoreNewKey::Done(Ok(_))),
    ensures
        ({
            let k = states.len() - if request.key.domain == Domain::Blob {
                3int
            } else {
                4int
            };
            &&& states.last() matches ImportWrappedKey::Store(StoreNewKey::Done(Ok(metadata)))
            &&& states[k] is UnwrapKey
            &&& replies[k] matches WrappedReply::Unwrapped(Ok(created))
            &&& replies[k + 1] matches WrappedReply::Store(StoreReply::Time(Ok(now)))
            &&& describes(
                metadata,
                request.level,
                request.key.domain,
                created,
                request.caller.user_id,
                now,
            )
            &&& request.key.domain != Domain::Blob ==> {
                &&& states[k + 2] matches ImportWrappedKey::Store(StoreNewKey::StoreKey(s))
                &&& s.new_key.key@ == bound_key(request.key@, request.caller.uid)
                &&& replies[k + 2] == WrappedReply::<G, D>::Store(
                    StoreReply::Stored(Ok(metadata.key.nspace)),
                )
            }
        }),
{
    lemma_wrapped_states(request, states, replies);
}

/// A request to import a wrapped key that ends without one was malformed, ended with the
/// error of its last reply, or found the entry of the wrapping key without a blob.
/// Missing authenticators are found out only after the wrapping key.
pub proof fn law_wrapped_import_failure<'a, G, D>(
    request: WrappedRequest<'a>,
    states: Seq<ImportWrappedKey<'a, G, D>>,
    replies: Seq<WrappedReply<G, D>>,
    e: Error,
)
    requires
        is_wrapped_run(request, states, replies),
        states.last().outcome() == Some(Err::<KeyMetadata, Error>(e)),
    ensures
        replies.len() == 0 <==> {
            ||| request.key.domain != Domain::Blob && request.key.alias is None
            ||| request.key.blob is None
            ||| request.wrapping_key.domain == Domain::Blob
        },
        replies.len() == 0 ==> e == Error::Km(ErrorCode::InvalidArgument),
        replies.len() > 0 ==> match replies.last() {
            WrappedReply::Permission(r) => r == Err::<(), Error>(e),
            WrappedReply::KeyEntry(Err(r)) => r == e,
            WrappedReply::KeyEntry(Ok((_, entry))) => if entry.km_blob is None {
                e == Error::Sys
            } else {
                &&& {
                    ||| sid_of(request.authenticators@, HardwareAuthenticatorType::Password) is Err
                    ||| sid_of(
                        request.authenticators@,
                        HardwareAuthenticatorType::Fingerprint,
                    ) is Err
                }
                &&& e == Error::Km(ErrorCode::InvalidArgument)
            },
            WrappedReply::Interface(r) => r == Err::<D, Error>(e),
            WrappedReply::Unwrapped(r) => {
                &&& r == Err::<KeyCreationResult, Error>(e)
                &&& e == Error::Km(ErrorCode::KeyRequiresUpgrade) ==> replies.len() == 7
            },
            WrappedReply::Upgraded(r) => r == Err::<Vec<u8>, Error>(e),
            WrappedReply::Inserted(r) => r == Err::<(), Error>(e),
            WrappedReply::Store(StoreReply::Time(r)) => r == Err::<DateTime, Error>(e),
            WrappedReply::Store(StoreReply::Stored(r)) => r == Err::<i64, Error>(e),
        },
{
    lemma_wrapped_states(request, states, replies);
}

/// A key that is unwrapped is bound to the caller: in the app domain its namespace is the uid of
/// the caller, whatever namespace the caller wrote, its alias is that of the caller and it has
/// no blob. In any other domain it is bound to what the caller wrote. That is what the
/// permission is checked for, and what the key is stored under.
pub proof fn law_unwrapped_key_is_bound_to_the_caller<'a, G, D>(
    request: WrappedRequest<'a>,
    states: Seq<ImportWrappedKey<'a, G, D>>,
    replies: Seq<WrappedReply<G, D>>,
    i: int,
)
    requires
        is_wrapped_run(request, states, replies),
        0 <= i < states.len(),
    ensures
        states[i] matches ImportWrappedKey::CheckPermission(s) ==> {
            let bound = s.import.target.key;
            &&& bound.domain == request.key.domain
            &&& bound.alias is Some <==> request.key.alias is Some
            &&& request.key.alias is Some ==> bound.alias->0@ == request.key.alias->0@
            &&& request.key.domain == Domain::App ==> {
                &&& bound.nspace == request.caller.uid
                &&& bound.blob is None
            }
            &&& request.key.domain != Domain::App ==> {
                &&& bound.nspace == request.key.nspace
                &&& bound.blob is Some <==> request.key.blob is Some
                &&& request.key.blob is Some ==> bound.blob->0@ == request.key.blob->0@
            }
        },
        states[i] matches ImportWrappedKey::Store(StoreNewKey::StoreKey(s)) ==> {
            let bound = s.new_key.key;
            &&& bound.domain == request.key.domain
            &&& bound.alias is Some <==> request.key.alias is Some
            &&& request.key.alias is Some ==> bound.alias->0@ == request.key.alias->0@
            &&& request.key.domain == Domain::App ==> {
                &&& bound.nspace == request.caller.uid
                &&& bound.blob is None
            }
            &&& request.key.domain != Domain::App ==> {
                &&& bound.nspace == request.key.nspace
                &&& bound.blob is Some <==> request.key.blob is Some
                &&& request.key.blob is Some ==> bound.blob->0@ == request.key.blob->0@
            }
        },
{
    lemma_wrapped_states(request, states, replies);
}

/// The ids that the device gets to unwrap a key belong to authenticators that the caller
/// listed: the first id to the first password authenticator of the list, the second to the
/// first fingerprint authenticator.
pub proof fn law_unwrapped_for_listed_authenticators<'a, G, D>(
    request: WrappedRequest<'a>,
    states: Seq<ImportWrappedKey<'a, G, D>>,
    replies: Seq<WrappedReply<G, D>>,
    i: int,
)
    requires
        is_wrapped_run(request, states, replies),
        0 <= i < states.len(),
        states[i] is UnwrapKey,
    ensures
        states[i] matches ImportWrappedKey::UnwrapKey(s) && exists|k: int|
            {
                &&& 0 <= k < request.authenticators@.len()
                &&& (#[trigger] request.authenticators@[k]).authenticator_type
                    == HardwareAuthenticatorType::Password
                &&& request.authenticators@[k].authenticator_id == s.unwrapping.password_sid
                &&& forall|j: int|
                    0 <= j < k ==> (#[trigger] request.authenticators@[j]).authenticator_type
                        != HardwareAuthenticatorType::Password
            },
        states[i] matches ImportWrappedKey::UnwrapKey(s) && exists|k: int|
            {
                &&& 0 <= k < request.authenticators@.len()
                &&& (#[trigger] request.authenticators@[k]).authenticator_type
                    == HardwareAuthenticatorType::Fingerprint
                &&& request.authenticators@[k].authenticator_id == s.unwrapping.fingerprint_sid
                &&& forall|j: int|
                    0 <= j < k ==> (#[trigger] request.authenticators@[j]).authenticator_type
                        != HardwareAuthenticatorType::Fingerprint
            },
{
    lemma_wrapped_states(request, states, replies);
    law_first_where(request.authenticators@, has_type(HardwareAuthenticatorType::Password));
    law_first_where(request.authenticators@, has_type(HardwareAuthenticatorType::Fingerprint));
}

/// The masking key that the device gets is that of the caller, byte for byte, or 32 zeroes if
/// the caller gave none.
pub proof fn law_unwrapped_with_masking_key<'a, G, D>(
    request: WrappedRequest<'a>,
    states: Seq<ImportWrappedKey<'a, G, D>>,
    replies: Seq<WrappedReply<G, D>>,
    i: int,
)
    requires
        is_wrapped_run(request, states, replies),
        0 <= i < states.len(),
        states[i] is UnwrapKey,
    ensures
        states[i] matches ImportWrappedKey::UnwrapKey(s) && match request.masking_key {
            Some(given) => s.unwrapping.masking_key@ == given@,
            None => {
                &&& s.unwrapping.masking_key@.len() == 32
                &&& forall|j: int|
                    0 <= j < 32 ==> #[trigger] s.unwrapping.masking_key@[j] == 0
            },
        },
{
    lemma_wrapped_states(request, states, replies);
}

/// The wrapping key is searched for as the caller named it, among the keys of clients and on
/// behalf of the caller, who must have the permission to use it.
pub proof fn law_wrapping_key_is_searched_for_use<'a, G, D>(
    request: WrappedRequest<'a>,
    states: Seq<ImportWrappedKey<'a, G, D>>,
    replies: Seq<WrappedReply<G, D>>,
    i: int,
)
    requires
        is_wrapped_run(request, states, replies),
        0 <= i < states.len(),
        states[i] is LoadWrappingKey,
    ensures
        i == 1,
        states[i] matches ImportWrappedKey::LoadWrappingKey(s) && {
            &&& s.lookup.key == request.wrapping_key
            &&& s.lookup.key_type == KeyType::Client
            &&& s.lookup.load_bits == KeyEntryLoadBits::Km
            &&& s.lookup.caller_uid == request.caller.uid
            &&& s.lookup.perm == KeyPerm::Use
        },
{
    lemma_wrapped_states(request, states, replies);
}

/// Until the first try is over, the entry of the wrapping key is held. An upgrade is asked of
/// the device that was reached, for the blob that was found in that entry and with no
/// parameters, once the first try failed for want of it. What it returns is stored as the
/// blob of that entry.
pub proof fn law_wrapping_key_is_upgraded_in_its_entry<'a, G, D>(
    request: WrappedRequest<'a>,
    states: Seq<ImportWrappedKey<'a, G, D>>,
    replies: Seq<WrappedReply<G, D>>,
    i: int,
)
    requires
        is_wrapped_run(request, states, replies),
        0 <= i < states.len(),
    ensures
        states[i] matches ImportWrappedKey::UnwrapKey(s) ==> {
            &&& replies[1] matches WrappedReply::KeyEntry(Ok((key_id_guard, _)))
            &&& s.attempt.key_id_guard == if i == 3 {
                Some(key_id_guard)
            } else {
                None
            }
        },
        states[i] matches ImportWrappedKey::UpgradeKey(s) ==> {
            &&& i == 4
            &&& replies[1] matches WrappedReply::KeyEntry(Ok((key_id_guard, entry)))
            &&& s.upgrade.key_id_guard == Some(key_id_guard)
            &&& entry.km_blob is Some
            &&& s.upgrade.blob@ == entry.km_blob->0@
            &&& s.upgrade.params@.len() == 0
            &&& replies[2] == WrappedReply::<G, D>::Interface(Ok(s.upgrade.device))
            &&& replies[3] == WrappedReply::<G, D>::Unwrapped(
                Err(Error::Km(ErrorCode::KeyRequiresUpgrade)),
            )
        },
        states[i] matches ImportWrappedKey::InsertBlob(s) ==> {
            &&& i == 5
            &&& replies[1] matches WrappedReply::KeyEntry(Ok((key_id_guard, _)))
            &&& s.insert.key_id_guard == key_id_guard
            &&& s.insert.component == SubComponentType::KeyBlob
            &&& replies[4] == WrappedReply::<G, D>::Upgraded(Ok(s.insert.blob))
        },
{
    lemma_wrapped_states(request, states, replies);
}

/// A request to import a wrapped key is refused at once exactly if its descriptor has no alias
/// and is not of the blob domain, or has no blob, or if the wrapping key is of the blob
/// domain. Any other begins with the check of the permission to rebind, and keeps what it came
/// with.
pub proof fn law_wrapped_import_begins<'a, G, D>(
    level: &KeystoreSecurityLevel,
    key: &'a KeyDescriptor,
    wrapping_key: &'a KeyDescriptor,
    masking_key: Option<&'a [u8]>,
    params: &'a [KeyParameter],
    authenticators: &'a [AuthenticatorSpec],
    caller: Caller,
    first: ImportWrappedKey<'a, G, D>,
)
    requires
        call_ensures(
            KeystoreSecurityLevel::import_wrapped_key::<G, D>,
            (level, key, wrapping_key, masking_key, params, authenticators, caller),
            first,
        ),
    ensures
        (WrappedRequest {
            level: *level,
            key: *key,
            wrapping_key,
            masking_key,
            params,
            authenticators,
            caller,
        }).begins_as(first),
        if (key.domain != Domain::Blob && key.alias is None) || wrapping_key.domain == Domain::Blob
            || key.blob is None {
            first matches ImportWrappedKey::Failed(e) && e == Error::Km(ErrorCode::InvalidArgument)
        } else {
            first matches ImportWrappedKey::CheckPermission(s) && {
                &&& s.perm == KeyPerm::Rebind
                &&& s.import.wrapped_data@ == key.blob->0@
                &&& s.import.wrapping_key == wrapping_key
                &&& s.import.masking_key == masking_key
                &&& s.import.params == params
                &&& s.import.authenticators == authenticators
                &&& s.import.caller_uid == caller.uid
                &&& s.import.target.level == *level
                &&& s.import.target.user_id == caller.user_id
            }
        },
{
}

/// What is stored of a key is what the device unwrapped last: its blob, its certificates and
/// all its parameters, with its user and with the time that was read.
pub proof fn law_unwrapped_key_is_stored<'a, G, D>(
    request: WrappedRequest<'a>,
    states: Seq<ImportWrappedKey<'a, G, D>>,
    replies: Seq<WrappedReply<G, D>>,
    i: int,
)
    requires
        is_wrapped_run(request, states, replies),
        0 <= i < states.len(),
        states[i] matches ImportWrappedKey::Store(StoreNewKey::StoreKey(_)),
    ensures
        i == 5 || i == 8,
        request.key.domain != Domain::Blob,
        states[i] matches ImportWrappedKey::Store(StoreNewKey::StoreKey(s)) && {
            &&& replies[i - 2] matches WrappedReply::Unwrapped(Ok(created))
            &&& is_created(s.new_key, request.level, created, request.caller.user_id)
            &&& replies[i - 1] == WrappedReply::<G, D>::Store(StoreReply::Time(Ok(s.creation_date)))
        },
{
    lemma_wrapped_states(request, states, replies);
}

/// A request to import a wrapped key goes on with every reply that is no error, but for an
/// entry without a blob and for missing authenticators. An error ends it at once, and is what
/// the caller gets, but for the demand for an upgrade upon the first try.
pub proof fn law_wrapped_import_goes_on<'a, G, D>(
    request: WrappedRequest<'a>,
    states: Seq<ImportWrappedKey<'a, G, D>>,
    replies: Seq<WrappedReply<G, D>>,
    i: int,
)
    requires
        is_wrapped_run(request, states, replies),
        0 <= i < replies.len(),
    ensures
        match replies[i] {
            WrappedReply::Permission(Ok(_)) => states[i + 1] is LoadWrappingKey,
            WrappedReply::KeyEntry(Ok((_, entry))) => if entry.km_blob is None {
                ends_with(states[i + 1], Error::Sys)
            } else if (forall|j: int|
                0 <= j < request.authenticators@.len() ==> (
                #[trigger] request.authenticators@[j]).authenticator_type
                    != HardwareAuthenticatorType::Password) || (forall|j: int|
                0 <= j < request.authenticators@.len() ==> (
                #[trigger] request.authenticators@[j]).authenticator_type
                    != HardwareAuthenticatorType::Fingerprint) {
                ends_with(states[i + 1], Error::Km(ErrorCode::InvalidArgument))
            } else {
                states[i + 1] is GetInterface
            },
            WrappedReply::Interface(Ok(device)) => {
                &&& states[i + 1] matches ImportWrappedKey::UnwrapKey(s)
                &&& s.attempt.device == device
            },
            WrappedReply::Unwrapped(Ok(_)) => states[i + 1] matches ImportWrappedKey::Store(
                StoreNewKey::ReadTime(_),
            ),
            WrappedReply::Unwrapped(Err(e)) => if i == 3 && e == Error::Km(
                ErrorCode::KeyRequiresUpgrade,
            ) {
                states[i + 1] is UpgradeKey
            } else {
                ends_with(states[i + 1], e)
            },
            WrappedReply::Upgraded(Ok(_)) => states[i + 1] is InsertBlob,
            WrappedReply::Inserted(Ok(_)) => states[i + 1] is UnwrapKey,
            WrappedReply::Store(StoreReply::Time(Ok(_))) => if request.key.domain == Domain::Blob {
                states[i + 1] matches ImportWrappedKey::Store(StoreNewKey::Done(Ok(_)))
            } else {
                states[i + 1] matches ImportWrappedKey::Store(StoreNewKey::StoreKey(_))
            },
            WrappedReply::Store(StoreReply::Stored(Ok(_))) => {
                states[i + 1] matches ImportWrappedKey::Store(StoreNewKey::Done(Ok(_)))
            },
            WrappedReply::Permission(Err(e)) => ends_with(states[i + 1], e),
            WrappedReply::KeyEntry(Err(e)) => ends_with(states[i + 1], e),
            WrappedReply::Interface(Err(e)) => ends_with(states[i + 1], e),
            WrappedReply::Upgraded(Err(e)) => ends_with(states[i + 1], e),
            WrappedReply::Inserted(Err(e)) => ends_with(states[i + 1], e),
            WrappedReply::Store(StoreReply::Time(Err(e))) => ends_with(states[i + 1], e),
            WrappedReply::Store(StoreReply::Stored(Err(e))) => ends_with(states[i + 1], e),
        },
{
    lemma_wrapped_states(request, states, replies);
    lemma_first_of_type(request.authenticators@, HardwareAuthenticatorType::Password);
    lemma_first_of_type(request.authenticators@, HardwareAuthenticatorType::Fingerprint);
}

/// Whether a request to import a wrapped key has come to the error `e`.
pub open spec fn ends_with<'a, G, D>(state: ImportWrappedKey<'a, G, D>, e: Error) -> bool {
    match state {
        ImportWrappedKey::Failed(r) => r == e,
        ImportWrappedKey::Store(StoreNewKey::Done(Err(r))) => r == e,
        _ => false,
    }
}

/// The functions that importing a wrapped key consists of take it along a run.
pub proof fn law_wrapped_import_is_a_run<'a, G, D>(
    check: CheckWrapped<'a>,
    allowed: Result<(), Error>,
    load: LoadWrappingKey<'a>,
    loaded: Result<(G, KeyEntry), Error>,
    connect: ConnectWrapped<'a, G>,
    connected: Result<D, Error>,
    unwrap: UnwrapKey<'a, G, D>,
    unwrapped: Result<KeyCreationResult, Error>,
    upgrade: UpgradeWrappingKey<'a, G, D>,
    upgraded: Result<Vec<u8>, Error>,
    insert: InsertWrappingKey<'a, G, D>,
    inserted: Result<(), Error>,
    next: ImportWrappedKey<'a, G, D>,
)
    ensures
        call_ensures(CheckWrapped::<'a>::resume::<G, D>, (check, allowed), next)
            ==> ImportWrappedKey::<'a, G, D>::CheckPermission(check).step(
            WrappedReply::Permission(allowed),
            next,
        ),
        call_ensures(LoadWrappingKey::<'a>::resume::<G, D>, (load, loaded), next)
            ==> ImportWrappedKey::LoadWrappingKey(load).step(WrappedReply::KeyEntry(loaded), next),
        call_ensures(ConnectWrapped::<'a, G>::resume::<D>, (connect, connected), next)
            ==> ImportWrappedKey::GetInterface(connect).step(
            WrappedReply::Interface(connected),
            next,
        ),
        call_ensures(UnwrapKey::<'a, G, D>::resume, (unwrap, unwrapped), next)
            ==> ImportWrappedKey::UnwrapKey(unwrap).step(WrappedReply::Unwrapped(unwrapped), next),
        call_ensures(UpgradeWrappingKey::<'a, G, D>::resume, (upgrade, upgraded), next)
            ==> ImportWrappedKey::UpgradeKey(upgrade).step(WrappedReply::Upgraded(upgraded), next),
        call_ensures(InsertWrappingKey::<'a, G, D>::resume, (insert, inserted), next)
            ==> ImportWrappedKey::InsertBlob(insert).step(WrappedReply::Inserted(inserted), next),
{
}

} // verus!
