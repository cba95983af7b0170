//! Keeping a new key.

use crate::process::{is_run, step_at, Process};
use crate::security_level::KeystoreSecurityLevel;
use crate::types::{
    bytes_view, Certificate, DateTime, Domain, Error, KeyCreationResult, KeyDescriptor, KeyMetadata,
    KsKeyParam, KsKeyParamValue, SecurityLevel,
};
use vstd::prelude::*;

verus! {

/// A new key and what is known of it.
#[derive(Debug, PartialEq, Eq)]
pub struct NewKey {
    /// The level that the key was made or imported at.
    pub security_level: SecurityLevel,
    /// What the key is bound to.
    pub key: KeyDescriptor,
    pub key_blob: Vec<u8>,
    pub certificate: Option<Vec<u8>>,
    pub certificate_chain: Option<Vec<u8>>,
    pub key_parameters: Vec<KsKeyParam>,
}

/// Waits for the current time.
#[derive(Debug, PartialEq, Eq)]
pub struct ReadTime {
    pub new_key: NewKey,
}

/// Waits for the database to store the key, with its creation date as the only metadata.
#[derive(Debug, PartialEq, Eq)]
pub struct StoreKey {
    pub new_key: NewKey,
    pub creation_date: DateTime,
}

/// Stores a new key, unless its client keeps the blob, and describes it to the client.
#[derive(Debug, PartialEq, Eq)]
pub enum StoreNewKey {
    ReadTime(ReadTime),
    StoreKey(StoreKey),
    Done(Result<KeyMetadata, Error>),
}

/// What a `StoreNewKey` can be answered.
pub enum StoreReply {
    Time(Result<DateTime, Error>),
    /// The id of the key in the database.
    Stored(Result<i64, Error>),
}

/// The encoded certificate of a key: the first of its chain.
pub open spec fn certificate_of(chain: Seq<Certificate>) -> Option<Seq<u8>> {
    if chain.len() == 0 {
        None
    } else {
        Some(chain[0].encoded_certificate@)
    }
}

/// The certificates that vouch for that of a key, all but the first of its chain, encoded
/// one behind the other.
pub open spec fn issuers_of(chain: Seq<Certificate>) -> Option<Seq<u8>> {
    if chain.len() <= 1 {
        None
    } else {
        Some(chain.drop_first().flat_map(|c: Certificate| c.encoded_certificate@))
    }
}

/// Parts the certificate of a key from those that vouch for it.
pub fn split_certificates(certificate_chain: Vec<Certificate>) -> (r: (
    Option<Vec<u8>>,
    Option<Vec<u8>>,
))
    ensures
        bytes_view(r.0) == certificate_of(certificate_chain@),
        bytes_view(r.1) == issuers_of(certificate_chain@),
        r.0 is Some <==> certificate_chain@.len() > 0,
        r.0 is Some ==> r.0->0@ == certificate_chain@[0].encoded_certificate@,
        r.1 is Some <==> certificate_chain@.len() > 1,
        r.1 is Some ==> r.1->0@ == certificate_chain@.drop_first().flat_map(
            |c: Certificate| c.encoded_certificate@,
        ),
{
    let mut rest = certificate_chain;
    if rest.len() == 0 {
        return (None, None);
    }
    let first = rest.remove(0);
    assert(rest@ =~= certificate_chain@.drop_first());
    if rest.len() == 0 {
        return (Some(first.encoded_certificate), None);
    }
    let ghost encoded = |c: Certificate| c.encoded_certificate@;
    let mut issuers: Vec<u8> = Vec::new();
    let mut i: usize = 0;
    assert(rest@.take(0).flat_map(encoded) =~= Seq::<u8>::empty());
    while i < rest.len()
        invariant
            0 <= i <= rest@.len(),
            encoded == (|c: Certificate| c.encoded_certificate@),
            issuers@ == rest@.take(i as int).flat_map(encoded),
        decreases rest@.len() - i,
    {
        let ghost before = issuers@;
        issuers.extend_from_slice(rest[i].encoded_certificate.as_slice());
        proof {
            assert(issuers@ =~= before + encoded(rest@[i as int]));
            rest@.lemma_flat_map_take_append(encoded, i as int);
        }
        i = i + 1;
    }
    assert(rest@.take(i as int) =~= rest@);
    (Some(first.encoded_certificate), Some(issuers))
}

/// The certificate of a key is the first of its chain, if the chain has any.
pub proof fn law_certificate_is_the_first(
    chain: Vec<Certificate>,
    split: (Option<Vec<u8>>, Option<Vec<u8>>),
)
    requires
        call_ensures(split_certificates, (chain,), split),
    ensures
        split.0 is Some <==> chain@.len() > 0,
        split.0 is Some ==> split.0->0@ == chain@[0].encoded_certificate@,
        split.1 is Some <==> chain@.len() > 1,
        chain@.len() == 2 ==> split.1->0@ == chain@[1].encoded_certificate@,
        certificate_of(chain@) == bytes_view(split.0),
        issuers_of(chain@) == bytes_view(split.1),
{
    if chain@.len() == 2 {
        let encoded = |c: Certificate| c.encoded_certificate@;
        let rest = chain@.drop_first();
        assert(rest =~= seq![chain@[1]]);
        rest.lemma_flat_map_singleton(encoded);
        assert(split.1->0@ == rest.flat_map(encoded));
    }
}

/// A certificate that a chain has in addition, behind the others, leaves the certificate of
/// the key as it is, and is added behind those that vouch for it.
pub proof fn law_issuers_are_joined_in_order(
    chain: Vec<Certificate>,
    longer: Vec<Certificate>,
    issuer: Certificate,
    split: (Option<Vec<u8>>, Option<Vec<u8>>),
    longer_split: (Option<Vec<u8>>, Option<Vec<u8>>),
)
    requires
        call_ensures(split_certificates, (chain,), split),
        call_ensures(split_certificates, (longer,), longer_split),
        chain@.len() > 0,
        longer@ == chain@.push(issuer),
    ensures
        longer_split.0 is Some,
        split.0 is Some,
        longer_split.0->0@ == split.0->0@,
        longer_split.1 is Some,
        longer_split.1->0@ == match split.1 {
            Some(issuers) => issuers@,
            None => Seq::empty(),
        } + issuer.encoded_certificate@,
{
    let encoded = |c: Certificate| c.encoded_certificate@;
    let rest = chain@.drop_first();
    assert(longer@.drop_first() =~= rest.push(issuer));
    rest.lemma_flat_map_push(encoded, issuer);
    if rest.len() == 0 {
        assert(rest.flat_map(encoded) =~= Seq::<u8>::empty());
    }
}

/// The number of a user as a signed number of the same width: numbers that do not fit
/// wrap around.
pub open spec fn signed_user(user_id: u32) -> int {
    if user_id <= i32::MAX {
        user_id as int
    } else {
        user_id - 0x1_0000_0000
    }
}

/// The parameters of a new key: those that the device gave it and, enforced by software,
/// the user that it belongs to.
pub open spec fn with_user(params: Seq<KsKeyParam>, user_id: u32) -> Seq<KsKeyParam> {
    params.push(
        KsKeyParam {
            value: KsKeyParamValue::UserID(signed_user(user_id) as i32),
            security_level: SecurityLevel::Software,
        },
    )
}

impl NewKey {
    /// Whether this is the key that the device created for the user, bound to `key`.
    pub open spec fn is_made_from(
        self,
        level: KeystoreSecurityLevel,
        key: KeyDescriptor,
        creation_result: KeyCreationResult,
        user_id: u32,
    ) -> bool {
        &&& self.security_level == level.security_level
        &&& self.key == key
        &&& self.key_blob == creation_result.key_blob
        &&& bytes_view(self.certificate) == certificate_of(creation_result.certificate_chain@)
        &&& bytes_view(self.certificate_chain) == issuers_of(creation_result.certificate_chain@)
        &&& self.key_parameters@ == with_user(creation_result.key_parameters@, user_id)
    }

    /// What a client that knows its key as `key` is told about it.
    pub open spec fn metadata(self, key: KeyDescriptor, creation_date: DateTime) -> KeyMetadata {
        KeyMetadata {
            key,
            key_security_level: self.security_level,
            certificate: self.certificate,
            certificate_chain: self.certificate_chain,
            authorizations: self.key_parameters,
            modification_time_ms: creation_date.millis_epoch,
        }
    }
}

/// The descriptor of a key whose client keeps the blob.
pub open spec fn blob_descriptor(blob: Vec<u8>) -> KeyDescriptor {
    KeyDescriptor { domain: Domain::Blob, nspace: 0, alias: None, blob: Some(blob) }
}

/// The descriptor of the key that the database has under an id.
pub open spec fn id_descriptor(id: i64) -> KeyDescriptor {
    KeyDescriptor { domain: Domain::KeyId, nspace: id, alias: None, blob: None }
}

/// Whether `metadata` tells a client of the user `user_id` about the key that the device
/// created at this level: its certificates and parameters are those of the key, and its
/// descriptor holds the blob if the client asked for the blob domain, else names an entry
/// of the database.
pub open spec fn describes(
    metadata: KeyMetadata,
    level: KeystoreSecurityLevel,
    domain: Domain,
    created: KeyCreationResult,
    user_id: u32,
    creation_date: DateTime,
) -> bool {
    &&& domain == Domain::Blob ==> {
        &&& metadata.key.domain == Domain::Blob
        &&& metadata.key.nspace == 0
        &&& metadata.key.blob == Some(created.key_blob)
    }
    &&& domain != Domain::Blob ==> {
        &&& metadata.key.domain == Domain::KeyId
        &&& metadata.key.blob is None
    }
    &&& metadata.key.alias is None
    &&& metadata.key_security_level == level.security_level
    &&& has_certificates(metadata.certificate, metadata.certificate_chain, created)
    &&& has_parameters(metadata.authorizations, created, user_id)
    &&& metadata.modification_time_ms == creation_date.millis_epoch
}

/// Whether `stored` is the key that the device created at this level for the user
/// `user_id`: its blob, its certificates and its parameters are those of the key.
pub open spec fn is_created(
    stored: NewKey,
    level: KeystoreSecurityLevel,
    created: KeyCreationResult,
    user_id: u32,
) -> bool {
    &&& stored.security_level == level.security_level
    &&& stored.key_blob == created.key_blob
    &&& has_certificates(stored.certificate, stored.certificate_chain, created)
    &&& has_parameters(stored.key_parameters, created, user_id)
}

/// Whether `certificate` is the first certificate of the created key and `issuers` are the
/// others, one behind the other.
pub open spec fn has_certificates(
    certificate: Option<Vec<u8>>,
    issuers: Option<Vec<u8>>,
    created: KeyCreationResult,
) -> bool {
    let chain = created.certificate_chain@;
    &&& certificate is Some <==> chain.len() > 0
    &&& certificate is Some ==> certificate->0@ == chain[0].encoded_certificate@
    &&& issuers is Some <==> chain.len() > 1
    &&& issuers is Some ==> issuers->0@ == chain.drop_first().flat_map(
        |c: Certificate| c.encoded_certificate@,
    )
}

/// Whether `params` are all the parameters of the created key, each at its place, and after
/// them the user, enforced by software. The number of the user may have wrapped around.
pub open spec fn has_parameters(
    params: Vec<KsKeyParam>,
    created: KeyCreationResult,
    user_id: u32,
) -> bool {
    let n = created.key_parameters@.len() as int;
    &&& params@.len() == n + 1
    &&& forall|i: int| 0 <= i < n ==> #[trigger] params@[i] == created.key_parameters@[i]
    &&& params@[n].security_level == SecurityLevel::Software
    &&& params@[n].value matches KsKeyParamValue::UserID(u)
    &&& u == user_id || u + 0x1_0000_0000 == user_id
}

impl ReadTime {
    /// What follows the time: a key of the blob domain is handed out as it is, any other
    /// is stored.
    pub open spec fn next(self, now: Result<DateTime, Error>) -> StoreNewKey {
        match now {
            Err(e) => StoreNewKey::Done(Err(e)),
            Ok(creation_date) => if self.new_key.key.domain == Domain::Blob {
                StoreNewKey::Done(
                    Ok(
                        self.new_key.metadata(
                            blob_descriptor(self.new_key.key_blob),
                            creation_date,
                        ),
                    ),
                )
            } else {
                StoreNewKey::StoreKey(StoreKey { new_key: self.new_key, creation_date })
            },
        }
    }

    /// Takes the time.
    pub fn resume(self, now: Result<DateTime, Error>) -> (next: StoreNewKey)
        ensures
            next == self.next(now),
    {
        let creation_date = match now {
            Ok(creation_date) => creation_date,
            Err(e) => return StoreNewKey::Done(Err(e)),
        };
        let new_key = self.new_key;
        match new_key.key.domain {
            Domain::Blob => StoreNewKey::Done(
                Ok(
                    KeyMetadata {
                        key: KeyDescriptor {
                            domain: Domain::Blob,
                            nspace: 0,
                            alias: None,
                            blob: Some(new_key.key_blob),
                        },
                        key_security_level: new_key.security_level,
                        certificate: new_key.certificate,
                        certificate_chain: new_key.certificate_chain,
                        authorizations: new_key.key_parameters,
                        modification_time_ms: creation_date.millis_epoch,
                    },
                ),
            ),
            _ => StoreNewKey::StoreKey(StoreKey { new_key, creation_date }),
        }
    }
}

impl StoreKey {
    /// What follows the answer of the database: the key is known by its id.
    pub open spec fn next(self, id: Result<i64, Error>) -> StoreNewKey {
        StoreNewKey::Done(
            match id {
                Err(e) => Err(e),
                Ok(id) => Ok(self.new_key.metadata(id_descriptor(id), self.creation_date)),
            },
        )
    }

    /// Takes the answer of the database.
    pub fn resume(self, id: Result<i64, Error>) -> (next: StoreNewKey)
        ensures
            next == self.next(id),
    {
        let id = match id {
            Ok(id) => id,
            Err(e) => return StoreNewKey::Done(Err(e)),
        };
        StoreNewKey::Done(
            Ok(
                KeyMetadata {
                    key: KeyDescriptor {
                        domain: Domain::KeyId,
                        nspace: id,
                        alias: None,
                        blob: None,
                    },
                    key_security_level: self.new_key.security_level,
                    certificate: self.new_key.certificate,
                    certificate_chain: self.new_key.certificate_chain,
                    authorizations: self.new_key.key_parameters,
                    modification_time_ms: self.creation_date.millis_epoch,
                },
            ),
        )
    }
}

impl Process for StoreNewKey {
    type Reply = StoreReply;

    open spec fn step(self, reply: StoreReply, next: Self) -> bool {
        match (self, reply) {
            (StoreNewKey::ReadTime(s), StoreReply::Time(r)) => next == s.next(r),
            (StoreNewKey::StoreKey(s), StoreReply::Stored(r)) => next == s.next(r),
            _ => false,
        }
    }
}

impl KeystoreSecurityLevel {
    /// Begins to keep a key that the device made or imported for the Android user
    /// `user_id`, bound to `key`.
    pub fn store_new_key(
        &self,
        key: KeyDescriptor,
        creation_result: KeyCreationResult,
        user_id: u32,
    ) -> (r: ReadTime)
        ensures
            r.new_key.is_made_from(*self, key, creation_result, user_id),
            r.new_key.security_level == self.security_level,
            r.new_key.key == key,
            r.new_key.key_blob == creation_result.key_blob,
            r.new_key.key_parameters@.len() == creation_result.key_parameters@.len() + 1,
            forall|i: int|
                0 <= i < creation_result.key_parameters@.len()
                    ==> #[trigger] r.new_key.key_parameters@[i]
                    == creation_result.key_parameters@[i],
            r.new_key.key_parameters@.last().security_level == SecurityLevel::Software,
            r.new_key.key_parameters@.last().value matches KsKeyParamValue::UserID(u) && (u
                == user_id || u + 0x1_0000_0000 == user_id),
    {
        let (certificate, certificate_chain) = split_certificates(
            creation_result.certificate_chain,
        );
        assert(user_id > 0x7fff_ffff ==> user_id as i32 == user_id - 0x1_0000_0000) by (bit_vector);
        let mut key_parameters = creation_result.key_parameters;
        key_parameters.push(
            KsKeyParam {
                value: KsKeyParamValue::UserID(#[verifier::truncate] (user_id as i32)),
                security_level: SecurityLevel::Software,
            },
        );
        ReadTime {
            new_key: NewKey {
                security_level: self.security_level,
                key,
                key_blob: creation_result.key_blob,
                certificate,
                certificate_chain,
                key_parameters,
            },
        }
    }
}

/// A new key has one parameter more than the device gave it. Those of the device are all
/// kept, each at its place, and the last is the user that the key belongs to, enforced by
/// software.
pub proof fn law_new_key_keeps_its_parameters(
    level: &KeystoreSecurityLevel,
    key: KeyDescriptor,
    created: KeyCreationResult,
    user_id: u32,
    first: ReadTime,
)
    requires
        call_ensures(KeystoreSecurityLevel::store_new_key, (level, key, created, user_id), first),
    ensures
        first.new_key.key_parameters@.len() == created.key_parameters@.len() + 1,
        forall|i: int|
            0 <= i < created.key_parameters@.len() ==> #[trigger] first.new_key.key_parameters@[i]
                == created.key_parameters@[i],
        first.new_key.key_parameters@.last().security_level == SecurityLevel::Software,
        first.new_key.key_parameters@.last().value matches KsKeyParamValue::UserID(u) && (u
            - user_id) % 0x1_0000_0000 == 0,
        with_user(created.key_parameters@, user_id) == first.new_key.key_parameters@,
{
}

/// A new key is bound as it was asked for and has the level, the blob and the certificates
/// that it was created with.
pub proof fn law_new_key_is_the_created_one(
    level: &KeystoreSecurityLevel,
    key: KeyDescriptor,
    created: KeyCreationResult,
    user_id: u32,
    first: ReadTime,
)
    requires
        call_ensures(KeystoreSecurityLevel::store_new_key, (level, key, created, user_id), first),
    ensures
        first.new_key.key == key,
        first.new_key.security_level == level.security_level,
        first.new_key.key_blob == created.key_blob,
        first.new_key.certificate is Some <==> created.certificate_chain@.len() > 0,
        first.new_key.certificate is Some ==> first.new_key.certificate->0@
            == created.certificate_chain@[0].encoded_certificate@,
        first.new_key.certificate_chain is Some <==> created.certificate_chain@.len() > 1,
        first.new_key.certificate_chain is Some ==> first.new_key.certificate_chain->0@
            == created.certificate_chain@.drop_first().flat_map(
            |c: Certificate| c.encoded_certificate@,
        ),
{
    assert(bytes_view(first.new_key.certificate) == certificate_of(created.certificate_chain@));
    assert(bytes_view(first.new_key.certificate_chain) == issuers_of(created.certificate_chain@));
}

/// What is stored of a new key, and what its client is told, has all the parameters that the
/// device gave the key, each at its place, and after them its user, enforced by software.
pub proof fn law_parameters_are_stored_and_told(
    level: &KeystoreSecurityLevel,
    key: KeyDescriptor,
    created: KeyCreationResult,
    user_id: u32,
    first: ReadTime,
    states: Seq<StoreNewKey>,
    replies: Seq<StoreReply>,
    i: int,
)
    requires
        call_ensures(KeystoreSecurityLevel::store_new_key, (level, key, created, user_id), first),
        is_run(states, replies),
        states[0] == StoreNewKey::ReadTime(first),
        0 <= i < states.len(),
    ensures
        states[i] matches StoreNewKey::StoreKey(s) ==> {
            &&& s.new_key.key_parameters@.len() == created.key_parameters@.len() + 1
            &&& forall|j: int|
                0 <= j < created.key_parameters@.len() ==> #[trigger] s.new_key.key_parameters@[j]
                    == created.key_parameters@[j]
            &&& s.new_key.key_parameters@.last().security_level == SecurityLevel::Software
            &&& s.new_key.key_parameters@.last().value matches KsKeyParamValue::UserID(u)
            &&& (u - user_id) % 0x1_0000_0000 == 0
        },
        states[i] matches StoreNewKey::Done(Ok(m)) ==> {
            &&& m.authorizations@.len() == created.key_parameters@.len() + 1
            &&& forall|j: int|
                0 <= j < created.key_parameters@.len() ==> #[trigger] m.authorizations@[j]
                    == created.key_parameters@[j]
            &&& m.authorizations@.last().security_level == SecurityLevel::Software
            &&& m.authorizations@.last().value matches KsKeyParamValue::UserID(u)
            &&& (u - user_id) % 0x1_0000_0000 == 0
        },
{
    lemma_store_states(first.new_key, states, replies);
}

/// What is stored of a new key is all that was known of it, with the time that was read as
/// its creation date.
pub proof fn law_stored_as_made(
    new_key: NewKey,
    states: Seq<StoreNewKey>,
    replies: Seq<StoreReply>,
    i: int,
)
    requires
        is_run(states, replies),
        states[0] == StoreNewKey::ReadTime(ReadTime { new_key }),
        0 <= i < states.len(),
        states[i] is StoreKey,
    ensures
        i == 1,
        new_key.key.domain != Domain::Blob,
        states[i]->StoreKey_0.new_key == new_key,
        replies[0] == StoreReply::Time(Ok(states[i]->StoreKey_0.creation_date)),
{
    lemma_store_states(new_key, states, replies);
}

/// Storing a key goes on with every reply that is no error: the time is followed by the end
/// for a key of the blob domain and by the database for any other, and the database by the
/// end. An error ends it at once.
pub proof fn law_storing_goes_on(
    new_key: NewKey,
    states: Seq<StoreNewKey>,
    replies: Seq<StoreReply>,
    i: int,
)
    requires
        is_run(states, replies),
        states[0] == StoreNewKey::ReadTime(ReadTime { new_key }),
        0 <= i < replies.len(),
    ensures
        match replies[i] {
            StoreReply::Time(Ok(_)) => if new_key.key.domain == Domain::Blob {
                states[i + 1] matches StoreNewKey::Done(Ok(_))
            } else {
                states[i + 1] is StoreKey
            },
            StoreReply::Stored(Ok(_)) => states[i + 1] matches StoreNewKey::Done(Ok(_)),
            StoreReply::Time(Err(e)) => states[i + 1] == StoreNewKey::Done(Err(e)),
            StoreReply::Stored(Err(e)) => states[i + 1] == StoreNewKey::Done(Err(e)),
        },
{
    lemma_store_states(new_key, states, replies);
}

/// The functions that storing a key consists of take it along a run.
pub proof fn law_storing_is_a_run(
    time: ReadTime,
    now: Result<DateTime, Error>,
    store: StoreKey,
    id: Result<i64, Error>,
    next: StoreNewKey,
)
    ensures
        call_ensures(ReadTime::resume, (time, now), next) ==> StoreNewKey::ReadTime(time).step(
            StoreReply::Time(now),
            next,
        ),
        call_ensures(StoreKey::resume, (store, id), next) ==> StoreNewKey::StoreKey(store).step(
            StoreReply::Stored(id),
            next,
        ),
{
}

/// A key of the blob domain never reaches the database. Its client gets the blob.
pub proof fn law_blob_is_not_stored(
    new_key: NewKey,
    states: Seq<StoreNewKey>,
    replies: Seq<StoreReply>,
    i: int,
)
    requires
        is_run(states, replies),
        states[0] == StoreNewKey::ReadTime(ReadTime { new_key }),
        new_key.key.domain == Domain::Blob,
        0 <= i < states.len(),
    ensures
        states[i] !is StoreKey,
        states[i] matches StoreNewKey::Done(Ok(m)) ==> {
            &&& m.key.domain == Domain::Blob
            &&& m.key.nspace == 0
            &&& m.key.alias is None
            &&& m.key.blob == Some(new_key.key_blob)
        },
{
    lemma_store_states(new_key, states, replies);
}

/// A client learns of a key outside the blob domain only after the database has stored
/// it, with all that was known of it, and then by the id that the database gave.
pub proof fn law_stored_before_described(
    new_key: NewKey,
    states: Seq<StoreNewKey>,
    replies: Seq<StoreReply>,
    i: int,
)
    requires
        is_run(states, replies),
        states[0] == StoreNewKey::ReadTime(ReadTime { new_key }),
        new_key.key.domain != Domain::Blob,
        0 <= i < states.len(),
        states[i] matches StoreNewKey::Done(Ok(_)),
    ensures
        i == 2,
        states[1] matches StoreNewKey::StoreKey(s) && s.new_key == new_key,
        replies[1] == StoreReply::Stored(Ok(states[i]->Done_0->Ok_0.key.nspace)),
        states[i]->Done_0->Ok_0.key.domain == Domain::KeyId,
        states[i]->Done_0->Ok_0.key.alias is None,
        states[i]->Done_0->Ok_0.key.blob is None,
{
    lemma_store_states(new_key, states, replies);
}

/// Whatever the domain, a described key has the level, the certificates and the
/// parameters that it was made with, and the time at which it was made.
pub proof fn law_described_as_made(
    new_key: NewKey,
    states: Seq<StoreNewKey>,
    replies: Seq<StoreReply>,
    i: int,
)
    requires
        is_run(states, replies),
        states[0] == StoreNewKey::ReadTime(ReadTime { new_key }),
        0 <= i < states.len(),
        states[i] matches StoreNewKey::Done(Ok(_)),
    ensures
        states[i] matches StoreNewKey::Done(Ok(m)) && {
            &&& m.key_security_level == new_key.security_level
            &&& m.certificate == new_key.certificate
            &&& m.certificate_chain == new_key.certificate_chain
            &&& m.authorizations == new_key.key_parameters
            &&& replies[0] == StoreReply::Time(
                Ok(DateTime { millis_epoch: m.modification_time_ms }),
            )
        },
{
    lemma_store_states(new_key, states, replies);
}

proof fn lemma_store_states(new_key: NewKey, states: Seq<StoreNewKey>, replies: Seq<StoreReply>)
    requires
        is_run(states, replies),
        states[0] == StoreNewKey::ReadTime(ReadTime { new_key }),
    ensures
        replies.len() <= 2,
        replies.len() >= 1 ==> step_at(states, replies, 0),
        replies.len() >= 2 ==> step_at(states, replies, 1),
{
    assert(replies.len() >= 1 ==> step_at(states, replies, 0));
    assert(replies.len() >= 2 ==> step_at(states, replies, 1));
    assert(replies.len() >= 3 ==> step_at(states, replies, 2));
}

} // verus!
