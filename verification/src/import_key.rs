//! Importing a key in the clear.

use crate::process::{is_run, step_at, Process};
use crate::request::{
    bound_key, has_tag, import_format, import_format_of, law_first_where, lemma_first_tagged,
    names_new_key, new_key_descriptor,
};
use crate::security_level::KeystoreSecurityLevel;
use crate::store::{describes, is_created, StoreNewKey, StoreReply};
use crate::target::{Caller, Target};
use crate::types::{
    Algorithm, DateTime, Domain, Error, ErrorCode, KeyCreationResult, KeyDescriptor, KeyFormat,
    KeyMetadata, KeyParameter, KeyParameterValue, KeyPerm, Tag,
};
use vstd::prelude::*;

verus! {

/// What a key is imported from.
#[derive(Debug, PartialEq, Eq)]
pub struct Import<'a> {
    pub target: Target,
    pub params: &'a [KeyParameter],
    pub key_data: &'a [u8],
}

/// Waits for the check that the caller has the permission `perm` for the key of the target.
#[derive(Debug, PartialEq, Eq)]
pub struct CheckImport<'a> {
    pub perm: KeyPerm,
    pub import: Import<'a>,
}

/// Waits for the interface of the device.
#[derive(Debug, PartialEq, Eq)]
pub struct ConnectImport<'a> {
    pub import: Import<'a>,
    pub format: KeyFormat,
}

/// Waits for `device` to import the key data, encoded as `format` says, as a key with
/// the parameters.
#[derive(Debug, PartialEq, Eq)]
pub struct ImportData<'a, D> {
    pub device: D,
    pub import: Import<'a>,
    pub format: KeyFormat,
}

/// Imports a key and keeps it.
#[derive(Debug, PartialEq, Eq)]
pub enum ImportKey<'a, D> {
    CheckPermission(CheckImport<'a>),
    GetInterface(ConnectImport<'a>),
    ImportData(ImportData<'a, D>),
    /// The key is there. What is left is to keep it.
    Store(StoreNewKey),
    /// There is no key.
    Failed(Error),
}

/// What an `ImportKey` can be answered.
pub enum ImportReply<D> {
    Permission(Result<(), Error>),
    Interface(Result<D, Error>),
    Imported(Result<KeyCreationResult, Error>),
    Store(StoreReply),
}

impl<'a> CheckImport<'a> {
    /// What follows the check: the parameters must tell how the key data is encoded.
    pub open spec fn next<D>(self, allowed: Result<(), Error>) -> ImportKey<'a, D> {
        match (allowed, import_format_of(self.import.params@)) {
            (Err(e), _) => ImportKey::Failed(e),
            (Ok(_), Err(e)) => ImportKey::Failed(e),
            (Ok(_), Ok(format)) => ImportKey::GetInterface(
                ConnectImport { import: self.import, format },
            ),
        }
    }

    /// Takes the result of the check.
    pub fn resume<D>(self, allowed: Result<(), Error>) -> (next: ImportKey<'a, D>)
        ensures
            next == self.next::<D>(allowed),
    {
        if let Err(e) = allowed {
            return ImportKey::Failed(e);
        }
        match import_format(self.import.params) {
            Ok(format) => ImportKey::GetInterface(ConnectImport { import: self.import, format }),
            Err(e) => ImportKey::Failed(e),
        }
    }
}

impl<'a> ConnectImport<'a> {
    /// What follows the connection.
    pub open spec fn next<D>(self, connected: Result<D, Error>) -> ImportKey<'a, D> {
        match connected {
            Ok(device) => ImportKey::ImportData(
                ImportData { device, import: self.import, format: self.format },
            ),
            Err(e) => ImportKey::Failed(e),
        }
    }

    /// Takes the interface of the device, or why it is not there.
    pub fn resume<D>(self, connected: Result<D, Error>) -> (next: ImportKey<'a, D>)
        ensures
            next == self.next(connected),
    {
        match connected {
            Ok(device) => ImportKey::ImportData(
                ImportData { device, import: self.import, format: self.format },
            ),
            Err(e) => ImportKey::Failed(e),
        }
    }
}

impl<'a, D> ImportData<'a, D> {
    /// Whether `next` follows the answer of the device.
    pub open spec fn leads_to(
        self,
        imported: Result<KeyCreationResult, Error>,
        next: ImportKey<'a, D>,
    ) -> bool {
        match imported {
            Ok(created) => next matches ImportKey::Store(s) && self.import.target.keeps(created, s),
            Err(e) => next == ImportKey::<D>::Failed(e),
        }
    }

    /// Takes the answer of the device.
    pub fn resume(self, imported: Result<KeyCreationResult, Error>) -> (next: ImportKey<'a, D>)
        ensures
            self.leads_to(imported, next),
    {
        match imported {
            Ok(created) => ImportKey::Store(self.import.target.keep(created)),
            Err(e) => ImportKey::Failed(e),
        }
    }
}

impl<'a, D> ImportKey<'a, D> {
    /// What the request has come to, once it is finished.
    pub open spec fn outcome(self) -> Option<Result<KeyMetadata, Error>> {
        match self {
            ImportKey::Failed(e) => Some(Err(e)),
            ImportKey::Store(StoreNewKey::Done(r)) => Some(r),
            _ => None,
        }
    }
}

impl<'a, D> Process for ImportKey<'a, D> {
    type Reply = ImportReply<D>;

    open spec fn step(self, reply: ImportReply<D>, next: Self) -> bool {
        match (self, reply) {
            (ImportKey::CheckPermission(s), ImportReply::Permission(r)) => next == s.next::<D>(r),
            (ImportKey::GetInterface(s), ImportReply::Interface(r)) => next == s.next(r),
            (ImportKey::ImportData(s), ImportReply::Imported(r)) => s.leads_to(r, next),
            (ImportKey::Store(s), ImportReply::Store(r)) => {
                next matches ImportKey::Store(n) && s.step(r, n)
            },
            _ => false,
        }
    }
}

/// A request to import a key: who asks, where, and for what.
pub struct ImportRequest<'a> {
    pub level: KeystoreSecurityLevel,
    pub key: KeyDescriptor,
    pub params: &'a [KeyParameter],
    pub key_data: &'a [u8],
    pub caller: Caller,
}

impl<'a> ImportRequest<'a> {
    /// Whether `first` is how the request begins. Outside the blob domain it is refused
    /// without an alias. Else the caller needs the permission to rebind the key that the
    /// new one will be bound to.
    pub open spec fn begins_as<D>(self, first: ImportKey<'a, D>) -> bool {
        if names_new_key(self.key) {
            first matches ImportKey::CheckPermission(s) && {
                &&& s.perm == KeyPerm::Rebind
                &&& s.import.target.is_of(self.level, self.key, self.caller)
                &&& s.import.params == self.params
                &&& s.import.key_data == self.key_data
            }
        } else {
            first == ImportKey::<'a, D>::Failed(Error::invalid_argument())
        }
    }
}

impl KeystoreSecurityLevel {
    /// Takes up a request to import a key. There is no use yet for an attestation key or for
    /// flags.
    pub fn import_key<'a, D>(
        &self,
        key: &KeyDescriptor,
        attestation_key: Option<&KeyDescriptor>,
        params: &'a [KeyParameter],
        flags: i32,
        key_data: &'a [u8],
        caller: Caller,
    ) -> (first: ImportKey<'a, D>)
        ensures
            (ImportRequest { level: *self, key: *key, params, key_data, caller }).begins_as(first),
    {
        match new_key_descriptor(key, caller.uid) {
            Ok(key) => ImportKey::CheckPermission(
                CheckImport {
                    perm: KeyPerm::Rebind,
                    import: Import {
                        target: Target { level: *self, key, user_id: caller.user_id },
                        params,
                        key_data,
                    },
                },
            ),
            Err(e) => ImportKey::Failed(e),
        }
    }
}

/// Whether a request to import a key passes through `states` as it gets `replies`.
pub open spec fn is_import_run<'a, D>(
    request: ImportRequest<'a>,
    states: Seq<ImportKey<'a, D>>,
    replies: Seq<ImportReply<D>>,
) -> bool {
    &&& is_run(states, replies)
    &&& request.begins_as(states[0])
}

/// A run of at most six states, each by its position.
proof fn lemma_import_states<'a, D>(
    request: ImportRequest<'a>,
    states: Seq<ImportKey<'a, D>>,
    replies: Seq<ImportReply<D>>,
)
    requires
        is_import_run(request, states, replies),
    ensures
        replies.len() <= 5,
        replies.len() >= 1 ==> step_at(states, replies, 0),
        replies.len() >= 2 ==> step_at(states, replies, 1),
        replies.len() >= 3 ==> step_at(states, replies, 2),
        replies.len() >= 4 ==> step_at(states, replies, 3),
        replies.len() >= 5 ==> step_at(states, replies, 4),
{
    assert(replies.len() >= 1 ==> step_at(states, replies, 0));
    assert(replies.len() >= 2 ==> step_at(states, replies, 1));
    assert(replies.len() >= 3 ==> step_at(states, replies, 2));
    assert(replies.len() >= 4 ==> step_at(states, replies, 3));
    assert(replies.len() >= 5 ==> step_at(states, replies, 4));
    assert(replies.len() >= 6 ==> step_at(states, replies, 5));
}

/// Importing a key requires the rebind permission: nothing is asked of the device or of
/// the database before the caller was found to have it, for the very descriptor that the
/// new key is bound to.
pub proof fn law_import_requires_rebind<'a, D>(
    request: ImportRequest<'a>,
    states: Seq<ImportKey<'a, D>>,
    replies: Seq<ImportReply<D>>,
    i: int,
)
    requires
        is_import_run(request, states, replies),
        0 <= i < states.len(),
        states[i] !is CheckPermission,
        states[i] !is Failed,
    ensures
        i > 0,
        states[0] matches ImportKey::CheckPermission(s) && s.perm == KeyPerm::Rebind
            && s.import.target.key@ == bound_key(request.key@, request.caller.uid),
        replies[0] matches ImportReply::Permission(Ok(_)),
{
    lemma_import_states(request, states, replies);
}

/// The device that was reached gets the parameters and the key data of the caller, and the
/// encoding that the algorithm among the parameters calls for.
pub proof fn law_imported_as_given<'a, D>(
    request: ImportRequest<'a>,
    states: Seq<ImportKey<'a, D>>,
    replies: Seq<ImportReply<D>>,
    i: int,
)
    requires
        is_import_run(request, states, replies),
        0 <= i < states.len(),
        states[i] is ImportData,
    ensures
        states[i] matches ImportKey::ImportData(s) && {
            &&& s.import.params == request.params
            &&& s.import.key_data == request.key_data
            &&& import_format_of(request.params@) == Ok::<KeyFormat, Error>(s.format)
            &&& replies[1] == ImportReply::Interface(Ok::<D, Error>(s.device))
        },
{
    lemma_import_states(request, states, replies);
}

/// A caller that is told about a new key is told about the one that the device imported,
/// with the time at which it was imported, and finds it as `describes` says.
pub proof fn law_imported_key_is_described<'a, D>(
    request: ImportRequest<'a>,
    states: Seq<ImportKey<'a, D>>,
    replies: Seq<ImportReply<D>>,
)
    requires
        is_import_run(request, states, replies),
        states.last() matches ImportKey::Store(StoreNewKey::Done(Ok(_))),
    ensures
        states[2] is ImportData,
        states.last() matches ImportKey::Store(StoreNewKey::Done(Ok(metadata))) && {
            &&& replies[2] matches ImportReply::Imported(Ok(created))
            &&& replies[3] matches ImportReply::Store(StoreReply::Time(Ok(now)))
            &&& describes(
                metadata,
                request.level,
                request.key.domain,
                created,
                request.caller.user_id,
                now,
            )
        },
        request.key.domain != Domain::Blob ==> {
            &&& states[4] matches ImportKey::Store(StoreNewKey::StoreKey(s))
            &&& s.new_key.key@ == bound_key(request.key@, request.caller.uid)
            &&& replies[4] == ImportReply::<D>::Store(
                StoreReply::Stored(Ok(states.last()->Store_0->Done_0->Ok_0.key.nspace)),
            )
        },
{
    lemma_import_states(request, states, replies);
}

/// A request to import a key that ends without one was malformed, or ended with the error
/// of its last reply. An algorithm that tells no encoding is found out only after the
/// caller was found to have the permission.
pub proof fn law_import_failure<'a, D>(
    request: ImportRequest<'a>,
    states: Seq<ImportKey<'a, D>>,
    replies: Seq<ImportReply<D>>,
    e: Error,
)
    requires
        is_import_run(request, states, replies),
        states.last().outcome() == Some(Err::<KeyMetadata, Error>(e)),
    ensures
        replies.len() == 0 <==> request.key.domain != Domain::Blob && request.key.alias is None,
        replies.len() == 0 ==> e == Error::Km(ErrorCode::InvalidArgument),
        replies.len() > 0 ==> match replies.last() {
            ImportReply::Permission(Ok(_)) => {
                &&& import_format_of(request.params@) is Err
                &&& e == Error::Km(ErrorCode::InvalidArgument)
            },
            ImportReply::Permission(r) => r == Err::<(), Error>(e),
            ImportReply::Interface(r) => r == Err::<D, Error>(e),
            ImportReply::Imported(r) => r == Err::<KeyCreationResult, Error>(e),
            ImportReply::Store(StoreReply::Time(r)) => r == Err::<DateTime, Error>(e),
            ImportReply::Store(StoreReply::Stored(r)) => r == Err::<i64, Error>(e),
        },
{
    lemma_import_states(request, states, replies);
}

/// A key that is imported is bound to the caller: in the app domain its namespace is the uid of
/// the caller, whatever namespace the caller wrote, its alias is that of the caller and it has
/// no blob. In any other domain it is bound to what the caller wrote. That is what the
/// permission is checked for, and what the key is stored under.
pub proof fn law_imported_key_is_bound_to_the_caller<'a, D>(
    request: ImportRequest<'a>,
    states: Seq<ImportKey<'a, D>>,
    replies: Seq<ImportReply<D>>,
    i: int,
)
    requires
        is_import_run(request, states, replies),
        0 <= i < states.len(),
    ensures
        states[i] matches ImportKey::CheckPermission(s) ==> {
            let bound = s.import.target.key;
            &&& bound.domain == request.key.domain
            &&& bound.alias is Some <==> request.key.alias is Some
            &&& request.key.alias is Some ==> bound.alias->0@ == request.key.alias->0@
            &&& request.key.domain == Domain::App ==> {
                &&& bound.nspace == request.caller.uid
                &&& bound.blob is None
            }
            &&& request.key.domain != Domain::App ==> {
                &&& bound.nspace == request.key.nspace
                &&& bound.blob is Some <==> request.key.blob is Some
                &&& request.key.blob is Some ==> bound.blob->0@ == request.key.blob->0@
            }
        },
        states[i] matches ImportKey::Store(StoreNewKey::StoreKey(s)) ==> {
            let bound = s.new_key.key;
            &&& bound.domain == request.key.domain
            &&& bound.alias is Some <==> request.key.alias is Some
            &&& request.key.alias is Some ==> bound.alias->0@ == request.key.alias->0@
            &&& request.key.domain == Domain::App ==> {
                &&& bound.nspace == request.caller.uid
                &&& bound.blob is None
            }
            &&& request.key.domain != Domain::App ==> {
                &&& bound.nspace == request.key.nspace
                &&& bound.blob is Some <==> request.key.blob is Some
                &&& request.key.blob is Some ==> bound.blob->0@ == request.key.blob->0@
            }
        },
{
    lemma_import_states(request, states, replies);
}

/// The device is told that key data is raw exactly if the first parameter that is tagged as
/// an algorithm names AES, HMAC or triple DES, and that it is PKCS#8 exactly if it names RSA
/// or EC, whatever other parameters there are. With any other value of that parameter the
/// device is not asked.
pub proof fn law_import_format_follows_first_algorithm<'a, D>(
    request: ImportRequest<'a>,
    states: Seq<ImportKey<'a, D>>,
    replies: Seq<ImportReply<D>>,
    i: int,
    a: int,
)
    requires
        is_import_run(request, states, replies),
        0 <= i < states.len(),
        0 <= a < request.params@.len(),
        request.params@[a].tag == Tag::Algorithm,
        forall|j: int| 0 <= j < a ==> (#[trigger] request.params@[j]).tag != Tag::Algorithm,
    ensures
        states[i] matches ImportKey::ImportData(s) ==> {
            let algorithm = request.params@[a].value;
            &&& s.format == KeyFormat::Raw <==> {
                ||| algorithm == KeyParameterValue::Algorithm(Algorithm::Aes)
                ||| algorithm == KeyParameterValue::Algorithm(Algorithm::Hmac)
                ||| algorithm == KeyParameterValue::Algorithm(Algorithm::TripleDes)
            }
            &&& s.format == KeyFormat::Pkcs8 <==> {
                ||| algorithm == KeyParameterValue::Algorithm(Algorithm::Rsa)
                ||| algorithm == KeyParameterValue::Algorithm(Algorithm::Ec)
            }
        },
{
    lemma_import_states(request, states, replies);
    lemma_first_tagged(request.params@, Tag::Algorithm);
}

/// Once the permission is there, a request to import a key goes on to the device exactly if
/// the first parameter that is tagged as an algorithm names a known one. Else it fails as an
/// invalid argument.
pub proof fn law_import_needs_known_algorithm<'a, D>(
    request: ImportRequest<'a>,
    states: Seq<ImportKey<'a, D>>,
    replies: Seq<ImportReply<D>>,
    i: int,
)
    requires
        is_import_run(request, states, replies),
        0 <= i < replies.len(),
        replies[i] matches ImportReply::Permission(Ok(_)),
    ensures
        states[i + 1] is GetInterface <==> exists|a: int|
            {
                &&& 0 <= a < request.params@.len()
                &&& (#[trigger] request.params@[a]).tag == Tag::Algorithm
                &&& request.params@[a].value matches KeyParameterValue::Algorithm(algorithm)
                &&& algorithm !is Other
                &&& forall|j: int|
                    0 <= j < a ==> (#[trigger] request.params@[j]).tag != Tag::Algorithm
            },
        states[i + 1] !is GetInterface ==> states[i + 1] == ImportKey::<D>::Failed(
            Error::Km(ErrorCode::InvalidArgument),
        ),
{
    lemma_import_states(request, states, replies);
    lemma_first_tagged(request.params@, Tag::Algorithm);
    law_first_where(request.params@, has_tag(Tag::Algorithm));
}

/// A request to import a key is refused at once exactly if its descriptor has no alias and is
/// not of the blob domain. Any other begins with the check of the permission to rebind, and
/// keeps the parameters, the key data, the level and the user that it came with.
pub proof fn law_import_begins<'a, D>(
    level: &KeystoreSecurityLevel,
    key: &KeyDescriptor,
    attestation_key: Option<&KeyDescriptor>,
    params: &'a [KeyParameter],
    flags: i32,
    key_data: &'a [u8],
    caller: Caller,
    first: ImportKey<'a, D>,
)
    requires
        call_ensures(
            KeystoreSecurityLevel::import_key::<D>,
            (level, key, attestation_key, params, flags, key_data, caller),
            first,
        ),
    ensures
        (ImportRequest { level: *level, key: *key, params, key_data, caller }).begins_as(first),
        if key.domain != Domain::Blob && key.alias is None {
            first matches ImportKey::Failed(e) && e == Error::Km(ErrorCode::InvalidArgument)
        } else {
            first matches ImportKey::CheckPermission(s) && {
                &&& s.perm == KeyPerm::Rebind
                &&& s.import.params == params
                &&& s.import.key_data == key_data
                &&& s.import.target.level == *level
                &&& s.import.target.user_id == caller.user_id
            }
        },
{
}

/// What is stored of a key is what the device imported: its blob, its certificates and all
/// its parameters, with its user and with the time that was read.
pub proof fn law_imported_key_is_stored<'a, D>(
    request: ImportRequest<'a>,
    states: Seq<ImportKey<'a, D>>,
    replies: Seq<ImportReply<D>>,
    i: int,
)
    requires
        is_import_run(request, states, replies),
        0 <= i < states.len(),
        states[i] matches ImportKey::Store(StoreNewKey::StoreKey(_)),
    ensures
        i == 4,
        request.key.domain != Domain::Blob,
        states[i] matches ImportKey::Store(StoreNewKey::StoreKey(s)) && {
            &&& replies[2] matches ImportReply::Imported(Ok(created))
            &&& is_created(s.new_key, request.level, created, request.caller.user_id)
            &&& replies[3] == ImportReply::<D>::Store(StoreReply::Time(Ok(s.creation_date)))
        },
{
    lemma_import_states(request, states, replies);
}

/// A request to import a key goes on with every reply that is no error: from the device to
/// the import and the time, and from there to the end for a key of the blob domain, and by
/// way of the database for any other. An error ends it at once, and is what the caller gets.
pub proof fn law_import_goes_on<'a, D>(
    request: ImportRequest<'a>,
    states: Seq<ImportKey<'a, D>>,
    replies: Seq<ImportReply<D>>,
    i: int,
)
    requires
        is_import_run(request, states, replies),
        0 <= i < replies.len(),
    ensures
        match replies[i] {
            ImportReply::Permission(Ok(_)) => {
                ||| states[i + 1] is GetInterface
                ||| ends_with(states[i + 1], Error::Km(ErrorCode::InvalidArgument))
            },
            ImportReply::Interface(Ok(device)) => states[i + 1] matches ImportKey::ImportData(s)
                && s.device == device,
            ImportReply::Imported(Ok(_)) => states[i + 1] matches ImportKey::Store(
                StoreNewKey::ReadTime(_),
            ),
            ImportReply::Store(StoreReply::Time(Ok(_))) => if request.key.domain == Domain::Blob {
                states[i + 1] matches ImportKey::Store(StoreNewKey::Done(Ok(_)))
            } else {
                states[i + 1] matches ImportKey::Store(StoreNewKey::StoreKey(_))
            },
            ImportReply::Store(StoreReply::Stored(Ok(_))) => states[i + 1] matches ImportKey::Store(
                StoreNewKey::Done(Ok(_)),
            ),
            ImportReply::Permission(Err(e)) => ends_with(states[i + 1], e),
            ImportReply::Interface(Err(e)) => ends_with(states[i + 1], e),
            ImportReply::Imported(Err(e)) => ends_with(states[i + 1], e),
            ImportReply::Store(StoreReply::Time(Err(e))) => ends_with(states[i + 1], e),
            ImportReply::Store(StoreReply::Stored(Err(e))) => ends_with(states[i + 1], e),
        },
{
    lemma_import_states(request, states, replies);
}

/// Whether a request to import a key has come to the error `e`.
pub open spec fn ends_with<'a, D>(state: ImportKey<'a, D>, e: Error) -> bool {
    match state {
        ImportKey::Failed(r) => r == e,
        ImportKey::Store(StoreNewKey::Done(Err(r))) => r == e,
        _ => false,
    }
}

/// The functions that importing a key consists of take it along a run.
pub proof fn law_import_is_a_run<'a, D>(
    check: CheckImport<'a>,
    allowed: Result<(), Error>,
    connect: ConnectImport<'a>,
    connected: Result<D, Error>,
    import: ImportData<'a, D>,
    imported: Result<KeyCreationResult, Error>,
    next: ImportKey<'a, D>,
)
    ensures
        call_ensures(CheckImport::<'a>::resume::<D>, (check, allowed), next) ==> ImportKey::<
            'a,
            D,
        >::CheckPermission(check).step(ImportReply::Permission(allowed), next),
        call_ensures(ConnectImport::<'a>::resume::<D>, (connect, connected), next)
            ==> ImportKey::GetInterface(connect).step(ImportReply::Interface(connected), next),
        call_ensures(ImportData::<'a, D>::resume, (import, imported), next)
            ==> ImportKey::ImportData(import).step(ImportReply::Imported(imported), next),
{
}

} // verus!
