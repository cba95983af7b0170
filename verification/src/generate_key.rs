//! Making a new key.

use crate::process::{is_run, step_at, Process};
use crate::request::{bound_key, names_new_key, new_key_descriptor};
use crate::security_level::KeystoreSecurityLevel;
use crate::store::{describes, is_created, StoreNewKey, StoreReply};
use crate::target::{Caller, Target};
use crate::types::{
    DateTime, Domain, Error, ErrorCode, KeyCreationResult, KeyDescriptor, KeyMetadata, KeyParameter,
    KeyPerm,
};
use vstd::prelude::*;

verus! {

/// What a key is made with.
#[derive(Debug, PartialEq, Eq)]
pub struct Generation<'a> {
    pub target: Target,
    pub params: &'a [KeyParameter],
    pub entropy: &'a [u8],
}

/// Waits for the check that the caller has the permission `perm` for the key of the target.
#[derive(Debug, PartialEq, Eq)]
pub struct CheckGenerate<'a> {
    pub perm: KeyPerm,
    pub generation: Generation<'a>,
}

/// Waits for the interface of the device.
#[derive(Debug, PartialEq, Eq)]
pub struct ConnectGenerate<'a> {
    pub generation: Generation<'a>,
}

/// Waits for `device` to mix in the entropy.
#[derive(Debug, PartialEq, Eq)]
pub struct AddRngEntropy<'a, D> {
    pub device: D,
    pub generation: Generation<'a>,
}

/// Waits for `device` to make a key with the parameters.
#[derive(Debug, PartialEq, Eq)]
pub struct MakeKey<'a, D> {
    pub device: D,
    pub generation: Generation<'a>,
}

/// Makes a key and keeps it.
#[derive(Debug, PartialEq, Eq)]
pub enum GenerateKey<'a, D> {
    CheckPermission(CheckGenerate<'a>),
    GetInterface(ConnectGenerate<'a>),
    AddRngEntropy(AddRngEntropy<'a, D>),
    MakeKey(MakeKey<'a, D>),
    /// The key is there. What is left is to keep it.
    Store(StoreNewKey),
    /// There is no key.
    Failed(Error),
}

/// What a `GenerateKey` can be answered.
pub enum GenerateReply<D> {
    Permission(Result<(), Error>),
    Interface(Result<D, Error>),
    EntropyAdded(Result<(), Error>),
    Made(Result<KeyCreationResult, Error>),
    Store(StoreReply),
}

impl<'a> CheckGenerate<'a> {
    /// What follows the check.
    pub open spec fn next<D>(self, allowed: Result<(), Error>) -> GenerateKey<'a, D> {
        match allowed {
            Ok(_) => GenerateKey::GetInterface(ConnectGenerate { generation: self.generation }),
            Err(e) => GenerateKey::Failed(e),
        }
    }

    /// Takes the result of the check.
    pub fn resume<D>(self, allowed: Result<(), Error>) -> (next: GenerateKey<'a, D>)
        ensures
            next == self.next::<D>(allowed),
    {
        match allowed {
            Ok(_) => GenerateKey::GetInterface(ConnectGenerate { generation: self.generation }),
            Err(e) => GenerateKey::Failed(e),
        }
    }
}

impl<'a> ConnectGenerate<'a> {
    /// What follows the connection.
    pub open spec fn next<D>(self, connected: Result<D, Error>) -> GenerateKey<'a, D> {
        match connected {
            Ok(device) => GenerateKey::AddRngEntropy(
                AddRngEntropy { device, generation: self.generation },
            ),
            Err(e) => GenerateKey::Failed(e),
        }
    }

    /// Takes the interface of the device, or why it is not there.
    pub fn resume<D>(self, connected: Result<D, Error>) -> (next: GenerateKey<'a, D>)
        ensures
            next == self.next(connected),
    {
        match connected {
            Ok(device) => GenerateKey::AddRngEntropy(
                AddRngEntropy { device, generation: self.generation },
            ),
            Err(e) => GenerateKey::Failed(e),
        }
    }
}

impl<'a, D> AddRngEntropy<'a, D> {
    /// What follows the answer of the device.
    pub open spec fn next(self, added: Result<(), Error>) -> GenerateKey<'a, D> {
        match added {
            Ok(_) => GenerateKey::MakeKey(
                MakeKey { device: self.device, generation: self.generation },
            ),
            Err(e) => GenerateKey::Failed(e),
        }
    }

    /// Takes the answer of the device.
    pub fn resume(self, added: Result<(), Error>) -> (next: GenerateKey<'a, D>)
        ensures
            next == self.next(added),
    {
        match added {
            Ok(_) => GenerateKey::MakeKey(
                MakeKey { device: self.device, generation: self.generation },
            ),
            Err(e) => GenerateKey::Failed(e),
        }
    }
}

impl<'a, D> MakeKey<'a, D> {
    /// Whether `next` follows the answer of the device.
    pub open spec fn leads_to(
        self,
        made: Result<KeyCreationResult, Error>,
        next: GenerateKey<'a, D>,
    ) -> bool {
        match made {
            Ok(created) => next matches GenerateKey::Store(s) && self.generation.target.keeps(
                created,
                s,
            ),
            Err(e) => next == GenerateKey::<D>::Failed(e),
        }
    }

    /// Takes the answer of the device.
    pub fn resume(self, made: Result<KeyCreationResult, Error>) -> (next: GenerateKey<'a, D>)
        ensures
            self.leads_to(made, next),
    {
        match made {
            Ok(created) => GenerateKey::Store(self.generation.target.keep(created)),
            Err(e) => GenerateKey::Failed(e),
        }
    }
}

impl<'a, D> GenerateKey<'a, D> {
    /// What the request has come to, once it is finished.
    pub open spec fn outcome(self) -> Option<Result<KeyMetadata, Error>> {
        match self {
            GenerateKey::Failed(e) => Some(Err(e)),
            GenerateKey::Store(StoreNewKey::Done(r)) => Some(r),
            _ => None,
        }
    }
}

impl<'a, D> Process for GenerateKey<'a, D> {
    type Reply = GenerateReply<D>;

    open spec fn step(self, reply: GenerateReply<D>, next: Self) -> bool {
        match (self, reply) {
            (GenerateKey::CheckPermission(s), GenerateReply::Permission(r)) => next == s.next::<D>(
                r,
            ),
            (GenerateKey::GetInterface(s), GenerateReply::Interface(r)) => next == s.next(r),
            (GenerateKey::AddRngEntropy(s), GenerateReply::EntropyAdded(r)) => next == s.next(r),
            (GenerateKey::MakeKey(s), GenerateReply::Made(r)) => s.leads_to(r, next),
            (GenerateKey::Store(s), GenerateReply::Store(r)) => {
                next matches GenerateKey::Store(n) && s.step(r, n)
            },
            _ => false,
        }
    }
}

/// A request to make a key: who asks, where, and for what.
pub struct GenerateRequest<'a> {
    pub level: KeystoreSecurityLevel,
    pub key: KeyDescriptor,
    pub params: &'a [KeyParameter],
    pub entropy: &'a [u8],
    pub caller: Caller,
}

impl<'a> GenerateRequest<'a> {
    /// Whether `first` is how the request begins. Outside the blob domain it is refused
    /// without an alias. Else the caller needs the permission to rebind the key that the
    /// new one will be bound to.
    pub open spec fn begins_as<D>(self, first: GenerateKey<'a, D>) -> bool {
        if names_new_key(self.key) {
            first matches GenerateKey::CheckPermission(s) && {
                &&& s.perm == KeyPerm::Rebind
                &&& s.generation.target.is_of(self.level, self.key, self.caller)
                &&& s.generation.params == self.params
                &&& s.generation.entropy == self.entropy
            }
        } else {
            first == GenerateKey::<'a, D>::Failed(Error::invalid_argument())
        }
    }
}

impl KeystoreSecurityLevel {
    /// Takes up a request to make a key. There is no use yet for an attestation key or for
    /// flags.
    pub fn generate_key<'a, D>(
        &self,
        key: &KeyDescriptor,
        attestation_key: Option<&KeyDescriptor>,
        params: &'a [KeyParameter],
        flags: i32,
        entropy: &'a [u8],
        caller: Caller,
    ) -> (first: GenerateKey<'a, D>)
        ensures
            (GenerateRequest { level: *self, key: *key, params, entropy, caller }).begins_as(first),
    {
        match new_key_descriptor(key, caller.uid) {
            Ok(key) => GenerateKey::CheckPermission(
                CheckGenerate {
                    perm: KeyPerm::Rebind,
                    generation: Generation {
                        target: Target { level: *self, key, user_id: caller.user_id },
                        params,
                        entropy,
                    },
                },
            ),
            Err(e) => GenerateKey::Failed(e),
        }
    }
}

/// Whether a request to make a key passes through `states` as it gets `replies`.
pub open spec fn is_generate_run<'a, D>(
    request: GenerateRequest<'a>,
    states: Seq<GenerateKey<'a, D>>,
    replies: Seq<GenerateReply<D>>,
) -> bool {
    &&& is_run(states, replies)
    &&& request.begins_as(states[0])
}

/// A run of at most seven states, each by its position.
proof fn lemma_generate_states<'a, D>(
    request: GenerateRequest<'a>,
    states: Seq<GenerateKey<'a, D>>,
    replies: Seq<GenerateReply<D>>,
)
    requires
        is_generate_run(request, states, replies),
    ensures
        replies.len() <= 6,
        replies.len() >= 1 ==> step_at(states, replies, 0),
        replies.len() >= 2 ==> step_at(states, replies, 1),
        replies.len() >= 3 ==> step_at(states, replies, 2),
        replies.len() >= 4 ==> step_at(states, replies, 3),
        replies.len() >= 5 ==> step_at(states, replies, 4),
        replies.len() >= 6 ==> step_at(states, replies, 5),
{
    assert(replies.len() >= 1 ==> step_at(states, replies, 0));
    assert(replies.len() >= 2 ==> step_at(states, replies, 1));
    assert(replies.len() >= 3 ==> step_at(states, replies, 2));
    assert(replies.len() >= 4 ==> step_at(states, replies, 3));
    assert(replies.len() >= 5 ==> step_at(states, replies, 4));
    assert(replies.len() >= 6 ==> step_at(states, replies, 5));
    assert(replies.len() >= 7 ==> step_at(states, replies, 6));
}

/// Making a key requires the rebind permission: nothing is asked of the device or of the
/// database before the caller was found to have it, for the very descriptor that the new
/// key is bound to.
pub proof fn law_generate_requires_rebind<'a, D>(
    request: GenerateRequest<'a>,
    states: Seq<GenerateKey<'a, D>>,
    replies: Seq<GenerateReply<D>>,
    i: int,
)
    requires
        is_generate_run(request, states, replies),
        0 <= i < states.len(),
        states[i] !is CheckPermission,
        states[i] !is Failed,
    ensures
        i > 0,
        states[0] matches GenerateKey::CheckPermission(s) && s.perm == KeyPerm::Rebind
            && s.generation.target.key@ == bound_key(request.key@, request.caller.uid),
        replies[0] matches GenerateReply::Permission(Ok(_)),
{
    lemma_generate_states(request, states, replies);
}

/// The device makes a key only after it took the entropy, and with the parameters that
/// the caller gave. It is the one device that was reached.
pub proof fn law_entropy_before_key<'a, D>(
    request: GenerateRequest<'a>,
    states: Seq<GenerateKey<'a, D>>,
    replies: Seq<GenerateReply<D>>,
    i: int,
)
    requires
        is_generate_run(request, states, replies),
        0 <= i < states.len(),
        states[i] is MakeKey,
    ensures
        i > 0,
        states[i - 1] matches GenerateKey::AddRngEntropy(s) && s.generation.entropy
            == request.entropy,
        replies[i - 1] matches GenerateReply::EntropyAdded(Ok(_)),
        states[i]->MakeKey_0.generation.params == request.params,
        states[i - 1]->AddRngEntropy_0.device == states[i]->MakeKey_0.device,
        replies[1] == GenerateReply::Interface(Ok::<D, Error>(states[i]->MakeKey_0.device)),
{
    lemma_generate_states(request, states, replies);
}

/// A caller that is told about a new key is told about the one that the device made, with
/// the time at which it was made, and finds it as `describes` says.
pub proof fn law_generated_key_is_described<'a, D>(
    request: GenerateRequest<'a>,
    states: Seq<GenerateKey<'a, D>>,
    replies: Seq<GenerateReply<D>>,
)
    requires
        is_generate_run(request, states, replies),
        states.last() matches GenerateKey::Store(StoreNewKey::Done(Ok(_))),
    ensures
        states[3] is MakeKey,
        states.last() matches GenerateKey::Store(StoreNewKey::Done(Ok(metadata))) && {
            &&& replies[3] matches GenerateReply::Made(Ok(created))
            &&& replies[4] matches GenerateReply::Store(StoreReply::Time(Ok(now)))
            &&& describes(
                metadata,
                request.level,
                request.key.domain,
                created,
                request.caller.user_id,
                now,
            )
        },
        request.key.domain != Domain::Blob ==> {
            &&& states[5] matches GenerateKey::Store(StoreNewKey::StoreKey(s))
            &&& s.new_key.key@ == bound_key(request.key@, request.caller.uid)
            &&& replies[5] == GenerateReply::<D>::Store(
                StoreReply::Stored(Ok(states.last()->Store_0->Done_0->Ok_0.key.nspace)),
            )
        },
{
    lemma_generate_states(request, states, replies);
}

/// A request to make a key that ends without one was malformed, or ended with the error
/// of its last reply.
pub proof fn law_generate_failure<'a, D>(
    request: GenerateRequest<'a>,
    states: Seq<GenerateKey<'a, D>>,
    replies: Seq<GenerateReply<D>>,
    e: Error,
)
    requires
        is_generate_run(request, states, replies),
        states.last().outcome() == Some(Err::<KeyMetadata, Error>(e)),
    ensures
        replies.len() == 0 <==> request.key.domain != Domain::Blob && request.key.alias is None,
        replies.len() == 0 ==> e == Error::Km(ErrorCode::InvalidArgument),
        replies.len() > 0 ==> match replies.last() {
            GenerateReply::Permission(r) => r == Err::<(), Error>(e),
            GenerateReply::Interface(r) => r == Err::<D, Error>(e),
            GenerateReply::EntropyAdded(r) => r == Err::<(), Error>(e),
            GenerateReply::Made(r) => r == Err::<KeyCreationResult, Error>(e),
            GenerateReply::Store(StoreReply::Time(r)) => r == Err::<DateTime, Error>(e),
            GenerateReply::Store(StoreReply::Stored(r)) => r == Err::<i64, Error>(e),
        },
{
    lemma_generate_states(request, states, replies);
}

/// A key that is made is bound to the caller: in the app domain its namespace is the uid of
/// the caller, whatever namespace the caller wrote, its alias is that of the caller and it has
/// no blob. In any other domain it is bound to what the caller wrote. That is what the
/// permission is checked for, and what the key is stored under.
pub proof fn law_generated_key_is_bound_to_the_caller<'a, D>(
    request: GenerateRequest<'a>,
    states: Seq<GenerateKey<'a, D>>,
    replies: Seq<GenerateReply<D>>,
    i: int,
)
    requires
        is_generate_run(request, states, replies),
        0 <= i < states.len(),
    ensures
        states[i] matches GenerateKey::CheckPermission(s) ==> {
            let bound = s.generation.target.key;
            &&& bound.domain == request.key.domain
            &&& bound.alias is Some <==> request.key.alias is Some
            &&& request.key.alias is Some ==> bound.alias->0@ == request.key.alias->0@
            &&& request.key.domain == Domain::App ==> {
                &&& bound.nspace == request.caller.uid
                &&& bound.blob is None
            }
            &&& request.key.domain != Domain::App ==> {
                &&& bound.nspace == request.key.nspace
                &&& bound.blob is Some <==> request.key.blob is Some
                &&& request.key.blob is Some ==> bound.blob->0@ == request.key.blob->0@
            }
        },
        states[i] matches GenerateKey::Store(StoreNewKey::StoreKey(s)) ==> {
            let bound = s.new_key.key;
            &&& bound.domain == request.key.domain
            &&& bound.alias is Some <==> request.key.alias is Some
            &&& request.key.alias is Some ==> bound.alias->0@ == request.key.alias->0@
            &&& request.key.domain == Domain::App ==> {
                &&& bound.nspace == request.caller.uid
                &&& bound.blob is None
            }
            &&& request.key.domain != Domain::App ==> {
                &&& bound.nspace == request.key.nspace
                &&& bound.blob is Some <==> request.key.blob is Some
                &&& request.key.blob is Some ==> bound.blob->0@ == request.key.blob->0@
            }
        },
{
    lemma_generate_states(request, states, replies);
}

/// A request to make a key is refused exactly if its descriptor has no alias and is not of
/// the blob domain. Any other begins with the check of the permission to rebind, and keeps
/// the parameters, the entropy, the level and the user that it came with.
pub proof fn law_generate_begins<'a, D>(
    level: &KeystoreSecurityLevel,
    key: &KeyDescriptor,
    attestation_key: Option<&KeyDescriptor>,
    params: &'a [KeyParameter],
    flags: i32,
    entropy: &'a [u8],
    caller: Caller,
    first: GenerateKey<'a, D>,
)
    requires
        call_ensures(
            KeystoreSecurityLevel::generate_key::<D>,
            (level, key, attestation_key, params, flags, entropy, caller),
            first,
        ),
    ensures
        (GenerateRequest { level: *level, key: *key, params, entropy, caller }).begins_as(first),
        if key.domain != Domain::Blob && key.alias is None {
            first matches GenerateKey::Failed(e) && e == Error::Km(ErrorCode::InvalidArgument)
        } else {
            first matches GenerateKey::CheckPermission(s) && {
                &&& s.perm == KeyPerm::Rebind
                &&& s.generation.params == params
                &&& s.generation.entropy == entropy
                &&& s.generation.target.level == *level
                &&& s.generation.target.user_id == caller.user_id
            }
        },
{
}

/// What is stored of a key is what the device made: its blob, its certificates and all its
/// parameters, with its user and with the time that was read.
pub proof fn law_generated_key_is_stored<'a, D>(
    request: GenerateRequest<'a>,
    states: Seq<GenerateKey<'a, D>>,
    replies: Seq<GenerateReply<D>>,
    i: int,
)
    requires
        is_generate_run(request, states, replies),
        0 <= i < states.len(),
        states[i] matches GenerateKey::Store(StoreNewKey::StoreKey(_)),
    ensures
        i == 5,
        request.key.domain != Domain::Blob,
        states[i] matches GenerateKey::Store(StoreNewKey::StoreKey(s)) && {
            &&& replies[3] matches GenerateReply::Made(Ok(created))
            &&& is_created(s.new_key, request.level, created, request.caller.user_id)
            &&& replies[4] == GenerateReply::<D>::Store(StoreReply::Time(Ok(s.creation_date)))
        },
{
    lemma_generate_states(request, states, replies);
}

/// A request to make a key goes on with every reply that is no error: from the permission to
/// the device, the entropy, the key and the time, and from there to the end for a key of the
/// blob domain, and by way of the database for any other. An error ends it at once, and is
/// what the caller gets.
pub proof fn law_generate_goes_on<'a, D>(
    request: GenerateRequest<'a>,
    states: Seq<GenerateKey<'a, D>>,
    replies: Seq<GenerateReply<D>>,
    i: int,
)
    requires
        is_generate_run(request, states, replies),
        0 <= i < replies.len(),
    ensures
        match replies[i] {
            GenerateReply::Permission(Ok(_)) => states[i + 1] is GetInterface,
            GenerateReply::Interface(Ok(device)) => {
                &&& states[i + 1] matches GenerateKey::AddRngEntropy(s)
                &&& s.device == device
                &&& s.generation.entropy == request.entropy
            },
            GenerateReply::EntropyAdded(Ok(_)) => states[i + 1] is MakeKey,
            GenerateReply::Made(Ok(_)) => states[i + 1] matches GenerateKey::Store(
                StoreNewKey::ReadTime(_),
            ),
            GenerateReply::Store(StoreReply::Time(Ok(_))) => if request.key.domain == Domain::Blob {
                states[i + 1] matches GenerateKey::Store(StoreNewKey::Done(Ok(_)))
            } else {
                states[i + 1] matches GenerateKey::Store(StoreNewKey::StoreKey(_))
            },
            GenerateReply::Store(StoreReply::Stored(Ok(_))) => {
                states[i + 1] matches GenerateKey::Store(StoreNewKey::Done(Ok(_)))
            },
            GenerateReply::Permission(Err(e)) => ends_with(states[i + 1], e),
            GenerateReply::Interface(Err(e)) => ends_with(states[i + 1], e),
            GenerateReply::EntropyAdded(Err(e)) => ends_with(states[i + 1], e),
            GenerateReply::Made(Err(e)) => ends_with(states[i + 1], e),
            GenerateReply::Store(StoreReply::Time(Err(e))) => ends_with(states[i + 1], e),
            GenerateReply::Store(StoreReply::Stored(Err(e))) => ends_with(states[i + 1], e),
        },
{
    lemma_generate_states(request, states, replies);
}

/// Whether a request to make a key has come to the error `e`.
pub open spec fn ends_with<'a, D>(state: GenerateKey<'a, D>, e: Error) -> bool {
    match state {
        GenerateKey::Failed(r) => r == e,
        GenerateKey::Store(StoreNewKey::Done(Err(r))) => r == e,
        _ => false,
    }
}

/// The functions that making a key consists of take it along a run.
pub proof fn law_generate_is_a_run<'a, D>(
    check: CheckGenerate<'a>,
    allowed: Result<(), Error>,
    connect: ConnectGenerate<'a>,
    connected: Result<D, Error>,
    entropy: AddRngEntropy<'a, D>,
    added: Result<(), Error>,
    make: MakeKey<'a, D>,
    made: Result<KeyCreationResult, Error>,
    next: GenerateKey<'a, D>,
)
    ensures
        call_ensures(CheckGenerate::<'a>::resume::<D>, (check, allowed), next)
            ==> GenerateKey::<'a, D>::CheckPermission(check).step(
            GenerateReply::Permission(allowed),
            next,
        ),
        call_ensures(ConnectGenerate::<'a>::resume::<D>, (connect, connected), next)
            ==> GenerateKey::GetInterface(connect).step(GenerateReply::Interface(connected), next),
        call_ensures(AddRngEntropy::<'a, D>::resume, (entropy, added), next)
            ==> GenerateKey::AddRngEntropy(entropy).step(GenerateReply::EntropyAdded(added), next),
        call_ensures(MakeKey::<'a, D>::resume, (make, made), next) ==> GenerateKey::MakeKey(
            make,
        ).step(GenerateReply::Made(made), next),
{
}

} // verus!
