//! Beginning an operation with a key.

use crate::key_entry::{KeyEntry, KeyLookup};
use crate::operation::{
    AuthTokenHandler, Authorization, BeginResult, CreateOperationResponse, HardwareAuthToken,
    NewOperation, OperationChallenge,
};
use crate::process::Process;
use crate::request::{operation_purpose, purpose_of};
use crate::security_level::KeystoreSecurityLevel;
use crate::types::{
    Domain, Error, ErrorCode, KeyDescriptor, KeyParameter, KeyPerm, KeyPurpose, KsKeyParam,
    KsKeyParamValue, KsKeyParamValueView, KsKeyParamView, SecurityLevel,
};
use crate::upgrade::{Attempt, InsertBlob, Upgrade, UpgradeKey};
use vstd::prelude::*;
use vstd::slice::slice_to_vec;

verus! {

/// What a client asks of an operation.
#[derive(Debug, PartialEq, Eq)]
pub struct OperationContext<'a> {
    pub level: KeystoreSecurityLevel,
    pub params: &'a [KeyParameter],
    pub caller_uid: u32,
}

/// Waits for the check that the caller has the permission `perm` for the key `key`.
#[derive(Debug, PartialEq, Eq)]
pub struct CheckUse<'a> {
    pub perm: KeyPerm,
    pub key: &'a KeyDescriptor,
    pub context: OperationContext<'a>,
}

/// Waits for the entry of the key.
#[derive(Debug, PartialEq, Eq)]
pub struct LoadKey<'a> {
    pub lookup: KeyLookup<'a>,
    pub context: OperationContext<'a>,
}

/// Waits for the enforcement rules to authorize an operation with this purpose and these
/// parameters, with a key that has those parameters, at the security level.
#[derive(Debug, PartialEq, Eq)]
pub struct AuthorizeCreate<'a, G> {
    pub purpose: KeyPurpose,
    pub key_params: Vec<KsKeyParam>,
    pub op_params: Vec<KsKeyParam>,
    pub security_level: SecurityLevel,
    pub key_id_guard: G,
    pub km_blob: Vec<u8>,
    pub context: OperationContext<'a>,
}

/// An operation that may begin.
#[derive(Debug, PartialEq, Eq)]
pub struct Beginning<'a, A> {
    pub context: OperationContext<'a>,
    pub purpose: KeyPurpose,
    /// The auth token for the device. Without one the device gets the default token.
    pub auth_token: Option<HardwareAuthToken>,
    pub handler: AuthTokenHandler<A>,
    /// The parameters of the key, if it came from the database.
    pub key_parameters: Option<Vec<KsKeyParam>>,
}

/// Waits for the interface of the device.
#[derive(Debug, PartialEq, Eq)]
pub struct ConnectOperation<'a, G, A> {
    pub key_id_guard: Option<G>,
    pub km_blob: Vec<u8>,
    pub beginning: Beginning<'a, A>,
}

/// Waits for the device of `attempt` to begin the operation with the blob of `attempt`.
#[derive(Debug, PartialEq, Eq)]
pub struct BeginOperation<'a, G, D, A> {
    pub attempt: Attempt<'a, G, D>,
    pub beginning: Beginning<'a, A>,
}

/// Waits until an operation has been aborted, on behalf of the caller, to make room for a
/// new one.
#[derive(Debug, PartialEq, Eq)]
pub struct PruneOperations<'a, G, D, A> {
    pub attempt: Attempt<'a, G, D>,
    pub beginning: Beginning<'a, A>,
}

/// Waits for the device to upgrade the blob of the key.
#[derive(Debug, PartialEq, Eq)]
pub struct UpgradeOperationKey<'a, G, D, A> {
    pub upgrade: UpgradeKey<'a, G, D>,
    pub beginning: Beginning<'a, A>,
}

/// Waits for the database to store the new blob of the key.
#[derive(Debug, PartialEq, Eq)]
pub struct InsertOperationKey<'a, G, D, A> {
    pub insert: InsertBlob<'a, G, D>,
    pub beginning: Beginning<'a, A>,
}

/// An operation that the device has begun.
#[derive(Debug, PartialEq, Eq)]
pub struct Opening<M> {
    pub operation: Option<M>,
    pub params: Vec<KeyParameter>,
    pub caller_uid: u32,
    pub key_parameters: Option<Vec<KsKeyParam>>,
    pub challenge: Option<OperationChallenge>,
}

/// Waits until the enforcement rules know that an auth token is to come for `challenge`.
#[derive(Debug, PartialEq, Eq)]
pub struct NoteChallenge<M> {
    pub challenge: i64,
    pub opening: Opening<M>,
}

/// Waits for a timestamp token for the auth token and the challenge.
#[derive(Debug, PartialEq, Eq)]
pub struct RequestTimestamp<M> {
    pub auth_token: HardwareAuthToken,
    pub challenge: OperationChallenge,
    pub opening: Opening<M>,
}

/// What a client will get for an operation, but for its interface.
#[derive(Debug, PartialEq, Eq)]
pub struct PendingResponse {
    pub challenge: Option<OperationChallenge>,
    pub params: Vec<KeyParameter>,
}

/// Waits for the interface of the operation, once that is among those that Keystore
/// keeps. The operation can be moved out of here.
#[derive(Debug, PartialEq, Eq)]
pub struct OpenOperation<A, M> {
    pub operation: NewOperation<A, M>,
    pub response: PendingResponse,
}

/// Begins an operation.
///
/// `G` holds an entry of the database, `D` is a device, `A` a way to come by an auth token,
/// `M` an operation of the device and `B` the interface that a client gets.
#[derive(Debug, PartialEq, Eq)]
pub enum CreateOperation<'a, G, D, A, M, B> {
    CheckPermission(CheckUse<'a>),
    LoadKey(LoadKey<'a>),
    Authorize(AuthorizeCreate<'a, G>),
    GetInterface(ConnectOperation<'a, G, A>),
    Begin(BeginOperation<'a, G, D, A>),
    Prune(PruneOperations<'a, G, D, A>),
    UpgradeKey(UpgradeOperationKey<'a, G, D, A>),
    InsertBlob(InsertOperationKey<'a, G, D, A>),
    NoteChallenge(NoteChallenge<M>),
    RequestTimestamp(RequestTimestamp<M>),
    Open(OpenOperation<A, M>),
    Done(Result<CreateOperationResponse<B>, Error>),
}

/// What a `CreateOperation` can be answered.
pub enum OperationReply<G, D, A, M, B> {
    Permission(Result<(), Error>),
    KeyEntry(Result<(G, KeyEntry), Error>),
    Authorization(Result<Authorization<A>, Error>),
    Interface(Result<D, Error>),
    Begun(Result<BeginResult<M>, Error>),
    Pruned(Result<(), Error>),
    Upgraded(Result<Vec<u8>, Error>),
    Inserted(Result<(), Error>),
    ChallengeNoted,
    Timestamp(Result<AuthTokenHandler<A>, Error>),
    Opened(Result<B, Error>),
}

impl<'a> CheckUse<'a> {
    /// Whether `next` follows the check: the descriptor must hold a blob and the
    /// parameters a purpose. No authorization is asked for, as nothing is known of the
    /// key.
    pub open spec fn leads_to<G, D, A, M, B>(
        self,
        allowed: Result<(), Error>,
        next: CreateOperation<'a, G, D, A, M, B>,
    ) -> bool {
        match (allowed, self.key.blob, purpose_of(self.context.params@)) {
            (Err(e), _, _) => next == CreateOperation::<G, D, A, M, B>::Done(Err(e)),
            (Ok(_), None, _) => next == CreateOperation::<G, D, A, M, B>::Done(Err(Error::Sys)),
            (Ok(_), Some(_), Err(e)) => next == CreateOperation::<G, D, A, M, B>::Done(Err(e)),
            (Ok(_), Some(blob), Ok(purpose)) => {
                &&& next matches CreateOperation::GetInterface(s)
                &&& s.key_id_guard is None
                &&& s.km_blob@ == blob@
                &&& s.beginning == (Beginning {
                    context: self.context,
                    purpose,
                    auth_token: None,
                    handler: AuthTokenHandler::<A>::NoAuthRequired,
                    key_parameters: None,
                })
            },
        }
    }

    /// Takes the result of the check.
    pub fn resume<G, D, A, M, B>(self, allowed: Result<(), Error>) -> (next:
        CreateOperation<'a, G, D, A, M, B>)
        ensures
            self.leads_to(allowed, next),
    {
        if let Err(e) = allowed {
            return CreateOperation::Done(Err(e));
        }
        let km_blob = match &self.key.blob {
            Some(blob) => slice_to_vec(blob.as_slice()),
            None => return CreateOperation::Done(Err(Error::Sys)),
        };
        match operation_purpose(self.context.params) {
            Ok(purpose) => CreateOperation::GetInterface(
                ConnectOperation {
                    key_id_guard: None,
                    km_blob,
                    beginning: Beginning {
                        context: self.context,
                        purpose,
                        auth_token: None,
                        handler: AuthTokenHandler::NoAuthRequired,
                        key_parameters: None,
                    },
                },
            ),
            Err(e) => CreateOperation::Done(Err(e)),
        }
    }
}

/// The models of key parameters.
pub open spec fn params_view(params: Seq<KsKeyParam>) -> Seq<KsKeyParamView> {
    params.map_values(|p: KsKeyParam| p@)
}

/// The parameters of an operation as the enforcement rules get them: all of them, in
/// order, each as one that the security level enforces.
pub open spec fn enforced_at(params: Seq<KeyParameter>, level: SecurityLevel) -> Seq<
    KsKeyParamView,
> {
    params.map_values(
        |p: KeyParameter|
            KsKeyParamView { value: KsKeyParamValueView::Parameter(p@), security_level: level },
    )
}

/// Puts the parameters of an operation in the form in which the enforcement rules get
/// them.
pub fn operation_params(params: &[KeyParameter], level: SecurityLevel) -> (r: Vec<KsKeyParam>)
    ensures
        params_view(r@) == enforced_at(params@, level),
        r@.len() == params@.len(),
        forall|j: int|
            0 <= j < params@.len() ==> {
                &&& (#[trigger] r@[j]).security_level == level
                &&& r@[j].value matches KsKeyParamValue::Parameter(p)
                &&& p.tag == params@[j].tag
                &&& p.value@ == params@[j].value@
            },
{
    let mut op_params: Vec<KsKeyParam> = Vec::new();
    let mut i: usize = 0;
    while i < params.len()
        invariant
            0 <= i <= params@.len(),
            op_params@.len() == i,
            forall|j: int|
                0 <= j < i ==> params_view(op_params@)[j] == #[trigger] enforced_at(
                    params@,
                    level,
                )[j],
        decreases params@.len() - i,
    {
        let ghost before = op_params@;
        op_params.push(
            KsKeyParam {
                value: KsKeyParamValue::Parameter(params[i].clone()),
                security_level: level,
            },
        );
        assert forall|j: int| 0 <= j < i + 1 implies params_view(op_params@)[j]
            == #[trigger] enforced_at(params@, level)[j] by {
            if j < i {
                assert(params_view(before)[j] == enforced_at(params@, level)[j]);
                assert(op_params@[j] == before[j]);
            }
        }
        i = i + 1;
    }
    assert(params_view(op_params@) =~= enforced_at(params@, level));
    assert forall|j: int| 0 <= j < params@.len() implies {
        &&& (#[trigger] op_params@[j]).security_level == level
        &&& op_params@[j].value matches KsKeyParamValue::Parameter(p)
        &&& p.tag == params@[j].tag
        &&& p.value@ == params@[j].value@
    } by {
        assert(params_view(op_params@)[j] == enforced_at(params@, level)[j]);
    }
    op_params
}

impl<'a> LoadKey<'a> {
    /// Whether `next` follows the answer of the database: the entry must have a blob, and
    /// the parameters of the operation a purpose. Then authorization is asked for.
    pub open spec fn leads_to<G, D, A, M, B>(
        self,
        loaded: Result<(G, KeyEntry), Error>,
        next: CreateOperation<'a, G, D, A, M, B>,
    ) -> bool {
        match loaded {
            Err(e) => next == CreateOperation::<G, D, A, M, B>::Done(Err(e)),
            Ok((key_id_guard, entry)) => match (entry.km_blob, purpose_of(self.context.params@)) {
                (None, _) => next == CreateOperation::<G, D, A, M, B>::Done(Err(Error::Sys)),
                (Some(_), Err(e)) => next == CreateOperation::<G, D, A, M, B>::Done(Err(e)),
                (Some(blob), Ok(purpose)) => {
                    &&& next matches CreateOperation::Authorize(s)
                    &&& s.purpose == purpose
                    &&& s.key_params == entry.key_parameters
                    &&& params_view(s.op_params@) == enforced_at(
                        self.context.params@,
                        self.context.level.security_level,
                    )
                    &&& s.security_level == self.context.level.security_level
                    &&& s.key_id_guard == key_id_guard
                    &&& s.km_blob == blob
                    &&& s.context == self.context
                },
            },
        }
    }

    /// Takes the answer of the database.
    pub fn resume<G, D, A, M, B>(self, loaded: Result<(G, KeyEntry), Error>) -> (next:
        CreateOperation<'a, G, D, A, M, B>)
        ensures
            self.leads_to(loaded, next),
    {
        let (key_id_guard, entry) = match loaded {
            Ok(found) => found,
            Err(e) => return CreateOperation::Done(Err(e)),
        };
        let km_blob = match entry.km_blob {
            Some(blob) => blob,
            None => return CreateOperation::Done(Err(Error::Sys)),
        };
        let purpose = match operation_purpose(self.context.params) {
            Ok(purpose) => purpose,
            Err(e) => return CreateOperation::Done(Err(e)),
        };
        let security_level = self.context.level.security_level;
        CreateOperation::Authorize(
            AuthorizeCreate {
                purpose,
                key_params: entry.key_parameters,
                op_params: operation_params(self.context.params, security_level),
                security_level,
                key_id_guard,
                km_blob,
                context: self.context,
            },
        )
    }
}

impl<'a, G> AuthorizeCreate<'a, G> {
    /// What follows the decision of the enforcement rules.
    pub open spec fn next<D, A, M, B>(
        self,
        authorized: Result<Authorization<A>, Error>,
    ) -> CreateOperation<'a, G, D, A, M, B> {
        match authorized {
            Err(e) => CreateOperation::Done(Err(e)),
            Ok(authorization) => CreateOperation::GetInterface(
                ConnectOperation {
                    key_id_guard: Some(self.key_id_guard),
                    km_blob: self.km_blob,
                    beginning: Beginning {
                        context: self.context,
                        purpose: self.purpose,
                        auth_token: authorization.auth_token,
                        handler: authorization.handler,
                        key_parameters: Some(self.key_params),
                    },
                },
            ),
        }
    }

    /// Takes the decision of the enforcement rules.
    pub fn resume<D, A, M, B>(self, authorized: Result<Authorization<A>, Error>) -> (next:
        CreateOperation<'a, G, D, A, M, B>)
        ensures
            next == self.next::<D, A, M, B>(authorized),
    {
        match authorized {
            Err(e) => CreateOperation::Done(Err(e)),
            Ok(authorization) => CreateOperation::GetInterface(
                ConnectOperation {
                    key_id_guard: Some(self.key_id_guard),
                    km_blob: self.km_blob,
                    beginning: Beginning {
                        context: self.context,
                        purpose: self.purpose,
                        auth_token: authorization.auth_token,
                        handler: authorization.handler,
                        key_parameters: Some(self.key_params),
                    },
                },
            ),
        }
    }
}

impl<'a, G, A> ConnectOperation<'a, G, A> {
    /// What follows the connection: the first try to begin. An upgrade of the blob would
    /// get the parameters of the operation.
    pub open spec fn next<D, M, B>(self, connected: Result<D, Error>) -> CreateOperation<
        'a,
        G,
        D,
        A,
        M,
        B,
    > {
        match connected {
            Err(e) => CreateOperation::Done(Err(e)),
            Ok(device) => CreateOperation::Begin(
                BeginOperation {
                    attempt: Attempt {
                        device,
                        key_id_guard: self.key_id_guard,
                        blob: self.km_blob,
                        params: self.beginning.context.params,
                        upgraded: false,
                    },
                    beginning: self.beginning,
                },
            ),
        }
    }

    /// Takes the interface of the device, or why it is not there.
    pub fn resume<D, M, B>(self, connected: Result<D, Error>) -> (next:
        CreateOperation<'a, G, D, A, M, B>)
        ensures
            next == self.next::<D, M, B>(connected),
    {
        let device = match connected {
            Ok(device) => device,
            Err(e) => return CreateOperation::Done(Err(e)),
        };
        let attempt = self.beginning.context.level.upgrade_keyblob_if_required_with(
            device,
            self.key_id_guard,
            self.km_blob,
            self.beginning.context.params,
        );
        CreateOperation::Begin(BeginOperation { attempt, beginning: self.beginning })
    }
}

impl<M> Opening<M> {
    /// The operation is handed on to be kept, with the way to come by its auth token. It
    /// must be there.
    pub open spec fn opened<'a, G, D, A, B>(self, handler: AuthTokenHandler<A>) -> CreateOperation<
        'a,
        G,
        D,
        A,
        M,
        B,
    > {
        match self.operation {
            None => CreateOperation::Done(Err(Error::Sys)),
            Some(km_op) => CreateOperation::Open(
                OpenOperation {
                    operation: NewOperation {
                        km_op,
                        owner: self.caller_uid,
                        auth_token_handler: handler,
                        key_parameters: self.key_parameters,
                        challenge: self.challenge,
                    },
                    response: PendingResponse { challenge: self.challenge, params: self.params },
                },
            ),
        }
    }

    /// Hands the operation on to be kept.
    fn open<'a, G, D, A, B>(self, handler: AuthTokenHandler<A>) -> (next:
        CreateOperation<'a, G, D, A, M, B>)
        ensures
            next == self.opened::<G, D, A, B>(handler),
    {
        match self.operation {
            None => CreateOperation::Done(Err(Error::Sys)),
            Some(km_op) => CreateOperation::Open(
                OpenOperation {
                    operation: NewOperation {
                        km_op,
                        owner: self.caller_uid,
                        auth_token_handler: handler,
                        key_parameters: self.key_parameters,
                        challenge: self.challenge,
                    },
                    response: PendingResponse { challenge: self.challenge, params: self.params },
                },
            ),
        }
    }
}

impl<'a, A> Beginning<'a, A> {
    /// The operation that the device has begun. Its challenge is remembered only if the
    /// user has to authenticate for it.
    pub open spec fn opening<M>(self, begun: BeginResult<M>) -> Opening<M> {
        Opening {
            operation: begun.operation,
            params: begun.params,
            caller_uid: self.context.caller_uid,
            key_parameters: self.key_parameters,
            challenge: if self.handler is OpAuthRequired {
                Some(OperationChallenge { challenge: begun.challenge })
            } else {
                None
            },
        }
    }

    /// What follows once the device has begun the operation: what the way to come by an
    /// auth token calls for.
    pub open spec fn begun<G, D, M, B>(self, begun: BeginResult<M>) -> CreateOperation<
        'a,
        G,
        D,
        A,
        M,
        B,
    > {
        match self.handler {
            AuthTokenHandler::OpAuthRequired => CreateOperation::NoteChallenge(
                NoteChallenge { challenge: begun.challenge, opening: self.opening(begun) },
            ),
            AuthTokenHandler::TimestampRequired(auth_token) => CreateOperation::RequestTimestamp(
                RequestTimestamp {
                    auth_token,
                    challenge: OperationChallenge { challenge: begun.challenge },
                    opening: self.opening(begun),
                },
            ),
            handler => self.opening(begun).opened::<G, D, A, B>(handler),
        }
    }

    /// What follows, as far as the use of the blob of the key has come.
    pub open spec fn continued<G, D, M, B>(
        self,
        upgrade: Upgrade<'a, G, D, BeginResult<M>>,
    ) -> CreateOperation<'a, G, D, A, M, B> {
        match upgrade {
            Upgrade::Attempt(attempt) => CreateOperation::Begin(
                BeginOperation { attempt, beginning: self },
            ),
            Upgrade::UpgradeKey(upgrade) => CreateOperation::UpgradeKey(
                UpgradeOperationKey { upgrade, beginning: self },
            ),
            Upgrade::InsertBlob(insert) => CreateOperation::InsertBlob(
                InsertOperationKey { insert, beginning: self },
            ),
            Upgrade::Done(Err(e)) => CreateOperation::Done(Err(e)),
            Upgrade::Done(Ok((begun, _))) => self.begun::<G, D, M, B>(begun),
        }
    }

    /// Goes on, as far as the use of the blob of the key has come.
    fn proceed<G, D, M, B>(self, upgrade: Upgrade<'a, G, D, BeginResult<M>>) -> (next:
        CreateOperation<'a, G, D, A, M, B>)
        ensures
            next == self.continued::<G, D, M, B>(upgrade),
    {
        let begun = match upgrade {
            Upgrade::Attempt(attempt) => {
                return CreateOperation::Begin(BeginOperation { attempt, beginning: self });
            },
            Upgrade::UpgradeKey(upgrade) => {
                return CreateOperation::UpgradeKey(
                    UpgradeOperationKey { upgrade, beginning: self },
                );
            },
            Upgrade::InsertBlob(insert) => {
                return CreateOperation::InsertBlob(
                    InsertOperationKey { insert, beginning: self },
                );
            },
            Upgrade::Done(Err(e)) => return CreateOperation::Done(Err(e)),
            Upgrade::Done(Ok((begun, _))) => begun,
        };
        let challenge = OperationChallenge { challenge: begun.challenge };
        let opening = Opening {
            operation: begun.operation,
            params: begun.params,
            caller_uid: self.context.caller_uid,
            key_parameters: self.key_parameters,
            challenge: None,
        };
        match self.handler {
            AuthTokenHandler::OpAuthRequired => CreateOperation::NoteChallenge(
                NoteChallenge {
                    challenge: challenge.challenge,
                    opening: Opening { challenge: Some(challenge), ..opening },
                },
            ),
            AuthTokenHandler::TimestampRequired(auth_token) => CreateOperation::RequestTimestamp(
                RequestTimestamp { auth_token, challenge, opening },
            ),
            handler => opening.open(handler),
        }
    }
}

impl<'a, G, D, A> BeginOperation<'a, G, D, A> {
    /// What follows the answer of the device. If it has too many operations, room is made
    /// for this one. Any other answer is the result of the try.
    pub open spec fn next<M, B>(self, begun: Result<BeginResult<M>, Error>) -> CreateOperation<
        'a,
        G,
        D,
        A,
        M,
        B,
    > {
        if begun is Err && begun->Err_0 == Error::Km(ErrorCode::TooManyOperations) {
            CreateOperation::Prune(
                PruneOperations { attempt: self.attempt, beginning: self.beginning },
            )
        } else {
            self.beginning.continued::<G, D, M, B>(self.attempt.next(begun))
        }
    }

    /// Takes the answer of the device.
    pub fn resume<M, B>(self, begun: Result<BeginResult<M>, Error>) -> (next:
        CreateOperation<'a, G, D, A, M, B>)
        ensures
            next == self.next::<M, B>(begun),
    {
        match begun {
            Err(Error::Km(ErrorCode::TooManyOperations)) => CreateOperation::Prune(
                PruneOperations { attempt: self.attempt, beginning: self.beginning },
            ),
            begun => self.beginning.proceed(self.attempt.resume(begun)),
        }
    }
}

impl<'a, G, D, A> PruneOperations<'a, G, D, A> {
    /// What follows once room was made: the same try again. If there was no room to be
    /// made, that is the result of the try.
    pub open spec fn next<M, B>(self, pruned: Result<(), Error>) -> CreateOperation<
        'a,
        G,
        D,
        A,
        M,
        B,
    > {
        match pruned {
            Ok(_) => CreateOperation::Begin(
                BeginOperation { attempt: self.attempt, beginning: self.beginning },
            ),
            Err(e) => self.beginning.continued::<G, D, M, B>(
                self.attempt.next::<BeginResult<M>>(Err(e)),
            ),
        }
    }

    /// Takes note that room was made, or why not.
    pub fn resume<M, B>(self, pruned: Result<(), Error>) -> (next:
        CreateOperation<'a, G, D, A, M, B>)
        ensures
            next == self.next::<M, B>(pruned),
    {
        match pruned {
            Ok(_) => CreateOperation::Begin(
                BeginOperation { attempt: self.attempt, beginning: self.beginning },
            ),
            Err(e) => self.beginning.proceed(self.attempt.resume::<BeginResult<M>>(Err(e))),
        }
    }
}

impl<'a, G, D, A> UpgradeOperationKey<'a, G, D, A> {
    /// What follows the answer of the device.
    pub open spec fn next<M, B>(self, upgraded: Result<Vec<u8>, Error>) -> CreateOperation<
        'a,
        G,
        D,
        A,
        M,
        B,
    > {
        self.beginning.continued::<G, D, M, B>(self.upgrade.next::<BeginResult<M>>(upgraded))
    }

    /// Takes the answer of the device.
    pub fn resume<M, B>(self, upgraded: Result<Vec<u8>, Error>) -> (next:
        CreateOperation<'a, G, D, A, M, B>)
        ensures
            next == self.next::<M, B>(upgraded),
    {
        self.beginning.proceed(self.upgrade.resume::<BeginResult<M>>(upgraded))
    }
}

impl<'a, G, D, A> InsertOperationKey<'a, G, D, A> {
    /// What follows the answer of the database.
    pub open spec fn next<M, B>(self, inserted: Result<(), Error>) -> CreateOperation<
        'a,
        G,
        D,
        A,
        M,
        B,
    > {
        self.beginning.continued::<G, D, M, B>(self.insert.next::<BeginResult<M>>(inserted))
    }

    /// Takes the answer of the database.
    pub fn resume<M, B>(self, inserted: Result<(), Error>) -> (next:
        CreateOperation<'a, G, D, A, M, B>)
        ensures
            next == self.next::<M, B>(inserted),
    {
        self.beginning.proceed(self.insert.resume::<BeginResult<M>>(inserted))
    }
}

impl<M> NoteChallenge<M> {
    /// What follows once the challenge is known.
    pub open spec fn next<'a, G, D, A, B>(self) -> CreateOperation<'a, G, D, A, M, B> {
        self.opening.opened::<G, D, A, B>(AuthTokenHandler::OpAuthRequired)
    }

    /// Takes note that the challenge is known.
    pub fn resume<'a, G, D, A, B>(self) -> (next: CreateOperation<'a, G, D, A, M, B>)
        ensures
            next == self.next::<G, D, A, B>(),
    {
        self.opening.open(AuthTokenHandler::OpAuthRequired)
    }
}

impl<M> RequestTimestamp<M> {
    /// What follows the request: the operation has a new way to come by its auth token.
    pub open spec fn next<'a, G, D, A, B>(
        self,
        handler: Result<AuthTokenHandler<A>, Error>,
    ) -> CreateOperation<'a, G, D, A, M, B> {
        match handler {
            Ok(handler) => self.opening.opened::<G, D, A, B>(handler),
            Err(e) => CreateOperation::Done(Err(e)),
        }
    }

    /// Takes the new way to come by the auth token.
    pub fn resume<'a, G, D, A, B>(self, handler: Result<AuthTokenHandler<A>, Error>) -> (next:
        CreateOperation<'a, G, D, A, M, B>)
        ensures
            next == self.next::<G, D, A, B>(handler),
    {
        match handler {
            Ok(handler) => self.opening.open(handler),
            Err(e) => CreateOperation::Done(Err(e)),
        }
    }
}

impl PendingResponse {
    /// What the client gets: the interface, the challenge if the user has to authenticate,
    /// and the parameters that the device returned, if any.
    pub open spec fn answers<B>(
        self,
        opened: Result<B, Error>,
        r: Result<CreateOperationResponse<B>, Error>,
    ) -> bool {
        r == match opened {
            Err(e) => Err(e),
            Ok(interface) => Ok(
                CreateOperationResponse {
                    i_operation: Some(interface),
                    operation_challenge: self.challenge,
                    parameters: if self.params@.len() == 0 {
                        None
                    } else {
                        Some(self.params)
                    },
                },
            ),
        }
    }

    /// Takes the interface of the operation.
    pub fn resume<'a, G, D, A, M, B>(self, opened: Result<B, Error>) -> (next:
        CreateOperation<'a, G, D, A, M, B>)
        ensures
            next matches CreateOperation::Done(r) && self.answers(opened, r),
    {
        let interface = match opened {
            Ok(interface) => interface,
            Err(e) => return CreateOperation::Done(Err(e)),
        };
        CreateOperation::Done(
            Ok(
                CreateOperationResponse {
                    i_operation: Some(interface),
                    operation_challenge: self.challenge,
                    parameters: match self.params.len() {
                        0 => None,
                        _ => Some(self.params),
                    },
                },
            ),
        )
    }
}

impl<'a, G, D, A, M, B> Process for CreateOperation<'a, G, D, A, M, B> {
    type Reply = OperationReply<G, D, A, M, B>;

    open spec fn step(self, reply: OperationReply<G, D, A, M, B>, next: Self) -> bool {
        match (self, reply) {
            (CreateOperation::CheckPermission(s), OperationReply::Permission(r)) => s.leads_to(
                r,
                next,
            ),
            (CreateOperation::LoadKey(s), OperationReply::KeyEntry(r)) => s.leads_to(r, next),
            (CreateOperation::Authorize(s), OperationReply::Authorization(r)) => next == s.next::<
                D,
                A,
                M,
                B,
            >(r),
            (CreateOperation::GetInterface(s), OperationReply::Interface(r)) => next == s.next::<
                D,
                M,
                B,
            >(r),
            (CreateOperation::Begin(s), OperationReply::Begun(r)) => next == s.next::<M, B>(r),
            (CreateOperation::Prune(s), OperationReply::Pruned(r)) => next == s.next::<M, B>(r),
            (CreateOperation::UpgradeKey(s), OperationReply::Upgraded(r)) => next == s.next::<
                M,
                B,
            >(r),
            (CreateOperation::InsertBlob(s), OperationReply::Inserted(r)) => next == s.next::<
                M,
                B,
            >(r),
            (CreateOperation::NoteChallenge(s), OperationReply::ChallengeNoted) => next == s.next::<
                G,
                D,
                A,
                B,
            >(),
            (CreateOperation::RequestTimestamp(s), OperationReply::Timestamp(r)) => next
                == s.next::<G, D, A, B>(r),
            (CreateOperation::Open(s), OperationReply::Opened(r)) => {
                next matches CreateOperation::Done(d) && s.response.answers(r, d)
            },
            _ => false,
        }
    }
}

/// A request to begin an operation: who asks, where, and for what.
pub struct OperationRequest<'a> {
    pub level: KeystoreSecurityLevel,
    pub key: &'a KeyDescriptor,
    pub params: &'a [KeyParameter],
    pub caller_uid: u32,
}

impl<'a> OperationRequest<'a> {
    /// What the request asks of the operation.
    pub open spec fn context(self) -> OperationContext<'a> {
        OperationContext {
            level: self.level,
            params: self.params,
            caller_uid: self.caller_uid,
        }
    }

    /// How the request begins. For a key whose blob the client keeps the permission to use
    /// it is checked. Any other key is searched for, on behalf of a caller who may use it.
    pub open spec fn first<G, D, A, M, B>(self) -> CreateOperation<'a, G, D, A, M, B> {
        if self.key.domain == Domain::Blob {
            CreateOperation::CheckPermission(
                CheckUse { perm: KeyPerm::Use, key: self.key, context: self.context() },
            )
        } else {
            CreateOperation::LoadKey(
                LoadKey {
                    lookup: KeyLookup::for_use(self.key, self.caller_uid),
                    context: self.context(),
                },
            )
        }
    }
}

impl KeystoreSecurityLevel {
    /// Takes up a request to begin an operation. There is no use yet for forcing one.
    pub fn create_operation<'a, G, D, A, M, B>(
        &self,
        key: &'a KeyDescriptor,
        operation_parameters: &'a [KeyParameter],
        forced: bool,
        caller_uid: u32,
    ) -> (first: CreateOperation<'a, G, D, A, M, B>)
        ensures
            first == (OperationRequest {
                level: *self,
                key,
                params: operation_parameters,
                caller_uid,
            }).first::<G, D, A, M, B>(),
    {
        let context = OperationContext { level: *self, params: operation_parameters, caller_uid };
        match key.domain {
            Domain::Blob => CreateOperation::CheckPermission(
                CheckUse { perm: KeyPerm::Use, key, context },
            ),
            _ => CreateOperation::LoadKey(
                LoadKey { lookup: KeyLookup::new_for_use(key, caller_uid), context },
            ),
        }
    }
}

} // verus!
