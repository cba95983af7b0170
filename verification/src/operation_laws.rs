//! What holds of every request to begin an operation.

use crate::create_operation::{
    enforced_at, params_view, AuthorizeCreate, BeginOperation, CheckUse, ConnectOperation,
    CreateOperation, InsertOperationKey, LoadKey, NoteChallenge, OpenOperation, OperationReply,
    OperationRequest, PendingResponse, PruneOperations, RequestTimestamp, UpgradeOperationKey,
};
use crate::key_entry::{KeyEntry, KeyEntryLoadBits, KeyType};
use crate::operation::{AuthTokenHandler, Authorization, BeginResult, OperationChallenge};
use crate::process::{is_run, step_at, Process};
use crate::request::{has_tag, law_first_where, lemma_first_tagged, purpose_of};
use crate::security_level::KeystoreSecurityLevel;
use crate::types::{
    Domain, Error, ErrorCode, KeyDescriptor, KeyParameter, KeyParameterValue, KeyPerm, KeyPurpose,
    KsKeyParamValue, KsKeyParamValueView, Tag,
};
use crate::upgrade::{Attempt, SubComponentType};
use vstd::prelude::*;

verus! {

/// Whether a request to begin an operation passes through `states` as it gets `replies`.
pub open spec fn is_operation_run<'a, G, D, A, M, B>(
    request: OperationRequest<'a>,
    states: Seq<CreateOperation<'a, G, D, A, M, B>>,
    replies: Seq<OperationReply<G, D, A, M, B>>,
) -> bool {
    &&& is_run(states, replies)
    &&& states[0] == request.first::<G, D, A, M, B>()
}

/// The position of the state that waits for the device, in a run that gets there.
pub open spec fn connects_at<'a>(request: OperationRequest<'a>) -> int {
    if request.key.domain == Domain::Blob {
        1
    } else {
        2
    }
}

/// Whether the caller was found to be allowed to use the key, and authorized to begin the
/// operation where that is asked for.
///
/// For a key of the blob domain that takes the permission to use it. For any other it
/// takes the database to find the key on behalf of a caller who may use it, and the
/// enforcement rules to authorize an operation with the purpose and with all the
/// parameters that the caller gave, for a key with the parameters that were found.
pub open spec fn is_authorized<'a, G, D, A, M, B>(
    request: OperationRequest<'a>,
    states: Seq<CreateOperation<'a, G, D, A, M, B>>,
    replies: Seq<OperationReply<G, D, A, M, B>>,
) -> bool {
    &&& purpose_of(request.params@) is Ok
    &&& if request.key.domain == Domain::Blob {
        &&& states[0] matches CreateOperation::CheckPermission(s)
        &&& s.perm == KeyPerm::Use
        &&& s.key == request.key
        &&& replies[0] matches OperationReply::Permission(Ok(_))
    } else {
        &&& states[0] matches CreateOperation::LoadKey(l)
        &&& l.lookup.key == request.key
        &&& l.lookup.key_type == KeyType::Client
        &&& l.lookup.load_bits == KeyEntryLoadBits::Km
        &&& l.lookup.caller_uid == request.caller_uid
        &&& l.lookup.perm == KeyPerm::Use
        &&& replies[0] matches OperationReply::KeyEntry(Ok((_, entry)))
        &&& states[1] matches CreateOperation::Authorize(s)
        &&& purpose_of(request.params@) == Ok::<KeyPurpose, Error>(s.purpose)
        &&& s.key_params == entry.key_parameters
        &&& params_view(s.op_params@) == enforced_at(
            request.params@,
            request.level.security_level,
        )
        &&& s.security_level == request.level.security_level
        &&& replies[1] matches OperationReply::Authorization(Ok(_))
    }
}

/// The blob of the key, as the descriptor or the database has it.
pub open spec fn key_blob<'a, G, D, A, M, B>(
    request: OperationRequest<'a>,
    replies: Seq<OperationReply<G, D, A, M, B>>,
) -> Option<Seq<u8>> {
    if request.key.domain == Domain::Blob {
        match request.key.blob {
            Some(blob) => Some(blob@),
            None => None,
        }
    } else {
        match replies[0] {
            OperationReply::KeyEntry(Ok((_, KeyEntry { km_blob: Some(blob), .. }))) => Some(blob@),
            _ => None,
        }
    }
}

/// What holds the entry of the key, if it came from the database.
pub open spec fn key_guard<G, D, A, M, B>(
    replies: Seq<OperationReply<G, D, A, M, B>>,
) -> Option<G> {
    match replies[0] {
        OperationReply::KeyEntry(Ok((key_id_guard, _))) => Some(key_id_guard),
        _ => None,
    }
}

/// Whether the upgrade that state `u` asked for was made, with the result `blob`, and,
/// if the key came from the database, stored there.
pub open spec fn is_upgraded_at<'a, G, D, A, M, B>(
    request: OperationRequest<'a>,
    states: Seq<CreateOperation<'a, G, D, A, M, B>>,
    replies: Seq<OperationReply<G, D, A, M, B>>,
    u: int,
    blob: Vec<u8>,
) -> bool {
    &&& states[u] is UpgradeKey
    &&& replies[u] == OperationReply::<G, D, A, M, B>::Upgraded(Ok(blob))
    &&& request.key.domain != Domain::Blob ==> {
        &&& states[u + 1] matches CreateOperation::InsertBlob(s)
        &&& Some(s.insert.key_id_guard) == key_guard(replies)
        &&& s.insert.component == SubComponentType::KeyBlob
        &&& s.insert.blob == blob
        &&& replies[u + 1] matches OperationReply::Inserted(Ok(_))
    }
}

/// Whether `device` is the one that was reached.
pub open spec fn is_reached<'a, G, D, A, M, B>(
    request: OperationRequest<'a>,
    replies: Seq<OperationReply<G, D, A, M, B>>,
    device: D,
) -> bool {
    replies[connects_at(request)] == OperationReply::<G, D, A, M, B>::Interface(Ok(device))
}

/// Whether the attempt of state `i` is what the run so far calls for: the first one with
/// the blob of the key, or the second one after the only upgrade.
spec fn is_due<'a, G, D, A, M, B>(
    request: OperationRequest<'a>,
    states: Seq<CreateOperation<'a, G, D, A, M, B>>,
    replies: Seq<OperationReply<G, D, A, M, B>>,
    i: int,
    attempt: Attempt<'a, G, D>,
) -> bool {
    &&& is_reached(request, replies, attempt.device)
    &&& attempt.params == request.params
    &&& if attempt.upgraded {
        exists|u: int|
            0 <= u < i && #[trigger] is_upgraded_at(request, states, replies, u, attempt.blob) && (
            forall|j: int| 0 <= j < i && #[trigger] states[j] is UpgradeKey ==> j == u)
    } else {
        &&& attempt.key_id_guard == key_guard(replies)
        &&& Some(attempt.blob@) == key_blob(request, replies)
        &&& forall|j: int| 0 <= j < i ==> #[trigger] states[j] !is UpgradeKey
    }
}

/// Whether at most one of the first `n` states waits for an upgrade.
pub open spec fn upgrades_at_most_once<'a, G, D, A, M, B>(
    states: Seq<CreateOperation<'a, G, D, A, M, B>>,
    n: int,
) -> bool {
    forall|j: int, k: int|
        0 <= j < n && 0 <= k < n && #[trigger] states[j] is UpgradeKey
            && #[trigger] states[k] is UpgradeKey ==> j == k
}

/// What holds of state `i` of a run.
spec fn is_consistent<'a, G, D, A, M, B>(
    request: OperationRequest<'a>,
    states: Seq<CreateOperation<'a, G, D, A, M, B>>,
    replies: Seq<OperationReply<G, D, A, M, B>>,
    i: int,
) -> bool {
    let c = connects_at(request);
    let started = {
        &&& i > c
        &&& is_authorized(request, states, replies)
        &&& states[c] is GetInterface
    };
    match states[i] {
        CreateOperation::CheckPermission(_) => i == 0,
        CreateOperation::LoadKey(_) => i == 0,
        CreateOperation::Authorize(_) => i == 1 && request.key.domain != Domain::Blob,
        CreateOperation::GetInterface(s) => {
            &&& i == c
            &&& is_authorized(request, states, replies)
            &&& s.beginning.context == request.context()
            &&& purpose_of(request.params@) == Ok::<KeyPurpose, Error>(s.beginning.purpose)
            &&& s.key_id_guard == key_guard(replies)
            &&& Some(s.km_blob@) == key_blob(request, replies)
            &&& if request.key.domain == Domain::Blob {
                &&& s.beginning.auth_token is None
                &&& s.beginning.handler == AuthTokenHandler::<A>::NoAuthRequired
                &&& s.beginning.key_parameters is None
            } else {
                &&& replies[0] matches OperationReply::KeyEntry(Ok((_, entry)))
                &&& replies[1] matches OperationReply::Authorization(Ok(authorization))
                &&& s.beginning.auth_token == authorization.auth_token
                &&& s.beginning.handler == authorization.handler
                &&& s.beginning.key_parameters == Some(entry.key_parameters)
            }
            &&& forall|j: int| 0 <= j < i ==> #[trigger] states[j] !is UpgradeKey
        },
        CreateOperation::Begin(s) => {
            &&& started
            &&& s.beginning == states[c]->GetInterface_0.beginning
            &&& is_due(request, states, replies, i, s.attempt)
        },
        CreateOperation::Prune(s) => {
            &&& started
            &&& s.beginning == states[c]->GetInterface_0.beginning
            &&& is_due(request, states, replies, i, s.attempt)
        },
        CreateOperation::UpgradeKey(s) => {
            &&& started
            &&& s.beginning == states[c]->GetInterface_0.beginning
            &&& is_reached(request, replies, s.upgrade.device)
            &&& s.upgrade.params == request.params
            &&& s.upgrade.key_id_guard == key_guard(replies)
            &&& Some(s.upgrade.blob@) == key_blob(request, replies)
            &&& forall|j: int| 0 <= j < i ==> #[trigger] states[j] !is UpgradeKey
        },
        CreateOperation::InsertBlob(s) => {
            &&& started
            &&& s.beginning == states[c]->GetInterface_0.beginning
            &&& request.key.domain != Domain::Blob
            &&& is_reached(request, replies, s.insert.device)
            &&& states[i - 1] is UpgradeKey
            &&& replies[i - 1] == OperationReply::<G, D, A, M, B>::Upgraded(Ok(s.insert.blob))
            &&& Some(s.insert.key_id_guard) == key_guard(replies)
            &&& s.insert.component == SubComponentType::KeyBlob
            &&& s.insert.params == request.params
            &&& forall|j: int| 0 <= j < i && #[trigger] states[j] is UpgradeKey ==> j == i - 1
        },
        CreateOperation::NoteChallenge(_)
        | CreateOperation::RequestTimestamp(_)
        | CreateOperation::Open(_) => {
            &&& started
            &&& upgrades_at_most_once(states, i)
        },
        CreateOperation::Done(_) => upgrades_at_most_once(states, i),
    }
}

proof fn lemma_consistent<'a, G, D, A, M, B>(
    request: OperationRequest<'a>,
    states: Seq<CreateOperation<'a, G, D, A, M, B>>,
    replies: Seq<OperationReply<G, D, A, M, B>>,
    i: int,
)
    requires
        is_operation_run(request, states, replies),
        0 <= i < states.len(),
    ensures
        is_consistent(request, states, replies, i),
    decreases i,
{
    if i > 0 {
        lemma_consistent(request, states, replies, i - 1);
        assert(step_at(states, replies, i - 1));
        match states[i - 1] {
            CreateOperation::CheckPermission(_) => {},
            CreateOperation::LoadKey(_) => {},
            CreateOperation::Authorize(_) => {
                assert(step_at(states, replies, 0));
            },
            CreateOperation::GetInterface(_) => {},
            CreateOperation::Begin(s) => {},
            CreateOperation::Prune(s) => {},
            CreateOperation::UpgradeKey(s) => {
                if states[i] is Begin {
                    let blob = states[i]->Begin_0.attempt.blob;
                    assert(is_upgraded_at(request, states, replies, i - 1, blob));
                }
            },
            CreateOperation::InsertBlob(s) => {
                if states[i] is Begin {
                    let blob = states[i]->Begin_0.attempt.blob;
                    assert(is_upgraded_at(request, states, replies, i - 2, blob));
                }
            },
            CreateOperation::NoteChallenge(_) => {},
            CreateOperation::RequestTimestamp(_) => {},
            CreateOperation::Open(_) => {},
            CreateOperation::Done(_) => {},
        }
    }
}

/// Nothing is asked of the device, and nothing is told the client but an error, before the
/// caller was found to be allowed to use the key and, where the parameters of the key are
/// known, authorized to begin this very operation.
pub proof fn law_operation_is_authorized<'a, G, D, A, M, B>(
    request: OperationRequest<'a>,
    states: Seq<CreateOperation<'a, G, D, A, M, B>>,
    replies: Seq<OperationReply<G, D, A, M, B>>,
    i: int,
)
    requires
        is_operation_run(request, states, replies),
        0 <= i < states.len(),
        states[i] !is CheckPermission,
        states[i] !is LoadKey,
        states[i] !is Authorize,
        !(states[i] matches CreateOperation::Done(Err(_))),
    ensures
        i > 0,
        is_authorized(request, states, replies),
{
    lemma_consistent(request, states, replies, i);
    if states[i] is Done {
        assert(step_at(states, replies, i - 1));
        lemma_consistent(request, states, replies, i - 1);
    }
}

/// Authorization is asked for only once the parameters of the key have been loaded.
pub proof fn law_only_loaded_keys_are_authorized<'a, G, D, A, M, B>(
    request: OperationRequest<'a>,
    states: Seq<CreateOperation<'a, G, D, A, M, B>>,
    replies: Seq<OperationReply<G, D, A, M, B>>,
    i: int,
)
    requires
        is_operation_run(request, states, replies),
        0 <= i < states.len(),
        states[i] is Authorize,
    ensures
        request.key.domain != Domain::Blob,
        i == 1,
        replies[0] matches OperationReply::KeyEntry(Ok((_, entry)))
            && states[i]->Authorize_0.key_params == entry.key_parameters,
{
    lemma_consistent(request, states, replies, i);
    assert(step_at(states, replies, 0));
}

/// Each time a device is asked to begin the operation it is the one that was reached, and
/// it gets the purpose and the parameters that the caller gave, and the auth token that was
/// found with the authorization, if any. Unless an upgrade has been made it gets the blob
/// of the key.
pub proof fn law_begun_as_authorized<'a, G, D, A, M, B>(
    request: OperationRequest<'a>,
    states: Seq<CreateOperation<'a, G, D, A, M, B>>,
    replies: Seq<OperationReply<G, D, A, M, B>>,
    i: int,
)
    requires
        is_operation_run(request, states, replies),
        0 <= i < states.len(),
        states[i] is Begin,
    ensures
        states[i] matches CreateOperation::Begin(s) && {
            &&& purpose_of(request.params@) == Ok::<KeyPurpose, Error>(s.beginning.purpose)
            &&& s.beginning.context.params == request.params
            &&& is_reached(request, replies, s.attempt.device)
            &&& if request.key.domain == Domain::Blob {
                s.beginning.auth_token is None
            } else {
                replies[1] matches OperationReply::Authorization(Ok(authorization))
                    && s.beginning.auth_token == authorization.auth_token
            }
            &&& !s.attempt.upgraded ==> Some(s.attempt.blob@) == key_blob(request, replies)
        },
{
    lemma_consistent(request, states, replies, i);
    lemma_consistent(request, states, replies, connects_at(request));
}

/// A second try is made with the blob that the device returned from an upgrade. If the key
/// came from the database, the new blob was stored in its entry before.
pub proof fn law_begun_again_with_stored_upgrade<'a, G, D, A, M, B>(
    request: OperationRequest<'a>,
    states: Seq<CreateOperation<'a, G, D, A, M, B>>,
    replies: Seq<OperationReply<G, D, A, M, B>>,
    i: int,
)
    requires
        is_operation_run(request, states, replies),
        0 <= i < states.len(),
        states[i] matches CreateOperation::Begin(s) && s.attempt.upgraded,
    ensures
        exists|u: int|
            0 <= u < i && #[trigger] is_upgraded_at(
                request,
                states,
                replies,
                u,
                states[i]->Begin_0.attempt.blob,
            ),
{
    lemma_consistent(request, states, replies, i);
}

/// The blob of a key is upgraded at most once.
pub proof fn law_operation_key_upgraded_at_most_once<'a, G, D, A, M, B>(
    request: OperationRequest<'a>,
    states: Seq<CreateOperation<'a, G, D, A, M, B>>,
    replies: Seq<OperationReply<G, D, A, M, B>>,
)
    requires
        is_operation_run(request, states, replies),
    ensures
        upgrades_at_most_once(states, states.len() as int),
{
    let n = states.len() as int;
    lemma_consistent(request, states, replies, n - 1);
    assert forall|j: int, k: int|
        0 <= j < n && 0 <= k < n && #[trigger] states[j] is UpgradeKey
            && #[trigger] states[k] is UpgradeKey implies j == k by {
        lemma_consistent(request, states, replies, if j < k {
            k
        } else {
            j
        });
    }
}

/// An upgrade is asked for only of the blob of the key and of the device that was reached,
/// and only when the try before, or making room for it, failed for want of one.
pub proof fn law_operation_key_upgraded_on_demand<'a, G, D, A, M, B>(
    request: OperationRequest<'a>,
    states: Seq<CreateOperation<'a, G, D, A, M, B>>,
    replies: Seq<OperationReply<G, D, A, M, B>>,
    i: int,
)
    requires
        is_operation_run(request, states, replies),
        0 <= i < states.len(),
        states[i] is UpgradeKey,
    ensures
        i > 0,
        Some(states[i]->UpgradeKey_0.upgrade.blob@) == key_blob(request, replies),
        states[i]->UpgradeKey_0.upgrade.params == request.params,
        is_reached(request, replies, states[i]->UpgradeKey_0.upgrade.device),
        replies[i - 1] == OperationReply::<G, D, A, M, B>::Begun(
            Err(Error::Km(ErrorCode::KeyRequiresUpgrade)),
        ) || replies[i - 1] == OperationReply::<G, D, A, M, B>::Pruned(
            Err(Error::Km(ErrorCode::KeyRequiresUpgrade)),
        ),
{
    lemma_consistent(request, states, replies, i);
    assert(step_at(states, replies, i - 1));
}

/// Room is made only when the device has too many operations, on behalf of the caller, and
/// once it was made the very same try is repeated.
pub proof fn law_room_is_made_for_the_same_try<'a, G, D, A, M, B>(
    request: OperationRequest<'a>,
    states: Seq<CreateOperation<'a, G, D, A, M, B>>,
    replies: Seq<OperationReply<G, D, A, M, B>>,
    i: int,
)
    requires
        is_operation_run(request, states, replies),
        0 <= i < states.len(),
        states[i] is Prune,
    ensures
        i > 0,
        states[i - 1] == CreateOperation::<G, D, A, M, B>::Begin(
            BeginOperation {
                attempt: states[i]->Prune_0.attempt,
                beginning: states[i]->Prune_0.beginning,
            },
        ),
        replies[i - 1] == OperationReply::<G, D, A, M, B>::Begun(
            Err(Error::Km(ErrorCode::TooManyOperations)),
        ),
        states[i]->Prune_0.beginning.context.caller_uid == request.caller_uid,
        i < replies.len() ==> (replies[i] matches OperationReply::Pruned(Ok(_)) ==> states[i + 1]
            == states[i - 1]),
{
    lemma_consistent(request, states, replies, i);
    lemma_consistent(request, states, replies, connects_at(request));
    assert(step_at(states, replies, i - 1));
    if i < replies.len() {
        assert(step_at(states, replies, i));
    }
}

/// The device is asked to begin the operation only after it was reached, after room was
/// made, or after an upgrade: never twice in a row.
pub proof fn law_not_begun_twice_in_a_row<'a, G, D, A, M, B>(
    request: OperationRequest<'a>,
    states: Seq<CreateOperation<'a, G, D, A, M, B>>,
    replies: Seq<OperationReply<G, D, A, M, B>>,
    i: int,
)
    requires
        is_operation_run(request, states, replies),
        0 <= i < states.len(),
        states[i] is Begin,
    ensures
        i > 0,
        match replies[i - 1] {
            OperationReply::Interface(Ok(_)) => states[i - 1] is GetInterface
                && !states[i]->Begin_0.attempt.upgraded,
            OperationReply::Pruned(Ok(_)) => states[i - 1] is Prune,
            OperationReply::Upgraded(Ok(_)) => states[i - 1] is UpgradeKey
                && states[i]->Begin_0.attempt.upgraded,
            OperationReply::Inserted(Ok(_)) => states[i - 1] is InsertBlob
                && states[i]->Begin_0.attempt.upgraded,
            _ => false,
        },
{
    lemma_consistent(request, states, replies, i);
    assert(step_at(states, replies, i - 1));
}

/// The way to come by an auth token that the authorization gave, if it was asked for.
pub open spec fn authorized_handler<'a, G, D, A, M, B>(
    request: OperationRequest<'a>,
    replies: Seq<OperationReply<G, D, A, M, B>>,
) -> AuthTokenHandler<A> {
    if request.key.domain == Domain::Blob {
        AuthTokenHandler::NoAuthRequired
    } else {
        match replies[1] {
            OperationReply::Authorization(Ok(authorization)) => authorization.handler,
            _ => AuthTokenHandler::NoAuthRequired,
        }
    }
}

/// Whether state `i` hands on, to be kept, the operation `begun` that the device has begun,
/// after what the way to come by an auth token called for.
///
/// If the user has to authenticate for the operation, the enforcement rules were told of
/// its challenge, and the operation is kept with it. If a timestamp token was missing, it
/// was asked for with the auth token and the challenge, and the operation is kept with the
/// new way to come by an auth token.
pub open spec fn hands_on<'a, G, D, A, M, B>(
    request: OperationRequest<'a>,
    states: Seq<CreateOperation<'a, G, D, A, M, B>>,
    replies: Seq<OperationReply<G, D, A, M, B>>,
    i: int,
    begun: BeginResult<M>,
) -> bool {
    let handler = authorized_handler(request, replies);
    &&& states[i] matches CreateOperation::Open(o)
    &&& begun.operation == Some(o.operation.km_op)
    &&& o.operation.owner == request.caller_uid
    &&& if request.key.domain == Domain::Blob {
        o.operation.key_parameters is None
    } else {
        &&& replies[0] matches OperationReply::KeyEntry(Ok((_, entry)))
        &&& o.operation.key_parameters == Some(entry.key_parameters)
    }
    &&& o.operation.challenge == o.response.challenge
    &&& o.response.params == begun.params
    &&& match handler {
        AuthTokenHandler::OpAuthRequired => {
            &&& states[i - 1] matches CreateOperation::NoteChallenge(n)
            &&& n.challenge == begun.challenge
            &&& o.operation.challenge == Some(OperationChallenge { challenge: begun.challenge })
            &&& o.operation.auth_token_handler == handler
        },
        AuthTokenHandler::TimestampRequired(auth_token) => {
            &&& states[i - 1] matches CreateOperation::RequestTimestamp(t)
            &&& t.auth_token == auth_token
            &&& t.challenge == (OperationChallenge { challenge: begun.challenge })
            &&& replies[i - 1] == OperationReply::<G, D, A, M, B>::Timestamp(
                Ok(o.operation.auth_token_handler),
            )
            &&& o.operation.challenge is None
        },
        _ => {
            &&& states[i - 1] is Begin
            &&& o.operation.auth_token_handler == handler
            &&& o.operation.challenge is None
        },
    }
}

/// The position of the try that succeeded, in a run whose state `i` hands the operation on.
pub open spec fn begun_at<'a, G, D, A, M, B>(
    states: Seq<CreateOperation<'a, G, D, A, M, B>>,
    i: int,
) -> int {
    if states[i - 1] is Begin {
        i - 1
    } else {
        i - 2
    }
}

/// The operation that is kept is the one that the device has begun. The way to come by an
/// auth token decides on what happens before, as `hands_on` says.
pub proof fn law_begun_operation_is_kept<'a, G, D, A, M, B>(
    request: OperationRequest<'a>,
    states: Seq<CreateOperation<'a, G, D, A, M, B>>,
    replies: Seq<OperationReply<G, D, A, M, B>>,
    i: int,
)
    requires
        is_operation_run(request, states, replies),
        0 <= i < states.len(),
        states[i] is Open,
    ensures
        i > 1,
        states[begun_at(states, i)] is Begin,
        replies[begun_at(states, i)] matches OperationReply::Begun(Ok(begun)) && hands_on(
            request,
            states,
            replies,
            i,
            begun,
        ),
{
    lemma_consistent(request, states, replies, i);
    lemma_consistent(request, states, replies, connects_at(request));
    assert(step_at(states, replies, i - 1));
    lemma_consistent(request, states, replies, i - 1);
    if !(states[i - 1] is Begin) {
        assert(step_at(states, replies, i - 2));
        lemma_consistent(request, states, replies, i - 2);
    }
}

/// A client that gets an operation gets the interface of the one that is kept, the
/// challenge exactly if the user has to authenticate for the operation, and the parameters
/// that the device returned, if any.
pub proof fn law_response_tells_of_begun_operation<'a, G, D, A, M, B>(
    request: OperationRequest<'a>,
    states: Seq<CreateOperation<'a, G, D, A, M, B>>,
    replies: Seq<OperationReply<G, D, A, M, B>>,
    i: int,
)
    requires
        is_operation_run(request, states, replies),
        0 <= i < states.len(),
        states[i] matches CreateOperation::Done(Ok(_)),
    ensures
        i > 2,
        states[i - 1] is Open,
        states[i] matches CreateOperation::Done(Ok(response)) && {
            &&& replies[begun_at(states, i - 1)] matches OperationReply::Begun(Ok(begun))
            &&& hands_on(request, states, replies, i - 1, begun)
            &&& replies[i - 1] matches OperationReply::Opened(Ok(interface))
            &&& response.i_operation == Some(interface)
            &&& response.operation_challenge == if authorized_handler(
                request,
                replies,
            ) is OpAuthRequired {
                Some(OperationChallenge { challenge: begun.challenge })
            } else {
                None
            }
            &&& response.parameters == if begun.params@.len() == 0 {
                None
            } else {
                Some(begun.params)
            }
        },
{
    lemma_consistent(request, states, replies, i);
    assert(step_at(states, replies, i - 1));
    law_begun_operation_is_kept(request, states, replies, i - 1);
}

/// A request that ends without an operation ends with the error of its last reply, unless
/// the descriptor or the entry of the key has no blob, the parameters have no purpose, or
/// the device has begun the operation but does not have it.
///
/// Two errors of the device do not end a request: that it has too many operations and,
/// upon the first try, that the blob needs an upgrade.
pub proof fn law_operation_failure<'a, G, D, A, M, B>(
    request: OperationRequest<'a>,
    states: Seq<CreateOperation<'a, G, D, A, M, B>>,
    replies: Seq<OperationReply<G, D, A, M, B>>,
    i: int,
    e: Error,
)
    requires
        is_operation_run(request, states, replies),
        0 <= i < states.len(),
        states[i] == CreateOperation::<G, D, A, M, B>::Done(Err(e)),
    ensures
        i > 0,
        match replies[i - 1] {
            OperationReply::Permission(Ok(_)) => if request.key.blob is None {
                e == Error::Sys
            } else {
                purpose_of(request.params@) == Err::<KeyPurpose, Error>(e)
            },
            OperationReply::KeyEntry(Ok((_, entry))) => if entry.km_blob is None {
                e == Error::Sys
            } else {
                purpose_of(request.params@) == Err::<KeyPurpose, Error>(e)
            },
            OperationReply::Begun(Ok(begun)) => {
                &&& begun.operation is None
                &&& authorized_handler(request, replies) !is OpAuthRequired
                &&& authorized_handler(request, replies) !is TimestampRequired
                &&& e == Error::Sys
            },
            OperationReply::ChallengeNoted => {
                &&& states[i - 1] matches CreateOperation::NoteChallenge(s)
                &&& s.opening.operation is None
                &&& e == Error::Sys
            },
            OperationReply::Timestamp(Ok(_)) => {
                &&& states[i - 1] matches CreateOperation::RequestTimestamp(s)
                &&& s.opening.operation is None
                &&& e == Error::Sys
            },
            OperationReply::Permission(Err(r)) => r == e,
            OperationReply::KeyEntry(Err(r)) => r == e,
            OperationReply::Authorization(r) => r is Err && r->Err_0 == e,
            OperationReply::Interface(r) => r is Err && r->Err_0 == e,
            OperationReply::Begun(Err(r)) => {
                &&& r == e
                &&& e != Error::Km(ErrorCode::TooManyOperations)
                &&& e == Error::Km(ErrorCode::KeyRequiresUpgrade) ==> {
                    &&& states[i - 1] matches CreateOperation::Begin(s)
                    &&& s.attempt.upgraded
                }
            },
            OperationReply::Pruned(r) => {
                &&& r is Err && r->Err_0 == e
                &&& e == Error::Km(ErrorCode::KeyRequiresUpgrade) ==> {
                    &&& states[i - 1] matches CreateOperation::Prune(s)
                    &&& s.attempt.upgraded
                }
            },
            OperationReply::Upgraded(r) => r is Err && r->Err_0 == e,
            OperationReply::Inserted(r) => r is Err && r->Err_0 == e,
            OperationReply::Timestamp(Err(r)) => r == e,
            OperationReply::Opened(r) => r is Err && r->Err_0 == e,
        },
{
    lemma_consistent(request, states, replies, i);
    assert(step_at(states, replies, i - 1));
    lemma_consistent(request, states, replies, i - 1);
    if i - 1 > connects_at(request) {
        lemma_consistent(request, states, replies, connects_at(request));
    }
}

/// An operation is authorized and begun with the purpose that its parameters give: if a
/// parameter is the first that is tagged as a purpose, and its value is one, then that very
/// purpose is what the enforcement rules and the device get.
pub proof fn law_operation_has_the_given_purpose<'a, G, D, A, M, B>(
    request: OperationRequest<'a>,
    states: Seq<CreateOperation<'a, G, D, A, M, B>>,
    replies: Seq<OperationReply<G, D, A, M, B>>,
    i: int,
    k: int,
    purpose: KeyPurpose,
)
    requires
        is_operation_run(request, states, replies),
        0 <= i < states.len(),
        0 <= k < request.params@.len(),
        request.params@[k].tag == Tag::Purpose,
        request.params@[k].value == KeyParameterValue::KeyPurpose(purpose),
        forall|j: int| 0 <= j < k ==> (#[trigger] request.params@[j]).tag != Tag::Purpose,
    ensures
        states[i] matches CreateOperation::Authorize(s) ==> s.purpose == purpose,
        states[i] matches CreateOperation::GetInterface(s) ==> s.beginning.purpose == purpose,
        states[i] matches CreateOperation::Begin(s) ==> s.beginning.purpose == purpose,
{
    lemma_consistent(request, states, replies, i);
    lemma_first_tagged(request.params@, Tag::Purpose);
    if states[i] is Authorize {
        assert(step_at(states, replies, 0));
    }
    if states[i] is Begin {
        lemma_consistent(request, states, replies, connects_at(request));
    }
}

/// Once the key may be used and its blob is there, a request goes on exactly if the first
/// parameter that is tagged as a purpose has one for its value. Else it fails as an invalid
/// argument. Without a blob it fails before that.
pub proof fn law_operation_needs_purpose<'a, G, D, A, M, B>(
    request: OperationRequest<'a>,
    states: Seq<CreateOperation<'a, G, D, A, M, B>>,
    replies: Seq<OperationReply<G, D, A, M, B>>,
    i: int,
)
    requires
        is_operation_run(request, states, replies),
        0 <= i < replies.len(),
        (replies[i] matches OperationReply::Permission(Ok(_))) || (
        replies[i] matches OperationReply::KeyEntry(Ok(_))),
    ensures
        i == 0,
        key_blob(request, replies) is None <==> ends_with(states[i + 1], Error::Sys),
        (states[i + 1] is GetInterface || states[i + 1] is Authorize) <==> (key_blob(
            request,
            replies,
        ) is Some && (exists|k: int|
            {
                &&& 0 <= k < request.params@.len()
                &&& (#[trigger] request.params@[k]).tag == Tag::Purpose
                &&& request.params@[k].value is KeyPurpose
                &&& forall|j: int|
                    0 <= j < k ==> (#[trigger] request.params@[j]).tag != Tag::Purpose
            })),
        (key_blob(request, replies) is Some && states[i + 1] is Done) ==> ends_with(
            states[i + 1],
            Error::Km(ErrorCode::InvalidArgument),
        ),
        states[i + 1] is GetInterface ==> request.key.domain == Domain::Blob,
        states[i + 1] is Authorize ==> request.key.domain != Domain::Blob,
        states[i + 1] is GetInterface || states[i + 1] is Authorize || states[i + 1] is Done,
{
    lemma_consistent(request, states, replies, i);
    assert(step_at(states, replies, i));
    lemma_first_tagged(request.params@, Tag::Purpose);
    law_first_where(request.params@, has_tag(Tag::Purpose));
}

/// The enforcement rules get what the operation is about: the purpose, the parameters of the
/// key as they were found and all the parameters of the operation, in order and unchanged,
/// each as one of the security level. What was found of the key is kept meanwhile.
pub proof fn law_authorized_with_all_parameters<'a, G, D, A, M, B>(
    request: OperationRequest<'a>,
    states: Seq<CreateOperation<'a, G, D, A, M, B>>,
    replies: Seq<OperationReply<G, D, A, M, B>>,
    i: int,
)
    requires
        is_operation_run(request, states, replies),
        0 <= i < states.len(),
        states[i] is Authorize,
    ensures
        i == 1,
        states[i] matches CreateOperation::Authorize(s) && {
            &&& s.security_level == request.level.security_level
            &&& replies[0] matches OperationReply::KeyEntry(Ok((key_id_guard, entry)))
            &&& s.key_params == entry.key_parameters
            &&& s.key_id_guard == key_id_guard
            &&& entry.km_blob == Some(s.km_blob)
            &&& s.op_params@.len() == request.params@.len()
            &&& forall|j: int|
                0 <= j < request.params@.len() ==> {
                    let given = request.params@[j];
                    &&& (#[trigger] s.op_params@[j]).security_level == request.level.security_level
                    &&& s.op_params@[j].value matches KsKeyParamValue::Parameter(p)
                    &&& p.tag == given.tag
                    &&& match (p.value, given.value) {
                        (KeyParameterValue::Algorithm(a), KeyParameterValue::Algorithm(b)) => a
                            == b,
                        (KeyParameterValue::KeyPurpose(a), KeyParameterValue::KeyPurpose(b)) => a
                            == b,
                        (KeyParameterValue::Blob(a), KeyParameterValue::Blob(b)) => a@ == b@,
                        (KeyParameterValue::Scalar(c, a), KeyParameterValue::Scalar(d, b)) => c == d
                            && a == b,
                        _ => false,
                    }
                }
        },
{
    lemma_consistent(request, states, replies, i);
    assert(step_at(states, replies, 0));
    let s = states[i]->Authorize_0;
    assert(params_view(s.op_params@).len() == request.params@.len());
    assert forall|j: int| 0 <= j < request.params@.len() implies {
        let given = request.params@[j];
        &&& (#[trigger] s.op_params@[j]).security_level == request.level.security_level
        &&& s.op_params@[j].value matches KsKeyParamValue::Parameter(p)
        &&& p.tag == given.tag
        &&& p.value@ == given.value@
    } by {
        assert(params_view(s.op_params@)[j] == s.op_params@[j]@);
        assert(enforced_at(request.params@, request.level.security_level)[j].value
            == KsKeyParamValueView::Parameter(request.params@[j]@));
    }
}

/// How a request begins: for a key of the blob domain with the check of the permission to use
/// it, for any other with a search of the database, as the caller named the key, among the
/// keys of clients and on behalf of the caller, who must have the permission to use it.
pub proof fn law_operation_begins<'a, G, D, A, M, B>(
    level: &KeystoreSecurityLevel,
    key: &'a KeyDescriptor,
    operation_parameters: &'a [KeyParameter],
    forced: bool,
    caller_uid: u32,
    first: CreateOperation<'a, G, D, A, M, B>,
)
    requires
        call_ensures(
            KeystoreSecurityLevel::create_operation::<G, D, A, M, B>,
            (level, key, operation_parameters, forced, caller_uid),
            first,
        ),
    ensures
        first == (OperationRequest {
            level: *level,
            key,
            params: operation_parameters,
            caller_uid,
        }).first::<G, D, A, M, B>(),
        if key.domain == Domain::Blob {
            first matches CreateOperation::CheckPermission(s) && {
                &&& s.perm == KeyPerm::Use
                &&& s.key == key
                &&& s.context.level == *level
                &&& s.context.params == operation_parameters
                &&& s.context.caller_uid == caller_uid
            }
        } else {
            first matches CreateOperation::LoadKey(s) && {
                &&& s.lookup.key == key
                &&& s.lookup.key_type == KeyType::Client
                &&& s.lookup.load_bits == KeyEntryLoadBits::Km
                &&& s.lookup.caller_uid == caller_uid
                &&& s.lookup.perm == KeyPerm::Use
                &&& s.context.level == *level
                &&& s.context.params == operation_parameters
                &&& s.context.caller_uid == caller_uid
            }
        },
{
}

/// The entry of a key that came from the database is held until the first try is over or the
/// upgraded blob is stored, and not afterwards.
pub proof fn law_entry_is_held_for_the_first_try<'a, G, D, A, M, B>(
    request: OperationRequest<'a>,
    states: Seq<CreateOperation<'a, G, D, A, M, B>>,
    replies: Seq<OperationReply<G, D, A, M, B>>,
    i: int,
)
    requires
        is_operation_run(request, states, replies),
        0 <= i < states.len(),
    ensures
        states[i] matches CreateOperation::Begin(s) ==> {
            &&& s.attempt.upgraded <==> exists|j: int|
                0 <= j < i && #[trigger] states[j] is UpgradeKey
            &&& !s.attempt.upgraded ==> s.attempt.key_id_guard == key_guard(replies)
        },
        states[i] matches CreateOperation::UpgradeKey(s) ==> s.upgrade.key_id_guard == key_guard(
            replies,
        ),
        states[i] matches CreateOperation::InsertBlob(s) ==> Some(s.insert.key_id_guard)
            == key_guard(replies),
{
    lemma_consistent(request, states, replies, i);
}

/// A request goes on as each reply calls for.
///
/// The authorization is followed by the device, and that by the first try. When the device
/// has too many operations, room is made, and the try repeated. When it demands an upgrade
/// for the first time, that is asked for, stored if the key came from the database, and
/// followed by a try. Once the operation has begun, the way to come by an auth token decides:
/// the challenge is noted, a timestamp token is asked for, or neither. Then the operation is
/// kept, if it is there. Any other error ends the request at once, and is what the caller
/// gets.
pub proof fn law_operation_goes_on<'a, G, D, A, M, B>(
    request: OperationRequest<'a>,
    states: Seq<CreateOperation<'a, G, D, A, M, B>>,
    replies: Seq<OperationReply<G, D, A, M, B>>,
    i: int,
)
    requires
        is_operation_run(request, states, replies),
        0 <= i < replies.len(),
    ensures
        match replies[i] {
            OperationReply::Permission(Ok(_)) => i == 0,
            OperationReply::KeyEntry(Ok(_)) => i == 0,
            OperationReply::Authorization(Ok(_)) => states[i + 1] is GetInterface,
            OperationReply::Interface(Ok(device)) => states[i + 1] matches CreateOperation::Begin(s)
                && s.attempt.device == device,
            OperationReply::Begun(Ok(begun)) => match authorized_handler(request, replies) {
                AuthTokenHandler::OpAuthRequired => {
                    &&& states[i + 1] matches CreateOperation::NoteChallenge(s)
                    &&& s.challenge == begun.challenge
                },
                AuthTokenHandler::TimestampRequired(auth_token) => {
                    &&& states[i + 1] matches CreateOperation::RequestTimestamp(s)
                    &&& s.auth_token == auth_token
                    &&& s.challenge.challenge == begun.challenge
                },
                _ => if begun.operation is Some {
                    states[i + 1] is Open
                } else {
                    ends_with(states[i + 1], Error::Sys)
                },
            },
            OperationReply::Begun(Err(e)) => if e == Error::Km(ErrorCode::TooManyOperations) {
                states[i + 1] is Prune
            } else if e == Error::Km(ErrorCode::KeyRequiresUpgrade) && (forall|j: int|
                0 <= j < i ==> #[trigger] states[j] !is UpgradeKey) {
                states[i + 1] is UpgradeKey
            } else {
                ends_with(states[i + 1], e)
            },
            OperationReply::Pruned(Ok(_)) => states[i + 1] is Begin,
            OperationReply::Pruned(Err(e)) => if e == Error::Km(ErrorCode::KeyRequiresUpgrade) && (
            forall|j: int| 0 <= j < i ==> #[trigger] states[j] !is UpgradeKey) {
                states[i + 1] is UpgradeKey
            } else {
                ends_with(states[i + 1], e)
            },
            OperationReply::Upgraded(Ok(blob)) => if request.key.domain == Domain::Blob {
                states[i + 1] matches CreateOperation::Begin(s) && s.attempt.blob == blob
            } else {
                states[i + 1] matches CreateOperation::InsertBlob(s) && s.insert.blob == blob
            },
            OperationReply::Inserted(Ok(_)) => {
                &&& states[i + 1] matches CreateOperation::Begin(s)
                &&& replies[i - 1] == OperationReply::<G, D, A, M, B>::Upgraded(Ok(s.attempt.blob))
            },
            OperationReply::ChallengeNoted => {
                &&& replies[i - 1] matches OperationReply::Begun(Ok(begun))
                &&& if begun.operation is Some {
                    states[i + 1] is Open
                } else {
                    ends_with(states[i + 1], Error::Sys)
                }
            },
            OperationReply::Timestamp(Ok(_)) => {
                &&& replies[i - 1] matches OperationReply::Begun(Ok(begun))
                &&& if begun.operation is Some {
                    states[i + 1] is Open
                } else {
                    ends_with(states[i + 1], Error::Sys)
                }
            },
            OperationReply::Opened(Ok(_)) => states[i + 1] matches CreateOperation::Done(Ok(_)),
            OperationReply::Permission(Err(e)) => ends_with(states[i + 1], e),
            OperationReply::KeyEntry(Err(e)) => ends_with(states[i + 1], e),
            OperationReply::Authorization(Err(e)) => ends_with(states[i + 1], e),
            OperationReply::Interface(Err(e)) => ends_with(states[i + 1], e),
            OperationReply::Upgraded(Err(e)) => ends_with(states[i + 1], e),
            OperationReply::Inserted(Err(e)) => ends_with(states[i + 1], e),
            OperationReply::Timestamp(Err(e)) => ends_with(states[i + 1], e),
            OperationReply::Opened(Err(e)) => ends_with(states[i + 1], e),
        },
{
    lemma_consistent(request, states, replies, i);
    assert(step_at(states, replies, i));
    if i > 0 {
        lemma_consistent(request, states, replies, i - 1);
        assert(step_at(states, replies, i - 1));
    }
    if i > connects_at(request) && states[i] !is Done {
        lemma_consistent(request, states, replies, connects_at(request));
    }
}

/// Whether a request has come to the error `e`.
pub open spec fn ends_with<'a, G, D, A, M, B>(
    state: CreateOperation<'a, G, D, A, M, B>,
    e: Error,
) -> bool {
    state matches CreateOperation::Done(Err(r)) && r == e
}

/// The functions that a request consists of, until the operation has begun, take it along a
/// run.
pub proof fn law_beginning_is_a_run<'a, G, D, A, M, B>(
    check: CheckUse<'a>,
    allowed: Result<(), Error>,
    load: LoadKey<'a>,
    loaded: Result<(G, KeyEntry), Error>,
    authorize: AuthorizeCreate<'a, G>,
    authorized: Result<Authorization<A>, Error>,
    connect: ConnectOperation<'a, G, A>,
    connected: Result<D, Error>,
    begin: BeginOperation<'a, G, D, A>,
    begun: Result<BeginResult<M>, Error>,
    next: CreateOperation<'a, G, D, A, M, B>,
)
    ensures
        call_ensures(CheckUse::<'a>::resume::<G, D, A, M, B>, (check, allowed), next)
            ==> CreateOperation::<'a, G, D, A, M, B>::CheckPermission(check).step(
            OperationReply::Permission(allowed),
            next,
        ),
        call_ensures(LoadKey::<'a>::resume::<G, D, A, M, B>, (load, loaded), next)
            ==> CreateOperation::<'a, G, D, A, M, B>::LoadKey(load).step(
            OperationReply::KeyEntry(loaded),
            next,
        ),
        call_ensures(
            AuthorizeCreate::<'a, G>::resume::<D, A, M, B>,
            (authorize, authorized),
            next,
        ) ==> CreateOperation::<'a, G, D, A, M, B>::Authorize(authorize).step(
            OperationReply::Authorization(authorized),
            next,
        ),
        call_ensures(ConnectOperation::<'a, G, A>::resume::<D, M, B>, (connect, connected), next)
            ==> CreateOperation::<'a, G, D, A, M, B>::GetInterface(connect).step(
            OperationReply::Interface(connected),
            next,
        ),
        call_ensures(BeginOperation::<'a, G, D, A>::resume::<M, B>, (begin, begun), next)
            ==> CreateOperation::<'a, G, D, A, M, B>::Begin(begin).step(
            OperationReply::Begun(begun),
            next,
        ),
{
}

/// The functions that make room for an operation, upgrade its key and open it take a request
/// along a run.
pub proof fn law_opening_is_a_run<'a, G, D, A, M, B>(
    prune: PruneOperations<'a, G, D, A>,
    upgrade: UpgradeOperationKey<'a, G, D, A>,
    upgraded: Result<Vec<u8>, Error>,
    insert: InsertOperationKey<'a, G, D, A>,
    done: Result<(), Error>,
    note: NoteChallenge<M>,
    request: RequestTimestamp<M>,
    handler: Result<AuthTokenHandler<A>, Error>,
    open: OpenOperation<A, M>,
    opened: Result<B, Error>,
    next: CreateOperation<'a, G, D, A, M, B>,
)
    ensures
        call_ensures(PruneOperations::<'a, G, D, A>::resume::<M, B>, (prune, done), next)
            ==> CreateOperation::<'a, G, D, A, M, B>::Prune(prune).step(
            OperationReply::Pruned(done),
            next,
        ),
        call_ensures(UpgradeOperationKey::<'a, G, D, A>::resume::<M, B>, (upgrade, upgraded), next)
            ==> CreateOperation::<'a, G, D, A, M, B>::UpgradeKey(upgrade).step(
            OperationReply::Upgraded(upgraded),
            next,
        ),
        call_ensures(InsertOperationKey::<'a, G, D, A>::resume::<M, B>, (insert, done), next)
            ==> CreateOperation::<'a, G, D, A, M, B>::InsertBlob(insert).step(
            OperationReply::Inserted(done),
            next,
        ),
        call_ensures(NoteChallenge::<M>::resume::<'a, G, D, A, B>, (note,), next)
            ==> CreateOperation::<'a, G, D, A, M, B>::NoteChallenge(note).step(
            OperationReply::ChallengeNoted,
            next,
        ),
        call_ensures(RequestTimestamp::<M>::resume::<'a, G, D, A, B>, (request, handler), next)
            ==> CreateOperation::<'a, G, D, A, M, B>::RequestTimestamp(request).step(
            OperationReply::Timestamp(handler),
            next,
        ),
        call_ensures(
            PendingResponse::resume::<'a, G, D, A, M, B>,
            (open.response, opened),
            next,
        ) ==> CreateOperation::<'a, G, D, A, M, B>::Open(open).step(
            OperationReply::Opened(opened),
            next,
        ),
{
}

} // verus!
