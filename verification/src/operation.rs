//! Operations and the authorization that they need.

use crate::types::{HardwareAuthenticatorType, KeyParameter, KsKeyParam};
use vstd::prelude::*;

verus! {

/// The proof that a user has authenticated.
#[derive(Debug, PartialEq, Eq)]
pub struct HardwareAuthToken {
    pub challenge: i64,
    pub user_id: i64,
    pub authenticator_id: i64,
    pub authenticator_type: HardwareAuthenticatorType,
    pub timestamp_ms: i64,
    pub mac: Vec<u8>,
}

/// How an operation comes by the auth token that it may need. `A` stands for the ways
/// that no decision depends on.
#[derive(Debug, PartialEq, Eq)]
pub enum AuthTokenHandler<A> {
    /// The operation needs none.
    NoAuthRequired,
    /// The user has to authenticate for this very operation.
    OpAuthRequired,
    /// The token is there. What it lacks is a timestamp token for this operation.
    TimestampRequired(HardwareAuthToken),
    /// Any other way.
    Other(A),
}

/// The permission to begin an operation.
#[derive(Debug, PartialEq, Eq)]
pub struct Authorization<A> {
    pub handler: AuthTokenHandler<A>,
    /// The auth token that the handler has already.
    pub auth_token: Option<HardwareAuthToken>,
}

/// The challenge that an authentication for one operation has to answer.
#[derive(Clone, Copy, Debug, PartialEq, Eq, Structural)]
pub struct OperationChallenge {
    pub challenge: i64,
}

/// What the device returns for an operation that it has begun. `M` is the operation.
#[derive(Debug, PartialEq, Eq)]
pub struct BeginResult<M> {
    pub challenge: i64,
    pub params: Vec<KeyParameter>,
    /// The operation. It should be there, as the device said that it has begun.
    pub operation: Option<M>,
}

/// What Keystore keeps of an operation.
#[derive(Debug, PartialEq, Eq)]
pub struct NewOperation<A, M> {
    pub km_op: M,
    pub owner: u32,
    pub auth_token_handler: AuthTokenHandler<A>,
    /// The parameters of the key, if it came from the database.
    pub key_parameters: Option<Vec<KsKeyParam>>,
    pub challenge: Option<OperationChallenge>,
}

/// What a client gets for an operation that has begun. `B` is its interface.
#[derive(Debug, PartialEq, Eq)]
pub struct CreateOperationResponse<B> {
    pub i_operation: Option<B>,
    pub operation_challenge: Option<OperationChallenge>,
    pub parameters: Option<Vec<KeyParameter>>,
}

} // verus!
