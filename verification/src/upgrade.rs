//! Using a key blob that the device may want upgraded first.

use crate::process::{is_run, step_at, Process};
use crate::security_level::KeystoreSecurityLevel;
use crate::types::{Error, ErrorCode, KeyParameter};
use vstd::prelude::*;

verus! {

/// The part of a key entry that a blob is stored as.
#[derive(Clone, Copy, Debug, PartialEq, Eq, Structural)]
pub enum SubComponentType {
    KeyBlob,
}

/// Waits for the result of a try at something with the key blob `blob`.
#[derive(Debug, PartialEq, Eq)]
pub struct Attempt<'a, G, D> {
    /// The device that the blob belongs to.
    pub device: D,
    /// Holds the database entry that the blob came from, if it came from one.
    pub key_id_guard: Option<G>,
    pub blob: Vec<u8>,
    pub params: &'a [KeyParameter],
    /// Whether `blob` is the result of an upgrade.
    pub upgraded: bool,
}

/// Waits for `device` to upgrade `blob`, with the parameters `params`.
#[derive(Debug, PartialEq, Eq)]
pub struct UpgradeKey<'a, G, D> {
    pub device: D,
    pub key_id_guard: Option<G>,
    pub blob: Vec<u8>,
    pub params: &'a [KeyParameter],
}

/// Waits for the database to put `blob` in the place of the component of the key that
/// `key_id_guard` holds.
#[derive(Debug, PartialEq, Eq)]
pub struct InsertBlob<'a, G, D> {
    pub device: D,
    pub key_id_guard: G,
    pub component: SubComponentType,
    pub blob: Vec<u8>,
    pub params: &'a [KeyParameter],
}

/// Tries something with a key blob and, where the device asks for it, upgrades the blob
/// and tries once more. `T` is what a try that succeeds yields.
///
/// When it is done it has that and, if the blob was upgraded, the new blob.
#[derive(Debug, PartialEq, Eq)]
pub enum Upgrade<'a, G, D, T> {
    Attempt(Attempt<'a, G, D>),
    UpgradeKey(UpgradeKey<'a, G, D>),
    InsertBlob(InsertBlob<'a, G, D>),
    Done(Result<(T, Option<Vec<u8>>), Error>),
}

/// What an `Upgrade` can be answered.
pub enum UpgradeReply<T> {
    Attempted(Result<T, Error>),
    Upgraded(Result<Vec<u8>, Error>),
    Inserted(Result<(), Error>),
}

impl<'a, G, D> Attempt<'a, G, D> {
    /// What follows a try: an upgrade, if this was the first try and the device refused
    /// it for that; else the end.
    pub open spec fn next<T>(self, result: Result<T, Error>) -> Upgrade<'a, G, D, T> {
        match result {
            Ok(value) => Upgrade::Done(
                Ok((value, if self.upgraded { Some(self.blob) } else { None })),
            ),
            Err(e) => if e == Error::Km(ErrorCode::KeyRequiresUpgrade) && !self.upgraded {
                Upgrade::UpgradeKey(
                    UpgradeKey {
                        device: self.device,
                        key_id_guard: self.key_id_guard,
                        blob: self.blob,
                        params: self.params,
                    },
                )
            } else {
                Upgrade::Done(Err(e))
            },
        }
    }

    /// Takes the result of the try.
    pub fn resume<T>(self, result: Result<T, Error>) -> (next: Upgrade<'a, G, D, T>)
        ensures
            next == self.next(result),
    {
        let upgraded = self.upgraded;
        match result {
            Err(Error::Km(ErrorCode::KeyRequiresUpgrade)) if !upgraded => Upgrade::UpgradeKey(
                UpgradeKey {
                    device: self.device,
                    key_id_guard: self.key_id_guard,
                    blob: self.blob,
                    params: self.params,
                },
            ),
            Err(e) => Upgrade::Done(Err(e)),
            Ok(value) => Upgrade::Done(
                Ok((value, if upgraded { Some(self.blob) } else { None })),
            ),
        }
    }
}

impl<'a, G, D> UpgradeKey<'a, G, D> {
    /// What follows the answer of the device: the new blob is stored before it is used,
    /// unless it belongs to no entry of the database.
    pub open spec fn next<T>(self, result: Result<Vec<u8>, Error>) -> Upgrade<'a, G, D, T> {
        match (result, self.key_id_guard) {
            (Err(e), _) => Upgrade::Done(Err(e)),
            (Ok(blob), Some(key_id_guard)) => Upgrade::InsertBlob(
                InsertBlob {
                    device: self.device,
                    key_id_guard,
                    component: SubComponentType::KeyBlob,
                    blob,
                    params: self.params,
                },
            ),
            (Ok(blob), None) => Upgrade::Attempt(
                Attempt {
                    device: self.device,
                    key_id_guard: None,
                    blob,
                    params: self.params,
                    upgraded: true,
                },
            ),
        }
    }

    /// Takes the answer of the device.
    pub fn resume<T>(self, result: Result<Vec<u8>, Error>) -> (next: Upgrade<'a, G, D, T>)
        ensures
            next == self.next::<T>(result),
    {
        match result {
            Err(e) => Upgrade::Done(Err(e)),
            Ok(blob) => match self.key_id_guard {
                Some(key_id_guard) => Upgrade::InsertBlob(
                    InsertBlob {
                        device: self.device,
                        key_id_guard,
                        component: SubComponentType::KeyBlob,
                        blob,
                        params: self.params,
                    },
                ),
                None => Upgrade::Attempt(
                    Attempt {
                        device: self.device,
                        key_id_guard: None,
                        blob,
                        params: self.params,
                        upgraded: true,
                    },
                ),
            },
        }
    }
}

impl<'a, G, D> InsertBlob<'a, G, D> {
    /// What follows the answer of the database: the second try. The entry is let go.
    pub open spec fn next<T>(self, result: Result<(), Error>) -> Upgrade<'a, G, D, T> {
        match result {
            Err(e) => Upgrade::Done(Err(e)),
            Ok(_) => Upgrade::Attempt(
                Attempt {
                    device: self.device,
                    key_id_guard: None,
                    blob: self.blob,
                    params: self.params,
                    upgraded: true,
                },
            ),
        }
    }

    /// Takes the answer of the database.
    pub fn resume<T>(self, result: Result<(), Error>) -> (next: Upgrade<'a, G, D, T>)
        ensures
            next == self.next::<T>(result),
    {
        match result {
            Err(e) => Upgrade::Done(Err(e)),
            Ok(_) => Upgrade::Attempt(
                Attempt {
                    device: self.device,
                    key_id_guard: None,
                    blob: self.blob,
                    params: self.params,
                    upgraded: true,
                },
            ),
        }
    }
}

impl<'a, G, D, T> Process for Upgrade<'a, G, D, T> {
    type Reply = UpgradeReply<T>;

    open spec fn step(self, reply: UpgradeReply<T>, next: Self) -> bool {
        match (self, reply) {
            (Upgrade::Attempt(s), UpgradeReply::Attempted(r)) => next == s.next(r),
            (Upgrade::UpgradeKey(s), UpgradeReply::Upgraded(r)) => next == s.next::<T>(r),
            (Upgrade::InsertBlob(s), UpgradeReply::Inserted(r)) => next == s.next::<T>(r),
            _ => false,
        }
    }
}

impl KeystoreSecurityLevel {
    /// Begins to use the key blob `blob` of the device. `key_id_guard` holds the entry of
    /// the database that the blob came from, if any; `params` are those that an upgrade
    /// would get.
    pub fn upgrade_keyblob_if_required_with<'a, G, D>(
        &self,
        device: D,
        key_id_guard: Option<G>,
        blob: Vec<u8>,
        params: &'a [KeyParameter],
    ) -> (r: Attempt<'a, G, D>)
        ensures
            r == (Attempt { device, key_id_guard, blob, params, upgraded: false }),
    {
        Attempt { device, key_id_guard, blob, params, upgraded: false }
    }
}

/// Whether a process that starts with the first try `first` passes through `states` as it
/// gets `replies`.
pub open spec fn is_upgrade_run<'a, G, D, T>(
    first: Attempt<'a, G, D>,
    states: Seq<Upgrade<'a, G, D, T>>,
    replies: Seq<UpgradeReply<T>>,
) -> bool {
    &&& !first.upgraded
    &&& is_run(states, replies)
    &&& states[0] == Upgrade::<G, D, T>::Attempt(first)
}

/// Every state of a run, by its position and by what was answered before.
proof fn lemma_upgrade_states<'a, G, D, T>(
    first: Attempt<'a, G, D>,
    states: Seq<Upgrade<'a, G, D, T>>,
    replies: Seq<UpgradeReply<T>>,
)
    requires
        is_upgrade_run(first, states, replies),
    ensures
        replies.len() <= 4,
        replies.len() >= 1 ==> step_at(states, replies, 0),
        replies.len() >= 2 ==> step_at(states, replies, 1),
        replies.len() >= 3 ==> step_at(states, replies, 2),
        replies.len() >= 4 ==> step_at(states, replies, 3),
{
    assert(replies.len() >= 1 ==> step_at(states, replies, 0));
    assert(replies.len() >= 2 ==> step_at(states, replies, 1));
    assert(replies.len() >= 3 ==> step_at(states, replies, 2));
    assert(replies.len() >= 4 ==> step_at(states, replies, 3));
    assert(replies.len() >= 5 ==> step_at(states, replies, 4));
}

/// The blob is upgraded at most once, and it is tried at most twice: a run has at most
/// one state that waits for an upgrade and one that waits for a try after the first.
pub proof fn law_upgraded_at_most_once<'a, G, D, T>(
    first: Attempt<'a, G, D>,
    states: Seq<Upgrade<'a, G, D, T>>,
    replies: Seq<UpgradeReply<T>>,
    i: int,
    j: int,
)
    requires
        is_upgrade_run(first, states, replies),
        0 < i < states.len(),
        0 < j < states.len(),
    ensures
        states[i] is UpgradeKey && states[j] is UpgradeKey ==> i == j,
        states[i] is Attempt && states[j] is Attempt ==> i == j,
{
    lemma_upgrade_states(first, states, replies);
}

/// An upgrade is asked for only after the device refused the first try for want of one,
/// and it is asked for the blob of the first try.
pub proof fn law_upgraded_on_demand<'a, G, D, T>(
    first: Attempt<'a, G, D>,
    states: Seq<Upgrade<'a, G, D, T>>,
    replies: Seq<UpgradeReply<T>>,
    i: int,
)
    requires
        is_upgrade_run(first, states, replies),
        0 <= i < states.len(),
        states[i] is UpgradeKey,
    ensures
        i == 1,
        replies[0] == UpgradeReply::<T>::Attempted(Err(Error::Km(ErrorCode::KeyRequiresUpgrade))),
        states[i] == Upgrade::<G, D, T>::UpgradeKey(
            UpgradeKey {
                device: first.device,
                key_id_guard: first.key_id_guard,
                blob: first.blob,
                params: first.params,
            },
        ),
{
    lemma_upgrade_states(first, states, replies);
}

/// A second try is made with the same device and the blob that it returned. If the first
/// blob came from an entry of the database, the new one was stored in that entry before.
pub proof fn law_retried_with_stored_upgrade<'a, G, D, T>(
    first: Attempt<'a, G, D>,
    states: Seq<Upgrade<'a, G, D, T>>,
    replies: Seq<UpgradeReply<T>>,
    i: int,
)
    requires
        is_upgrade_run(first, states, replies),
        0 < i < states.len(),
        states[i] is Attempt,
    ensures
        states[i]->Attempt_0.device == first.device,
        states[i]->Attempt_0.params == first.params,
        states[1] is UpgradeKey,
        replies[1] == UpgradeReply::<T>::Upgraded(Ok(states[i]->Attempt_0.blob)),
        match first.key_id_guard {
            Some(key_id_guard) => {
                &&& i == 3
                &&& states[2] == Upgrade::<G, D, T>::InsertBlob(
                    InsertBlob {
                        device: first.device,
                        key_id_guard,
                        component: SubComponentType::KeyBlob,
                        blob: states[i]->Attempt_0.blob,
                        params: first.params,
                    },
                )
                &&& replies[2] matches UpgradeReply::Inserted(Ok(_))
            },
            None => i == 2,
        },
{
    lemma_upgrade_states(first, states, replies);
}

/// How a run ends: as its last reply says. An error ends it, whatever step it came from,
/// but for the demand for an upgrade upon the first try. A success is that of the last
/// try, and comes with the new blob exactly if that was the second.
pub proof fn law_upgrade_outcome<'a, G, D, T>(
    first: Attempt<'a, G, D>,
    states: Seq<Upgrade<'a, G, D, T>>,
    replies: Seq<UpgradeReply<T>>,
)
    requires
        is_upgrade_run(first, states, replies),
        states.last() is Done,
    ensures
        replies.len() >= 1,
        match (states.last()->Done_0, replies.last()) {
            (Err(e), UpgradeReply::Attempted(r)) => r == Err::<T, Error>(e) && (e == Error::Km(
                ErrorCode::KeyRequiresUpgrade,
            ) ==> replies.len() > 1),
            (Err(e), UpgradeReply::Upgraded(r)) => r == Err::<Vec<u8>, Error>(e),
            (Err(e), UpgradeReply::Inserted(r)) => r == Err::<(), Error>(e),
            (Ok((value, blob)), UpgradeReply::Attempted(r)) => {
                &&& r == Ok::<T, Error>(value)
                &&& match blob {
                    None => replies.len() == 1,
                    Some(b) => replies.len() > 1 && replies[1] == UpgradeReply::<T>::Upgraded(
                        Ok(b),
                    ),
                }
            },
            _ => false,
        },
{
    lemma_upgrade_states(first, states, replies);
}

/// The use of a blob goes on as each reply calls for. A try that succeeds ends it, and so
/// does any error but the demand for an upgrade upon the first try, which is followed by the
/// upgrade. The upgrade is followed by storing the new blob, if the first came from an
/// entry, and that by the second try.
pub proof fn law_upgrading_goes_on<'a, G, D, T>(
    first: Attempt<'a, G, D>,
    states: Seq<Upgrade<'a, G, D, T>>,
    replies: Seq<UpgradeReply<T>>,
    i: int,
)
    requires
        is_upgrade_run(first, states, replies),
        0 <= i < replies.len(),
    ensures
        match replies[i] {
            UpgradeReply::Attempted(Ok(value)) => states[i + 1] matches Upgrade::Done(Ok((v, blob)))
                && v == value && (blob is Some <==> i > 0),
            UpgradeReply::Attempted(Err(e)) => if i == 0 && e == Error::Km(
                ErrorCode::KeyRequiresUpgrade,
            ) {
                states[i + 1] is UpgradeKey
            } else {
                states[i + 1] matches Upgrade::Done(Err(r)) && r == e
            },
            UpgradeReply::Upgraded(Ok(_)) => if first.key_id_guard is Some {
                states[i + 1] is InsertBlob
            } else {
                states[i + 1] is Attempt
            },
            UpgradeReply::Inserted(Ok(_)) => states[i + 1] is Attempt,
            UpgradeReply::Upgraded(Err(e)) => states[i + 1] matches Upgrade::Done(Err(r)) && r == e,
            UpgradeReply::Inserted(Err(e)) => states[i + 1] matches Upgrade::Done(Err(r)) && r == e,
        },
{
    lemma_upgrade_states(first, states, replies);
}

/// The functions that the use of a blob consists of take it along a run, which begins with
/// a try at the blob as it is.
pub proof fn law_upgrading_is_a_run<'a, G, D, T>(
    level: &KeystoreSecurityLevel,
    device: D,
    key_id_guard: Option<G>,
    blob: Vec<u8>,
    params: &'a [KeyParameter],
    attempt: Attempt<'a, G, D>,
    tried: Result<T, Error>,
    upgrade: UpgradeKey<'a, G, D>,
    upgraded: Result<Vec<u8>, Error>,
    insert: InsertBlob<'a, G, D>,
    inserted: Result<(), Error>,
    next: Upgrade<'a, G, D, T>,
)
    ensures
        call_ensures(
            KeystoreSecurityLevel::upgrade_keyblob_if_required_with::<G, D>,
            (level, device, key_id_guard, blob, params),
            attempt,
        ) ==> {
            &&& attempt.device == device
            &&& attempt.key_id_guard == key_id_guard
            &&& attempt.blob == blob
            &&& attempt.params == params
            &&& !attempt.upgraded
        },
        call_ensures(Attempt::<'a, G, D>::resume::<T>, (attempt, tried), next)
            ==> Upgrade::Attempt(attempt).step(UpgradeReply::Attempted(tried), next),
        call_ensures(UpgradeKey::<'a, G, D>::resume::<T>, (upgrade, upgraded), next)
            ==> Upgrade::<'a, G, D, T>::UpgradeKey(upgrade).step(
            UpgradeReply::Upgraded(upgraded),
            next,
        ),
        call_ensures(InsertBlob::<'a, G, D>::resume::<T>, (insert, inserted), next)
            ==> Upgrade::<'a, G, D, T>::InsertBlob(insert).step(
            UpgradeReply::Inserted(inserted),
            next,
        ),
{
}

} // verus!
