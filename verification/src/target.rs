//! What a key that is not there yet will be.

use crate::request::bound_key;
use crate::security_level::KeystoreSecurityLevel;
use crate::store::StoreNewKey;
use crate::types::{KeyCreationResult, KeyDescriptor};
use vstd::prelude::*;

verus! {

/// Who makes a request.
#[derive(Clone, Copy, Debug, PartialEq, Eq, Structural)]
pub struct Caller {
    pub uid: u32,
    /// The Android user that the uid belongs to.
    pub user_id: u32,
}

/// What a key that is not there yet will be bound to, and where.
#[derive(Debug, PartialEq, Eq)]
pub struct Target {
    pub level: KeystoreSecurityLevel,
    pub key: KeyDescriptor,
    pub user_id: u32,
}

impl Target {
    /// Whether this is the target that a caller's request for the key `key` has.
    pub open spec fn is_of(
        self,
        level: KeystoreSecurityLevel,
        key: KeyDescriptor,
        caller: Caller,
    ) -> bool {
        &&& self.level == level
        &&& self.key@ == bound_key(key@, caller.uid)
        &&& self.user_id == caller.user_id
    }

    /// Whether `next` begins to keep the key that the device created for this target.
    pub open spec fn keeps(self, created: KeyCreationResult, next: StoreNewKey) -> bool {
        next matches StoreNewKey::ReadTime(s) && s.new_key.is_made_from(
            self.level,
            self.key,
            created,
            self.user_id,
        )
    }

    /// Begins to keep the key that the device created.
    pub fn keep(self, created: KeyCreationResult) -> (next: StoreNewKey)
        ensures
            self.keeps(created, next),
    {
        StoreNewKey::ReadTime(self.level.store_new_key(self.key, created, self.user_id))
    }
}

} // verus!
