//! Entries of the key database.

use crate::types::{KeyDescriptor, KeyPerm, KsKeyParam};
use vstd::prelude::*;

verus! {

/// Whose key an entry holds.
#[derive(Clone, Copy, Debug, PartialEq, Eq, Structural)]
pub enum KeyType {
    /// A key of a client.
    Client,
}

/// Which components of an entry are loaded.
#[derive(Clone, Copy, Debug, PartialEq, Eq, Structural)]
pub enum KeyEntryLoadBits {
    /// The blob of KeyMint only.
    Km,
}

/// A search of the database for the entry of a key. The caller must have the permission
/// `perm` for the key that is found.
#[derive(Debug, PartialEq, Eq)]
pub struct KeyLookup<'a> {
    pub key: &'a KeyDescriptor,
    pub key_type: KeyType,
    pub load_bits: KeyEntryLoadBits,
    pub caller_uid: u32,
    pub perm: KeyPerm,
}

impl<'a> KeyLookup<'a> {
    /// The search for the blob of a key that the caller wants to use.
    pub open spec fn for_use(key: &'a KeyDescriptor, caller_uid: u32) -> KeyLookup<'a> {
        KeyLookup {
            key,
            key_type: KeyType::Client,
            load_bits: KeyEntryLoadBits::Km,
            caller_uid,
            perm: KeyPerm::Use,
        }
    }

    /// Describes the search for the blob of a key that the caller wants to use.
    pub fn new_for_use(key: &'a KeyDescriptor, caller_uid: u32) -> (r: KeyLookup<'a>)
        ensures
            r == KeyLookup::for_use(key, caller_uid),
            r.key == key,
            r.key_type == KeyType::Client,
            r.load_bits == KeyEntryLoadBits::Km,
            r.caller_uid == caller_uid,
            r.perm == KeyPerm::Use,
    {
        KeyLookup {
            key,
            key_type: KeyType::Client,
            load_bits: KeyEntryLoadBits::Km,
            caller_uid,
            perm: KeyPerm::Use,
        }
    }
}

/// A key that a caller wants to use is searched for as the caller named it, among the keys of
/// clients, on behalf of that caller, who must have the permission to use it.
pub proof fn law_search_is_for_use<'a>(
    key: &'a KeyDescriptor,
    caller_uid: u32,
    lookup: KeyLookup<'a>,
)
    requires
        call_ensures(KeyLookup::<'a>::new_for_use, (key, caller_uid), lookup),
    ensures
        lookup.key == key,
        lookup.key_type == KeyType::Client,
        lookup.load_bits == KeyEntryLoadBits::Km,
        lookup.caller_uid == caller_uid,
        lookup.perm == KeyPerm::Use,
        KeyLookup::for_use(key, caller_uid) == lookup,
{
}

/// What the database has of a key.
#[derive(Debug, PartialEq, Eq)]
pub struct KeyEntry {
    /// The blob of KeyMint. It should be there, as it was asked for.
    pub km_blob: Option<Vec<u8>>,
    pub key_parameters: Vec<KsKeyParam>,
}

} // verus!
