//! What a security level reads out of the requests of its clients.

use crate::types::{
    Algorithm, AuthenticatorSpec, Domain, Error, ErrorCode, HardwareAuthenticatorType,
    KeyDescriptor, KeyDescriptorView, KeyFormat, KeyParameter, KeyParameterValue, KeyPurpose, Tag,
};
use vstd::prelude::*;

verus! {

/// The first item of `items` that `wanted` holds of, if there is one.
pub open spec fn first_where<T>(items: Seq<T>, wanted: spec_fn(T) -> bool) -> Option<T>
    decreases items.len(),
{
    if items.len() == 0 {
        None
    } else if wanted(items[0]) {
        Some(items[0])
    } else {
        first_where(items.drop_first(), wanted)
    }
}

/// `first_where` finds an item exactly where one is wanted, and then one with no wanted one
/// before it.
pub proof fn law_first_where<T>(items: Seq<T>, wanted: spec_fn(T) -> bool)
    ensures
        match first_where(items, wanted) {
            Some(item) => exists|i: int|
                {
                    &&& 0 <= i < items.len()
                    &&& #[trigger] items[i] == item
                    &&& wanted(item)
                    &&& forall|j: int| 0 <= j < i ==> !wanted(#[trigger] items[j])
                },
            None => forall|j: int| 0 <= j < items.len() ==> !wanted(#[trigger] items[j]),
        },
    decreases items.len(),
{
    if items.len() > 0 && !wanted(items[0]) {
        let rest = items.drop_first();
        law_first_where(rest, wanted);
        match first_where(rest, wanted) {
            Some(item) => {
                let i = choose|i: int|
                    {
                        &&& 0 <= i < rest.len()
                        &&& #[trigger] rest[i] == item
                        &&& wanted(item)
                        &&& forall|j: int| 0 <= j < i ==> !wanted(#[trigger] rest[j])
                    };
                assert(items[i + 1] == item);
                assert forall|j: int| 0 <= j < i + 1 implies !wanted(#[trigger] items[j]) by {
                    if j > 0 {
                        assert(items[j] == rest[j - 1]);
                    }
                }
            },
            None => {
                assert forall|j: int| 0 <= j < items.len() implies !wanted(#[trigger] items[j]) by {
                    if j > 0 {
                        assert(items[j] == rest[j - 1]);
                    }
                }
            },
        }
    } else if items.len() > 0 {
        assert(items[0] == items[0]);
    }
}

/// A wanted item with no wanted one before it is the first.
pub proof fn law_first_at<T>(items: Seq<T>, wanted: spec_fn(T) -> bool, i: int)
    requires
        0 <= i < items.len(),
        wanted(items[i]),
        forall|j: int| 0 <= j < i ==> !wanted(#[trigger] items[j]),
    ensures
        first_where(items, wanted) == Some(items[i]),
    decreases items.len(),
{
    if i > 0 {
        let rest = items.drop_first();
        assert(!wanted(items[0]));
        assert forall|j: int| 0 <= j < i - 1 implies !wanted(#[trigger] rest[j]) by {
            assert(rest[j] == items[j + 1]);
        }
        law_first_at(rest, wanted, i - 1);
    }
}

/// Says of a parameter whether it has the tag.
pub open spec fn has_tag(tag: Tag) -> spec_fn(KeyParameter) -> bool {
    |p: KeyParameter| p.tag == tag
}

/// The value of the first parameter with the tag, if there is one.
fn find_tag<'a>(params: &'a [KeyParameter], tag: Tag) -> (found: Option<&'a KeyParameterValue>)
    ensures
        found == (match first_where(params@, has_tag(tag)) {
            Some(p) => Some(&p.value),
            None => None,
        }),
{
    let mut i: usize = 0;
    assert(params@.skip(0) =~= params@);
    while i < params.len()
        invariant
            0 <= i <= params@.len(),
            first_where(params@, has_tag(tag)) == first_where(params@.skip(i as int), has_tag(tag)),
        decreases params@.len() - i,
    {
        if params[i].tag == tag {
            return Some(&params[i].value);
        }
        assert(params@.skip(i as int).drop_first() =~= params@.skip(i + 1));
        i = i + 1;
    }
    None
}

/// The first parameter with a tag, by its position.
pub(crate) proof fn lemma_first_tagged(params: Seq<KeyParameter>, tag: Tag)
    ensures
        forall|i: int|
            0 <= i < params.len() && (#[trigger] params[i]).tag == tag && (forall|j: int|
                0 <= j < i ==> (#[trigger] params[j]).tag != tag) ==> first_where(
                params,
                has_tag(tag),
            ) == Some(params[i]),
        (forall|j: int| 0 <= j < params.len() ==> (#[trigger] params[j]).tag != tag) <==>
            first_where(params, has_tag(tag)) is None,
{
    assert forall|i: int|
        0 <= i < params.len() && (#[trigger] params[i]).tag == tag && (forall|j: int|
            0 <= j < i ==> (#[trigger] params[j]).tag != tag) implies first_where(
        params,
        has_tag(tag),
    ) == Some(params[i]) by {
        law_first_at(params, has_tag(tag), i);
    }
    law_first_where(params, has_tag(tag));
}

/// The purpose that operation parameters ask for: that of the first parameter that is
/// tagged as one. There must be such a parameter, and its value must be a purpose.
pub open spec fn purpose_of(params: Seq<KeyParameter>) -> Result<KeyPurpose, Error> {
    match first_where(params, has_tag(Tag::Purpose)) {
        Some(KeyParameter { value: KeyParameterValue::KeyPurpose(purpose), .. }) => Ok(purpose),
        _ => Err(Error::invalid_argument()),
    }
}

/// Finds the purpose that operation parameters ask for.
pub fn operation_purpose(params: &[KeyParameter]) -> (r: Result<KeyPurpose, Error>)
    ensures
        r == purpose_of(params@),
        forall|i: int|
            0 <= i < params@.len() && (#[trigger] params@[i]).tag == Tag::Purpose && (forall|j: int|
                0 <= j < i ==> (#[trigger] params@[j]).tag != Tag::Purpose) ==> r == (
            match params@[i].value {
                KeyParameterValue::KeyPurpose(p) => Ok(p),
                _ => Err(Error::Km(ErrorCode::InvalidArgument)),
            }),
        (forall|j: int| 0 <= j < params@.len() ==> (#[trigger] params@[j]).tag != Tag::Purpose)
            ==> r == Err::<KeyPurpose, Error>(Error::Km(ErrorCode::InvalidArgument)),
{
    proof {
        lemma_first_tagged(params@, Tag::Purpose);
    }
    match find_tag(params, Tag::Purpose) {
        Some(KeyParameterValue::KeyPurpose(purpose)) => Ok(*purpose),
        _ => Err(Error::Km(ErrorCode::InvalidArgument)),
    }
}

/// The encoding in which material of a key with these parameters is imported: raw for
/// the symmetric algorithms and PKCS#8 for the asymmetric ones. The first parameter
/// tagged as an algorithm decides; it must name one of those known here.
pub open spec fn import_format_of(params: Seq<KeyParameter>) -> Result<KeyFormat, Error> {
    match first_where(params, has_tag(Tag::Algorithm)) {
        Some(KeyParameter { value: KeyParameterValue::Algorithm(algorithm), .. }) => {
            match algorithm {
                Algorithm::Aes | Algorithm::Hmac | Algorithm::TripleDes => Ok(KeyFormat::Raw),
                Algorithm::Rsa | Algorithm::Ec => Ok(KeyFormat::Pkcs8),
                Algorithm::Other(_) => Err(Error::invalid_argument()),
            }
        },
        _ => Err(Error::invalid_argument()),
    }
}

/// Finds the encoding in which the material of a key is imported.
pub fn import_format(params: &[KeyParameter]) -> (r: Result<KeyFormat, Error>)
    ensures
        r == import_format_of(params@),
        forall|i: int|
            0 <= i < params@.len() && (#[trigger] params@[i]).tag == Tag::Algorithm && (forall|
                j: int,
            |
                0 <= j < i ==> (#[trigger] params@[j]).tag != Tag::Algorithm) ==> r == (
            match params@[i].value {
                KeyParameterValue::Algorithm(Algorithm::Aes) => Ok(KeyFormat::Raw),
                KeyParameterValue::Algorithm(Algorithm::Hmac) => Ok(KeyFormat::Raw),
                KeyParameterValue::Algorithm(Algorithm::TripleDes) => Ok(KeyFormat::Raw),
                KeyParameterValue::Algorithm(Algorithm::Rsa) => Ok(KeyFormat::Pkcs8),
                KeyParameterValue::Algorithm(Algorithm::Ec) => Ok(KeyFormat::Pkcs8),
                _ => Err(Error::Km(ErrorCode::InvalidArgument)),
            }),
        (forall|j: int| 0 <= j < params@.len() ==> (#[trigger] params@[j]).tag != Tag::Algorithm)
            ==> r == Err::<KeyFormat, Error>(Error::Km(ErrorCode::InvalidArgument)),
{
    proof {
        lemma_first_tagged(params@, Tag::Algorithm);
    }
    match find_tag(params, Tag::Algorithm) {
        Some(KeyParameterValue::Algorithm(Algorithm::Aes))
        | Some(KeyParameterValue::Algorithm(Algorithm::Hmac))
        | Some(KeyParameterValue::Algorithm(Algorithm::TripleDes)) => Ok(KeyFormat::Raw),
        Some(KeyParameterValue::Algorithm(Algorithm::Rsa))
        | Some(KeyParameterValue::Algorithm(Algorithm::Ec)) => Ok(KeyFormat::Pkcs8),
        _ => Err(Error::Km(ErrorCode::InvalidArgument)),
    }
}

/// Says of an authenticator whether it is of the kind.
pub open spec fn has_type(kind: HardwareAuthenticatorType) -> spec_fn(AuthenticatorSpec) -> bool {
    |a: AuthenticatorSpec| a.authenticator_type == kind
}

/// The first authenticator of a kind, by its position.
pub(crate) proof fn lemma_first_of_type(
    authenticators: Seq<AuthenticatorSpec>,
    kind: HardwareAuthenticatorType,
)
    ensures
        forall|i: int|
            0 <= i < authenticators.len() && (#[trigger] authenticators[i]).authenticator_type
                == kind && (forall|j: int|
                0 <= j < i ==> (#[trigger] authenticators[j]).authenticator_type != kind) ==>
                first_where(authenticators, has_type(kind)) == Some(authenticators[i]),
        (forall|j: int|
            0 <= j < authenticators.len() ==> (#[trigger] authenticators[j]).authenticator_type
                != kind) <==> first_where(authenticators, has_type(kind)) is None,
{
    assert forall|i: int|
        0 <= i < authenticators.len() && (#[trigger] authenticators[i]).authenticator_type == kind
            && (forall|j: int|
            0 <= j < i ==> (#[trigger] authenticators[j]).authenticator_type != kind) implies
        first_where(authenticators, has_type(kind)) == Some(authenticators[i]) by {
        law_first_at(authenticators, has_type(kind), i);
    }
    law_first_where(authenticators, has_type(kind));
}

/// The secure id of the first authenticator of a kind. There must be one.
pub open spec fn sid_of(
    authenticators: Seq<AuthenticatorSpec>,
    kind: HardwareAuthenticatorType,
) -> Result<i64, Error> {
    match first_where(authenticators, has_type(kind)) {
        Some(a) => Ok(a.authenticator_id),
        None => Err(Error::invalid_argument()),
    }
}

/// Finds the secure id of the first authenticator of a kind.
pub fn authenticator_sid(
    authenticators: &[AuthenticatorSpec],
    kind: HardwareAuthenticatorType,
) -> (r: Result<i64, Error>)
    ensures
        r == sid_of(authenticators@, kind),
        forall|i: int|
            0 <= i < authenticators@.len() && (#[trigger] authenticators@[i]).authenticator_type
                == kind && (forall|j: int|
                0 <= j < i ==> (#[trigger] authenticators@[j]).authenticator_type != kind) ==> r
                == Ok::<i64, Error>(authenticators@[i].authenticator_id),
        (forall|j: int|
            0 <= j < authenticators@.len() ==> (#[trigger] authenticators@[j]).authenticator_type
                != kind) ==> r == Err::<i64, Error>(Error::Km(ErrorCode::InvalidArgument)),
{
    proof {
        lemma_first_of_type(authenticators@, kind);
    }
    let mut i: usize = 0;
    assert(authenticators@.skip(0) =~= authenticators@);
    while i < authenticators.len()
        invariant
            0 <= i <= authenticators@.len(),
            first_where(authenticators@, has_type(kind)) == first_where(
                authenticators@.skip(i as int),
                has_type(kind),
            ),
        decreases authenticators@.len() - i,
    {
        if authenticators[i].authenticator_type == kind {
            proof {
                lemma_first_of_type(authenticators@, kind);
            }
            return Ok(authenticators[i].authenticator_id);
        }
        assert(authenticators@.skip(i as int).drop_first() =~= authenticators@.skip(i + 1));
        i = i + 1;
    }
    Err(Error::Km(ErrorCode::InvalidArgument))
}

/// Whether a descriptor can name a new key: outside the blob domain it needs an alias.
pub open spec fn names_new_key(key: KeyDescriptor) -> bool {
    key.domain == Domain::Blob || key.alias is Some
}

/// The descriptor that a new key is bound to. In the app domain the namespace is the
/// uid of the caller, whatever the caller wrote, and a blob is dropped.
pub open spec fn bound_key(key: KeyDescriptorView, caller_uid: u32) -> KeyDescriptorView {
    if key.domain == Domain::App {
        KeyDescriptorView {
            domain: Domain::App,
            nspace: caller_uid as i64,
            alias: key.alias,
            blob: None,
        }
    } else {
        key
    }
}

/// The descriptor that a caller's request for a new key is about; it must name one.
pub fn new_key_descriptor(key: &KeyDescriptor, caller_uid: u32) -> (r: Result<KeyDescriptor, Error>)
    ensures
        match r {
            Ok(bound) => names_new_key(*key) && bound@ == bound_key(key@, caller_uid),
            Err(e) => !names_new_key(*key) && e == Error::invalid_argument(),
        },
        r is Err <==> key.domain != Domain::Blob && key.alias is None,
        r is Err ==> r->Err_0 == Error::Km(ErrorCode::InvalidArgument),
        r is Ok ==> {
            let bound = r->Ok_0;
            &&& bound.domain == key.domain
            &&& bound.alias is Some <==> key.alias is Some
            &&& bound.alias is Some ==> bound.alias->0@ == key.alias->0@
            &&& key.domain == Domain::App ==> bound.nspace == caller_uid && bound.blob is None
            &&& key.domain != Domain::App ==> {
                &&& bound.nspace == key.nspace
                &&& bound.blob is Some <==> key.blob is Some
                &&& bound.blob is Some ==> bound.blob->0@ == key.blob->0@
            }
        },
{
    if key.domain != Domain::Blob && key.alias.is_none() {
        return Err(Error::Km(ErrorCode::InvalidArgument));
    }
    Ok(
        match key.domain {
            Domain::App => KeyDescriptor {
                domain: key.domain,
                nspace: caller_uid as i64,
                alias: key.alias.clone(),
                blob: None,
            },
            _ => key.clone(),
        },
    )
}

/// An operation has the purpose that its parameters give: if a parameter is the first that
/// is tagged as a purpose, and its value is one, then that very purpose is found.
pub proof fn law_purpose_is_the_one_given(
    params: &[KeyParameter],
    found: Result<KeyPurpose, Error>,
    i: int,
    purpose: KeyPurpose,
)
    requires
        call_ensures(operation_purpose, (params,), found),
        0 <= i < params@.len(),
        params@[i].tag == Tag::Purpose,
        params@[i].value == KeyParameterValue::KeyPurpose(purpose),
        forall|j: int| 0 <= j < i ==> (#[trigger] params@[j]).tag != Tag::Purpose,
    ensures
        found == Ok::<KeyPurpose, Error>(purpose),
        purpose_of(params@) == Ok::<KeyPurpose, Error>(purpose),
{
    lemma_first_tagged(params@, Tag::Purpose);
}

/// A purpose that is found was given, by a parameter that is tagged as a purpose and has
/// none of that tag before it. Where none is found the request is an invalid argument.
pub proof fn law_purpose_is_given(params: &[KeyParameter], found: Result<KeyPurpose, Error>)
    requires
        call_ensures(operation_purpose, (params,), found),
    ensures
        found is Ok <==> exists|i: int|
            {
                &&& 0 <= i < params@.len()
                &&& (#[trigger] params@[i]).tag == Tag::Purpose
                &&& params@[i].value is KeyPurpose
                &&& forall|j: int| 0 <= j < i ==> (#[trigger] params@[j]).tag != Tag::Purpose
            },
        found is Err ==> found->Err_0 == Error::Km(ErrorCode::InvalidArgument),
        found == purpose_of(params@),
{
    lemma_first_tagged(params@, Tag::Purpose);
    law_first_where(params@, has_tag(Tag::Purpose));
}

/// The encoding of imported key data is decided by the first parameter that is tagged as an
/// algorithm, and by nothing else: raw for AES, HMAC and triple DES, PKCS#8 for RSA and EC.
/// Any other value of that parameter is an invalid argument.
pub proof fn law_format_follows_first_algorithm(
    params: &[KeyParameter],
    found: Result<KeyFormat, Error>,
    i: int,
)
    requires
        call_ensures(import_format, (params,), found),
        0 <= i < params@.len(),
        params@[i].tag == Tag::Algorithm,
        forall|j: int| 0 <= j < i ==> (#[trigger] params@[j]).tag != Tag::Algorithm,
    ensures
        found == import_format_of(params@),
        found == Ok::<KeyFormat, Error>(KeyFormat::Raw) <==> {
            ||| params@[i].value == KeyParameterValue::Algorithm(Algorithm::Aes)
            ||| params@[i].value == KeyParameterValue::Algorithm(Algorithm::Hmac)
            ||| params@[i].value == KeyParameterValue::Algorithm(Algorithm::TripleDes)
        },
        found == Ok::<KeyFormat, Error>(KeyFormat::Pkcs8) <==> {
            ||| params@[i].value == KeyParameterValue::Algorithm(Algorithm::Rsa)
            ||| params@[i].value == KeyParameterValue::Algorithm(Algorithm::Ec)
        },
        found is Err ==> found->Err_0 == Error::Km(ErrorCode::InvalidArgument),
{
    lemma_first_tagged(params@, Tag::Algorithm);
}

/// Without a parameter that is tagged as an algorithm there is no encoding.
pub proof fn law_format_needs_algorithm(params: &[KeyParameter], found: Result<KeyFormat, Error>)
    requires
        call_ensures(import_format, (params,), found),
        forall|j: int| 0 <= j < params@.len() ==> (#[trigger] params@[j]).tag != Tag::Algorithm,
    ensures
        found == Err::<KeyFormat, Error>(Error::Km(ErrorCode::InvalidArgument)),
        import_format_of(params@) == found,
{
    lemma_first_tagged(params@, Tag::Algorithm);
}

/// Two lists of parameters whose first algorithms are the same call for the same encoding,
/// however they differ otherwise.
pub proof fn law_format_ignores_other_parameters(
    params: &[KeyParameter],
    others: &[KeyParameter],
    found: Result<KeyFormat, Error>,
    other_found: Result<KeyFormat, Error>,
    i: int,
    k: int,
)
    requires
        call_ensures(import_format, (params,), found),
        call_ensures(import_format, (others,), other_found),
        0 <= i < params@.len(),
        params@[i].tag == Tag::Algorithm,
        forall|j: int| 0 <= j < i ==> (#[trigger] params@[j]).tag != Tag::Algorithm,
        0 <= k < others@.len(),
        others@[k].tag == Tag::Algorithm,
        forall|j: int| 0 <= j < k ==> (#[trigger] others@[j]).tag != Tag::Algorithm,
        params@[i].value == others@[k].value,
    ensures
        found == other_found,
{
    lemma_first_tagged(params@, Tag::Algorithm);
    lemma_first_tagged(others@, Tag::Algorithm);
}

/// A secure id that is found is that of an authenticator of the wanted kind, the first of
/// that kind in the list. It is found exactly if there is one; else the request is an
/// invalid argument.
pub proof fn law_sid_is_of_the_wanted_kind(
    authenticators: &[AuthenticatorSpec],
    kind: HardwareAuthenticatorType,
    found: Result<i64, Error>,
)
    requires
        call_ensures(authenticator_sid, (authenticators, kind), found),
    ensures
        found == sid_of(authenticators@, kind),
        match found {
            Ok(id) => exists|i: int|
                {
                    &&& 0 <= i < authenticators@.len()
                    &&& (#[trigger] authenticators@[i]).authenticator_type == kind
                    &&& authenticators@[i].authenticator_id == id
                    &&& forall|j: int|
                        0 <= j < i ==> (#[trigger] authenticators@[j]).authenticator_type != kind
                },
            Err(e) => {
                &&& e == Error::Km(ErrorCode::InvalidArgument)
                &&& forall|j: int|
                    0 <= j < authenticators@.len() ==> (
                    #[trigger] authenticators@[j]).authenticator_type != kind
            },
        },
{
    lemma_first_of_type(authenticators@, kind);
    law_first_where(authenticators@, has_type(kind));
}

/// A new key of the app domain is bound to the uid of the caller, whatever namespace the
/// caller wrote, under the alias that the caller gave and without a blob.
pub proof fn law_app_keys_are_bound_to_the_caller(
    key: &KeyDescriptor,
    caller_uid: u32,
    bound: Result<KeyDescriptor, Error>,
)
    requires
        call_ensures(new_key_descriptor, (key, caller_uid), bound),
        key.domain == Domain::App,
        key.alias is Some,
    ensures
        bound is Ok,
        bound->Ok_0.domain == Domain::App,
        bound->Ok_0.nspace == caller_uid,
        bound->Ok_0.alias is Some,
        bound->Ok_0.alias->0@ == key.alias->0@,
        bound->Ok_0.blob is None,
        bound_key(key@, caller_uid).nspace == caller_uid,
{
}

/// Outside the app domain a new key is bound to what the caller wrote.
pub proof fn law_other_keys_are_bound_as_written(
    key: &KeyDescriptor,
    caller_uid: u32,
    bound: Result<KeyDescriptor, Error>,
)
    requires
        call_ensures(new_key_descriptor, (key, caller_uid), bound),
        key.domain != Domain::App,
        key.domain == Domain::Blob || key.alias is Some,
    ensures
        bound is Ok,
        bound->Ok_0.domain == key.domain,
        bound->Ok_0.nspace == key.nspace,
        bound->Ok_0.alias is Some <==> key.alias is Some,
        key.alias is Some ==> bound->Ok_0.alias->0@ == key.alias->0@,
        bound->Ok_0.blob is Some <==> key.blob is Some,
        key.blob is Some ==> bound->Ok_0.blob->0@ == key.blob->0@,
{
}

/// A descriptor without an alias can name a new key in the blob domain only.
pub proof fn law_new_keys_need_an_alias(
    key: &KeyDescriptor,
    caller_uid: u32,
    bound: Result<KeyDescriptor, Error>,
)
    requires
        call_ensures(new_key_descriptor, (key, caller_uid), bound),
    ensures
        bound is Err <==> key.domain != Domain::Blob && key.alias is None,
        bound is Err ==> bound->Err_0 == Error::Km(ErrorCode::InvalidArgument),
        names_new_key(*key) <==> key.domain == Domain::Blob || key.alias is Some,
{
}

} // verus!
