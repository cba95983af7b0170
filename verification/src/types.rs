//! The plain values that a security level works on.

use vstd::prelude::*;

verus! {

/// Where a key descriptor says that its key lives.
#[derive(Clone, Copy, Debug, PartialEq, Eq, Structural)]
pub enum Domain {
    /// The namespace is the uid of the app that owns the key.
    App,
    /// The descriptor itself carries the key blob; Keystore stores nothing.
    Blob,
    /// The namespace is the database id of the key.
    KeyId,
    /// Any other domain, by its number.
    Other(i32),
}

/// The environment in which a key, or an authorization of a key, is enforced.
#[derive(Clone, Copy, Debug, PartialEq, Eq, Structural)]
pub enum SecurityLevel {
    Software,
    TrustedEnvironment,
    Strongbox,
    /// Any other level, by its number.
    Other(i32),
}

/// The tag of a key parameter.
#[derive(Clone, Copy, Debug, PartialEq, Eq, Structural)]
pub enum Tag {
    Purpose,
    Algorithm,
    /// Any other tag, by its number.
    Other(i32),
}

/// The algorithm of a key.
#[derive(Clone, Copy, Debug, PartialEq, Eq, Structural)]
pub enum Algorithm {
    Rsa,
    Ec,
    Aes,
    TripleDes,
    Hmac,
    /// Any other algorithm, by its number.
    Other(i32),
}

/// The encoding of imported key material.
#[derive(Clone, Copy, Debug, PartialEq, Eq, Structural)]
pub enum KeyFormat {
    Raw,
    Pkcs8,
}

/// What an operation does with its key, by the number of the purpose.
#[derive(Clone, Copy, Debug, PartialEq, Eq, Structural)]
pub struct KeyPurpose {
    pub value: i32,
}

/// The kind of an authenticator.
#[derive(Clone, Copy, Debug, PartialEq, Eq, Structural)]
pub enum HardwareAuthenticatorType {
    Password,
    Fingerprint,
    /// Any other kind, by its number.
    Other(i32),
}

/// What a key permission allows its holder to do with a key.
#[derive(Clone, Copy, Debug, PartialEq, Eq, Structural)]
pub enum KeyPerm {
    /// To begin operations with the key.
    Use,
    /// To bind a new key to the descriptor.
    Rebind,
}

/// A code that the KeyMint device answers with when it fails.
#[derive(Clone, Copy, Debug, PartialEq, Eq, Structural)]
pub enum ErrorCode {
    InvalidArgument,
    KeyRequiresUpgrade,
    TooManyOperations,
    /// Any other code, by its number.
    Other(i32),
}

/// Why a request failed.
#[derive(Clone, Copy, Debug, PartialEq, Eq, Structural)]
pub enum Error {
    /// An error code of KeyMint, given by the device or by Keystore itself.
    Km(ErrorCode),
    /// A system error of Keystore.
    Sys,
    /// Any other failure, by a number under which the caller finds it again.
    Other(i32),
}

impl Error {
    /// The error for a request that Keystore itself finds malformed.
    pub open spec fn invalid_argument() -> Error {
        Error::Km(ErrorCode::InvalidArgument)
    }
}

/// The scalar kinds of parameter value that no decision depends on.
#[derive(Clone, Copy, Debug, PartialEq, Eq, Structural)]
pub enum ScalarKind {
    Invalid,
    BlockMode,
    PaddingMode,
    Digest,
    EcCurve,
    Origin,
    HardwareAuthenticatorType,
    SecurityLevel,
    BoolValue,
    Integer,
    LongInteger,
    DateTime,
}

/// The value of a key parameter.
#[derive(Debug, PartialEq, Eq)]
pub enum KeyParameterValue {
    Algorithm(Algorithm),
    KeyPurpose(KeyPurpose),
    Blob(Vec<u8>),
    Scalar(ScalarKind, i64),
}

/// A parameter of a key or of an operation, as KeyMint has it.
#[derive(Debug, PartialEq, Eq)]
pub struct KeyParameter {
    pub tag: Tag,
    pub value: KeyParameterValue,
}

/// The model of a `KeyParameterValue`.
pub enum KeyParameterValueView {
    Algorithm(Algorithm),
    KeyPurpose(KeyPurpose),
    Blob(Seq<u8>),
    Scalar(ScalarKind, i64),
}

/// The model of a `KeyParameter`.
pub struct KeyParameterView {
    pub tag: Tag,
    pub value: KeyParameterValueView,
}

impl View for KeyParameterValue {
    type V = KeyParameterValueView;

    open spec fn view(&self) -> KeyParameterValueView {
        match *self {
            KeyParameterValue::Algorithm(a) => KeyParameterValueView::Algorithm(a),
            KeyParameterValue::KeyPurpose(p) => KeyParameterValueView::KeyPurpose(p),
            KeyParameterValue::Blob(b) => KeyParameterValueView::Blob(b@),
            KeyParameterValue::Scalar(k, v) => KeyParameterValueView::Scalar(k, v),
        }
    }
}

impl View for KeyParameter {
    type V = KeyParameterView;

    open spec fn view(&self) -> KeyParameterView {
        KeyParameterView { tag: self.tag, value: self.value@ }
    }
}

impl Clone for KeyParameterValue {
    fn clone(&self) -> (r: Self)
        ensures
            r@ == self@,
            match (*self, r) {
                (KeyParameterValue::Algorithm(a), KeyParameterValue::Algorithm(b)) => a == b,
                (KeyParameterValue::KeyPurpose(a), KeyParameterValue::KeyPurpose(b)) => a == b,
                (KeyParameterValue::Blob(a), KeyParameterValue::Blob(b)) => a@ == b@,
                (KeyParameterValue::Scalar(k, a), KeyParameterValue::Scalar(l, b)) => k == l && a
                    == b,
                _ => false,
            },
    {
        match self {
            KeyParameterValue::Algorithm(a) => KeyParameterValue::Algorithm(*a),
            KeyParameterValue::KeyPurpose(p) => KeyParameterValue::KeyPurpose(*p),
            KeyParameterValue::Blob(b) => {
                let copy = b.clone();
                assert(copy@ =~= b@);
                KeyParameterValue::Blob(copy)
            },
            KeyParameterValue::Scalar(k, v) => KeyParameterValue::Scalar(*k, *v),
        }
    }
}

impl Clone for KeyParameter {
    fn clone(&self) -> (r: Self)
        ensures
            r@ == self@,
            r.tag == self.tag,
            r.value@ == self.value@,
    {
        KeyParameter { tag: self.tag, value: self.value.clone() }
    }
}

/// Two parameters have one model exactly if they have the same tag and the same value, blobs
/// being the same if their bytes are.
pub proof fn law_parameter_models(p: KeyParameter, q: KeyParameter)
    ensures
        p@ == q@ <==> p.tag == q.tag && match (p.value, q.value) {
            (KeyParameterValue::Algorithm(a), KeyParameterValue::Algorithm(b)) => a == b,
            (KeyParameterValue::KeyPurpose(a), KeyParameterValue::KeyPurpose(b)) => a == b,
            (KeyParameterValue::Blob(a), KeyParameterValue::Blob(b)) => a@ == b@,
            (KeyParameterValue::Scalar(k, a), KeyParameterValue::Scalar(l, b)) => k == l && a == b,
            _ => false,
        },
{
}

/// A copy of a parameter has the same tag and the same value.
pub proof fn law_parameter_copies(p: &KeyParameter, copy: KeyParameter)
    requires
        call_ensures(<KeyParameter as Clone>::clone, (p,), copy),
    ensures
        copy.tag == p.tag,
        match (p.value, copy.value) {
            (KeyParameterValue::Algorithm(a), KeyParameterValue::Algorithm(b)) => a == b,
            (KeyParameterValue::KeyPurpose(a), KeyParameterValue::KeyPurpose(b)) => a == b,
            (KeyParameterValue::Blob(a), KeyParameterValue::Blob(b)) => a@ == b@,
            (KeyParameterValue::Scalar(k, a), KeyParameterValue::Scalar(l, b)) => k == l && a == b,
            _ => false,
        },
{
}

/// The value of a key parameter as Keystore keeps it.
#[derive(Debug, PartialEq, Eq)]
pub enum KsKeyParamValue {
    /// The Android user that a key belongs to. KeyMint has no such parameter.
    UserID(i32),
    /// A parameter that KeyMint has too.
    Parameter(KeyParameter),
}

/// A key parameter as Keystore keeps it, with the level that enforces it.
#[derive(Debug, PartialEq, Eq)]
pub struct KsKeyParam {
    pub value: KsKeyParamValue,
    pub security_level: SecurityLevel,
}

/// The model of a `KsKeyParamValue`.
pub enum KsKeyParamValueView {
    UserID(i32),
    Parameter(KeyParameterView),
}

/// The model of a `KsKeyParam`.
pub struct KsKeyParamView {
    pub value: KsKeyParamValueView,
    pub security_level: SecurityLevel,
}

impl View for KsKeyParam {
    type V = KsKeyParamView;

    open spec fn view(&self) -> KsKeyParamView {
        KsKeyParamView {
            value: match self.value {
                KsKeyParamValue::UserID(u) => KsKeyParamValueView::UserID(u),
                KsKeyParamValue::Parameter(p) => KsKeyParamValueView::Parameter(p@),
            },
            security_level: self.security_level,
        }
    }
}

/// Two parameters that Keystore keeps have one model exactly if the same level enforces them
/// and they name the same user or are the same parameter of KeyMint.
pub proof fn law_ks_parameter_models(p: KsKeyParam, q: KsKeyParam)
    ensures
        p@ == q@ <==> p.security_level == q.security_level && match (p.value, q.value) {
            (KsKeyParamValue::UserID(a), KsKeyParamValue::UserID(b)) => a == b,
            (KsKeyParamValue::Parameter(a), KsKeyParamValue::Parameter(b)) => a.tag == b.tag
                && match (a.value, b.value) {
                (KeyParameterValue::Algorithm(a), KeyParameterValue::Algorithm(b)) => a == b,
                (KeyParameterValue::KeyPurpose(a), KeyParameterValue::KeyPurpose(b)) => a == b,
                (KeyParameterValue::Blob(a), KeyParameterValue::Blob(b)) => a@ == b@,
                (KeyParameterValue::Scalar(k, a), KeyParameterValue::Scalar(l, b)) => k == l && a
                    == b,
                _ => false,
            },
            _ => false,
        },
{
    if let (KsKeyParamValue::Parameter(a), KsKeyParamValue::Parameter(b)) = (p.value, q.value) {
        law_parameter_models(a, b);
    }
}

/// Names a key: the domain, and within it the namespace, the alias or the blob.
#[derive(Debug, PartialEq, Eq)]
pub struct KeyDescriptor {
    pub domain: Domain,
    pub nspace: i64,
    pub alias: Option<String>,
    pub blob: Option<Vec<u8>>,
}

/// The model of a `KeyDescriptor`.
pub struct KeyDescriptorView {
    pub domain: Domain,
    pub nspace: i64,
    pub alias: Option<Seq<char>>,
    pub blob: Option<Seq<u8>>,
}

/// The model of optional text.
pub open spec fn text_view(text: Option<String>) -> Option<Seq<char>> {
    match text {
        Some(s) => Some(s@),
        None => None,
    }
}

/// The model of optional bytes.
pub open spec fn bytes_view(bytes: Option<Vec<u8>>) -> Option<Seq<u8>> {
    match bytes {
        Some(b) => Some(b@),
        None => None,
    }
}

impl View for KeyDescriptor {
    type V = KeyDescriptorView;

    open spec fn view(&self) -> KeyDescriptorView {
        KeyDescriptorView {
            domain: self.domain,
            nspace: self.nspace,
            alias: text_view(self.alias),
            blob: bytes_view(self.blob),
        }
    }
}

impl Clone for KeyDescriptor {
    fn clone(&self) -> (r: Self)
        ensures
            r@ == self@,
            r.domain == self.domain,
            r.nspace == self.nspace,
            r.alias is Some <==> self.alias is Some,
            r.alias is Some ==> r.alias->0@ == self.alias->0@,
            r.blob is Some <==> self.blob is Some,
            r.blob is Some ==> r.blob->0@ == self.blob->0@,
    {
        let blob = match &self.blob {
            Some(b) => {
                let copy = b.clone();
                assert(copy@ =~= b@);
                Some(copy)
            },
            None => None,
        };
        KeyDescriptor { domain: self.domain, nspace: self.nspace, alias: self.alias.clone(), blob }
    }
}

/// Two descriptors have one model exactly if they have the same domain and namespace, the
/// same alias, or none, and a blob of the same bytes, or none.
pub proof fn law_descriptor_models(p: KeyDescriptor, q: KeyDescriptor)
    ensures
        p@ == q@ <==> {
            &&& p.domain == q.domain
            &&& p.nspace == q.nspace
            &&& match (p.alias, q.alias) {
                (Some(a), Some(b)) => a@ == b@,
                (None, None) => true,
                _ => false,
            }
            &&& match (p.blob, q.blob) {
                (Some(a), Some(b)) => a@ == b@,
                (None, None) => true,
                _ => false,
            }
        },
{
}

/// A copy of a descriptor names the same key.
pub proof fn law_descriptor_copies(key: &KeyDescriptor, copy: KeyDescriptor)
    requires
        call_ensures(<KeyDescriptor as Clone>::clone, (key,), copy),
    ensures
        copy.domain == key.domain,
        copy.nspace == key.nspace,
        copy.alias is Some <==> key.alias is Some,
        key.alias is Some ==> copy.alias->0@ == key.alias->0@,
        copy.blob is Some <==> key.blob is Some,
        key.blob is Some ==> copy.blob->0@ == key.blob->0@,
{
}

/// An X.509 certificate in its encoded form.
#[derive(Debug, PartialEq, Eq)]
pub struct Certificate {
    pub encoded_certificate: Vec<u8>,
}

/// What the device returns for a key that it made or imported.
#[derive(Debug, PartialEq, Eq)]
pub struct KeyCreationResult {
    pub key_blob: Vec<u8>,
    /// The characteristics of the key, in the form in which Keystore keeps them.
    pub key_parameters: Vec<KsKeyParam>,
    /// The certificate of the key, if any, and after it those that vouch for it.
    pub certificate_chain: Vec<Certificate>,
}

/// A point in time, in milliseconds since the epoch.
#[derive(Clone, Copy, Debug, PartialEq, Eq, Structural)]
pub struct DateTime {
    pub millis_epoch: i64,
}

/// What a client is told about its new key.
#[derive(Debug, PartialEq, Eq)]
pub struct KeyMetadata {
    pub key: KeyDescriptor,
    pub key_security_level: SecurityLevel,
    pub certificate: Option<Vec<u8>>,
    pub certificate_chain: Option<Vec<u8>>,
    /// The parameters of the key, each of which the client sees as an authorization.
    pub authorizations: Vec<KsKeyParam>,
    pub modification_time_ms: i64,
}

/// An authenticator and the secure id under which it is enrolled.
#[derive(Clone, Copy, Debug, PartialEq, Eq, Structural)]
pub struct AuthenticatorSpec {
    pub authenticator_type: HardwareAuthenticatorType,
    pub authenticator_id: i64,
}

} // verus!
