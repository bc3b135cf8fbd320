use vstd::prelude::*;
use crate::validate::{is_fingerprint, is_full_fingerprint};

verus! {

/// How an operation treats post-quantum algorithms.
#[derive(Debug, Clone, Copy, PartialEq, Eq, Structural)]
pub enum PqcPolicy {
    /// Never use post-quantum algorithms.
    Disabled,
    /// Use post-quantum algorithms when the provider has them, else classical.
    Preferred,
    /// Fail when the provider has no post-quantum algorithms.
    Required,
}

/// PQC-first: the default asks for post-quantum and refuses to downgrade.
impl Default for PqcPolicy {
    fn default() -> (r: PqcPolicy)
        ensures
            r == PqcPolicy::Required,
    {
        PqcPolicy::Required
    }
}

/// Strength of the post-quantum profile a key generation asks for.
#[derive(Debug, Clone, Copy, PartialEq, Eq, Structural)]
pub enum PqcLevel {
    Baseline,
    High,
}

impl Default for PqcLevel {
    fn default() -> (r: PqcLevel)
        ensures
            r == PqcLevel::Baseline,
    {
        PqcLevel::Baseline
    }
}

/// A key selector: a fingerprint in full form, or a shorter form.
#[derive(Debug, Clone, PartialEq, Eq)]
pub struct KeyId(pub String);

impl KeyId {
    /// Whether the selector is a full fingerprint rather than a short form.
    pub fn is_full(&self) -> (r: bool)
        ensures
            r == is_fingerprint(self.0@),
    {
        is_full_fingerprint(self.0.as_str())
    }
}

/// A human identity, conventionally `Name <email>`.
#[derive(Debug, Clone, PartialEq, Eq)]
pub struct UserId(pub String);

/// The post-quantum OpenPGP profile this library declares conformance to.
pub const OPENPGP_PQC_DRAFT: &'static str = "draft-ietf-openpgp-pqc-17";

/// What the provider reports about one key.
#[derive(Debug, Clone)]
pub struct KeyMeta {
    pub key_id: KeyId,
    pub user_id: Option<UserId>,
    pub algo: String,
    pub created_utc: Option<String>,
    pub has_secret: bool,
}

#[derive(Debug, Clone)]
pub struct KeyGenParams {
    pub user_id: UserId,
    pub algo: Option<String>,
    pub pqc_policy: PqcPolicy,
    pub pqc_level: PqcLevel,
    pub passphrase: Option<String>,
    pub allow_unprotected: bool,
}

#[derive(Debug, Clone)]
pub struct EncryptRequest {
    pub recipients: Vec<KeyId>,
    pub plaintext: Vec<u8>,
    pub armor: bool,
    pub pqc_policy: PqcPolicy,
    pub compat: bool,
}

#[derive(Debug, Clone)]
pub struct DecryptRequest {
    pub ciphertext: Vec<u8>,
    pub pqc_policy: PqcPolicy,
}

#[derive(Debug, Clone)]
pub struct SignRequest {
    pub signer: KeyId,
    pub message: Vec<u8>,
    pub armor: bool,
    pub cleartext: bool,
    pub pqc_policy: PqcPolicy,
}

#[derive(Debug, Clone)]
pub struct VerifyRequest {
    pub message: Vec<u8>,
    pub signature: Vec<u8>,
    pub cleartext: bool,
    pub pqc_policy: PqcPolicy,
}

/// Outcome of a verification; `message` is present only for signatures that
/// embed the signed text.
#[derive(Debug, Clone)]
pub struct VerifyResult {
    pub valid: bool,
    pub signer: Option<KeyId>,
    pub message: Option<Vec<u8>>,
}

#[derive(Debug, Clone, Copy, PartialEq, Eq, Structural)]
pub enum RevocationReason {
    Unspecified,
    KeyCompromised,
    KeySuperseded,
    KeyRetired,
    UserIdInvalid,
}

/// The OpenPGP reason-for-revocation code of each reason.
pub open spec fn reason_code(r: RevocationReason) -> u8 {
    match r {
        RevocationReason::Unspecified => 0,
        RevocationReason::KeySuperseded => 1,
        RevocationReason::KeyCompromised => 2,
        RevocationReason::KeyRetired => 3,
        RevocationReason::UserIdInvalid => 32,
    }
}

impl RevocationReason {
    /// The standard reason-for-revocation code this reason is written as.
    pub fn code(&self) -> (r: u8)
        ensures
            r == reason_code(*self),
    {
        match self {
            RevocationReason::Unspecified => 0,
            RevocationReason::KeySuperseded => 1,
            RevocationReason::KeyCompromised => 2,
            RevocationReason::KeyRetired => 3,
            RevocationReason::UserIdInvalid => 32,
        }
    }
}

/// Distinct reasons are written as distinct codes.
pub proof fn lemma_reason_code_injective(a: RevocationReason, b: RevocationReason)
    ensures
        reason_code(a) == reason_code(b) ==> a == b,
{
}

#[derive(Debug, Clone)]
pub struct RevokeRequest {
    pub key_id: KeyId,
    pub reason: RevocationReason,
    pub message: Option<String>,
    pub armor: bool,
}

#[derive(Debug, Clone)]
pub struct RevokeResult {
    pub updated_cert: Vec<u8>,
}

#[derive(Debug, Clone)]
pub struct RotateRequest {
    pub key_id: KeyId,
    pub new_user_id: Option<UserId>,
    pub pqc_policy: PqcPolicy,
    pub pqc_level: PqcLevel,
    pub passphrase: Option<String>,
    pub allow_unprotected: bool,
    pub revoke_old: bool,
}

/// The replacement key, and whether the superseded key was revoked.
#[derive(Debug, Clone)]
pub struct RotateResult {
    pub new_key: KeyMeta,
    pub old_key_revoked: bool,
}

} // verus!
