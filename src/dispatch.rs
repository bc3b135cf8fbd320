use vstd::prelude::*;
use vstd::string::{StrSliceExecFns, StringExecFns};
use crate::backend::Backend;
use crate::error::QpgpError;
use crate::model::{
    DecryptRequest, EncryptRequest, KeyGenParams, KeyId, KeyMeta, PqcLevel, PqcPolicy,
    RotateRequest, RotateResult, SignRequest, UserId, VerifyRequest, VerifyResult,
};
use crate::policy::{
    family_for, key_profile, profile_for, profile_label, resolve_family, KeyProfile,
    PQC_UNAVAILABLE,
};
use crate::validate::{
    is_fingerprint, is_input_error, level_named, parse_level, parse_policy, policy_named,
    require_signer, validate_recipients, validate_user_id, EMPTY_USER_ID, FINGERPRINT_FORMAT,
    FULL_FINGERPRINT_REQUIRED, SIGNER_REQUIRED, UNKNOWN_LEVEL, UNKNOWN_POLICY,
};

verus! {

pub const PASSPHRASE_REQUIRED: &'static str =
    "a passphrase is required unless unprotected keys are allowed";

pub const NO_MATCHING_KEY: &'static str = "no key matches the selector";

pub const AMBIGUOUS_SELECTOR: &'static str = "selector matches more than one key";

pub const NO_SECRET_MATERIAL: &'static str = "key has no secret material";

pub const UNREQUESTED_REVOCATION: &'static str =
    "backend revoked the old key although no revocation was requested";

/// `e` is the capability error of a policy the provider cannot meet.
pub open spec fn is_pqc_refusal(e: QpgpError) -> bool {
    e == QpgpError::NotImplemented(PQC_UNAVAILABLE)
}

/// A secret key is protected by a passphrase unless the caller opted out.
pub open spec fn protection_ok(passphrase: Option<String>, allow_unprotected: bool) -> bool {
    passphrase is Some || allow_unprotected
}

pub open spec fn selects(keys: Seq<KeyMeta>, selector: Seq<char>, i: int) -> bool {
    keys[i].key_id.0@ == selector
}

/// Position `i` holds the only key whose id is the selector.
pub open spec fn unique_match(keys: Seq<KeyMeta>, selector: Seq<char>, i: int) -> bool {
    0 <= i < keys.len() && selects(keys, selector, i) && forall|j: int|
        0 <= j < keys.len() && j != i ==> !#[trigger] selects(keys, selector, j)
}

/// Finds the one key whose id is byte-for-byte the selector. No match and
/// several matches are both errors: a selector never picks one of many.
pub fn resolve_key(keys: &Vec<KeyMeta>, selector: &KeyId) -> (r: Result<usize, QpgpError>)
    ensures
        r matches Ok(i) ==> unique_match(keys@, selector.0@, i as int),
        forall|i: int| #[trigger]
            unique_match(keys@, selector.0@, i) ==> r == Ok::<usize, QpgpError>(i as usize),
        r matches Err(e) ==> (is_input_error(e, NO_MATCHING_KEY@) && forall|j: int|
            0 <= j < keys@.len() ==> !#[trigger] selects(keys@, selector.0@, j)) || (
        is_input_error(e, AMBIGUOUS_SELECTOR@) && exists|a: int, b: int|
            0 <= a < b < keys@.len() && #[trigger] selects(keys@, selector.0@, a)
                && #[trigger] selects(keys@, selector.0@, b)),
{
    let mut found: Option<usize> = None;
    let mut i: usize = 0;
    while i < keys.len()
        invariant
            i <= keys@.len(),
            found matches Some(f) ==> f < i && selects(keys@, selector.0@, f as int) && forall|
                j: int,
            |
                0 <= j < i && j != f ==> !#[trigger] selects(keys@, selector.0@, j),
            found is None ==> forall|j: int|
                0 <= j < i ==> !#[trigger] selects(keys@, selector.0@, j),
        decreases keys@.len() - i,
    {
        if keys[i].key_id.0 == selector.0 {
            match found {
                Some(f) => {
                    assert(selects(keys@, selector.0@, f as int));
                    assert(selects(keys@, selector.0@, i as int));
                    assert forall|u: int| !#[trigger] unique_match(keys@, selector.0@, u) by {
                        if unique_match(keys@, selector.0@, u) {
                            if u == f {
                                assert(!selects(keys@, selector.0@, i as int));
                            } else {
                                assert(!selects(keys@, selector.0@, f as int));
                            }
                        }
                    }
                    return Err(QpgpError::InvalidInput(String::from_str(AMBIGUOUS_SELECTOR)));
                },
                None => {
                    found = Some(i);
                },
            }
        }
        i = i + 1;
    }
    match found {
        Some(f) => Ok(f),
        None => {
            assert forall|u: int| !#[trigger] unique_match(keys@, selector.0@, u) by {
                if unique_match(keys@, selector.0@, u) {
                    assert(selects(keys@, selector.0@, u));
                }
            }
            Err(QpgpError::InvalidInput(String::from_str(NO_MATCHING_KEY)))
        },
    }
}

/// Resolves the key to export; secret material cannot be exported from a
/// key that has none.
pub fn check_export(keys: &Vec<KeyMeta>, id: &KeyId, secret: bool) -> (r: Result<
    usize,
    QpgpError,
>)
    ensures
        r matches Ok(i) ==> unique_match(keys@, id.0@, i as int) && (secret
            ==> keys@[i as int].has_secret),
        forall|i: int| #[trigger]
            unique_match(keys@, id.0@, i) ==> if secret && !keys@[i].has_secret {
                r matches Err(e) && is_input_error(e, NO_SECRET_MATERIAL@)
            } else {
                r == Ok::<usize, QpgpError>(i as usize)
            },
{
    let i = resolve_key(keys, id)?;
    if secret && !keys[i].has_secret {
        return Err(QpgpError::InvalidInput(String::from_str(NO_SECRET_MATERIAL)));
    }
    Ok(i)
}

/// The checks of a key generation, in order: a non-empty identity, a
/// passphrase or an explicit opt-out, then the policy against the provider.
/// On success, the profile of the key to create.
pub fn plan_key_generation(params: &KeyGenParams, supports_pqc: bool) -> (r: Result<
    KeyProfile,
    QpgpError,
>)
    ensures
        params.user_id.0@.len() == 0 ==> (r matches Err(e) && is_input_error(e, EMPTY_USER_ID@)),
        params.user_id.0@.len() > 0 && !protection_ok(params.passphrase, params.allow_unprotected)
            ==> (r matches Err(e) && is_input_error(e, PASSPHRASE_REQUIRED@)),
        params.user_id.0@.len() > 0 && protection_ok(params.passphrase, params.allow_unprotected)
            ==> match family_for(params.pqc_policy, supports_pqc) {
            Some(f) => r == Ok::<KeyProfile, QpgpError>(profile_for(f, params.pqc_level)),
            None => r matches Err(e) && is_pqc_refusal(e),
        },
{
    if params.user_id.0.as_str().unicode_len() == 0 {
        return Err(QpgpError::InvalidInput(String::from_str(EMPTY_USER_ID)));
    }
    check_protection(&params.passphrase, params.allow_unprotected)?;
    let family = resolve_family(params.pqc_policy, supports_pqc)?;
    Ok(key_profile(family, params.pqc_level))
}

fn check_protection(passphrase: &Option<String>, allow_unprotected: bool) -> (r: Result<
    (),
    QpgpError,
>)
    ensures
        protection_ok(*passphrase, allow_unprotected) <==> r is Ok,
        r matches Err(e) ==> is_input_error(e, PASSPHRASE_REQUIRED@),
{
    if passphrase.is_none() && !allow_unprotected {
        Err(QpgpError::InvalidInput(String::from_str(PASSPHRASE_REQUIRED)))
    } else {
        Ok(())
    }
}

/// `p` is `params` with at most its algorithm filled in.
pub open spec fn keeps_request(p: KeyGenParams, params: KeyGenParams) -> bool {
    p.user_id == params.user_id && p.pqc_policy == params.pqc_policy && p.pqc_level
        == params.pqc_level && p.passphrase == params.passphrase && p.allow_unprotected
        == params.allow_unprotected && (params.algo is Some ==> p.algo == params.algo)
}

/// The request handed to the provider: after the checks of
/// `plan_key_generation`, a request without an explicit algorithm is given
/// the planned profile's label.
pub fn keygen_params(params: KeyGenParams, supports_pqc: bool) -> (r: Result<
    KeyGenParams,
    QpgpError,
>)
    ensures
        params.user_id.0@.len() == 0 ==> (r matches Err(e) && is_input_error(e, EMPTY_USER_ID@)),
        params.user_id.0@.len() > 0 && !protection_ok(params.passphrase, params.allow_unprotected)
            ==> (r matches Err(e) && is_input_error(e, PASSPHRASE_REQUIRED@)),
        params.user_id.0@.len() > 0 && protection_ok(params.passphrase, params.allow_unprotected)
            ==> match family_for(params.pqc_policy, supports_pqc) {
            Some(f) => r matches Ok(p) && keeps_request(p, params) && (params.algo is None ==> (
            p.algo matches Some(a) && a@ == profile_label(profile_for(f, params.pqc_level)))),
            None => r matches Err(e) && is_pqc_refusal(e),
        },
{
    let profile = plan_key_generation(&params, supports_pqc)?;
    let mut params = params;
    if params.algo.is_none() {
        params.algo = Some(String::from_str(profile.label()));
    }
    Ok(params)
}

/// Generates a key from the request that `keygen_params` builds.
pub fn generate_key<B: Backend>(backend: &B, params: KeyGenParams) -> (r: Result<
    KeyMeta,
    QpgpError,
>)
    ensures
        params.user_id.0@.len() == 0 ==> (r matches Err(e) && is_input_error(e, EMPTY_USER_ID@)),
        params.user_id.0@.len() > 0 && !protection_ok(params.passphrase, params.allow_unprotected)
            ==> (r matches Err(e) && is_input_error(e, PASSPHRASE_REQUIRED@)),
        params.user_id.0@.len() > 0 && protection_ok(params.passphrase, params.allow_unprotected)
            && family_for(params.pqc_policy, backend.pqc_capable()) is None ==> (r matches Err(e)
            && is_pqc_refusal(e)),
        r is Ok ==> params.user_id.0@.len() > 0 && protection_ok(
            params.passphrase,
            params.allow_unprotected,
        ) && family_for(params.pqc_policy, backend.pqc_capable()) is Some,
{
    let params = keygen_params(params, backend.supports_pqc())?;
    backend.generate_key(params)
}

/// Encrypts once every recipient is named by a full fingerprint and the
/// policy can be met.
pub fn encrypt<B: Backend>(backend: &B, req: EncryptRequest) -> (r: Result<Vec<u8>, QpgpError>)
    ensures
        !(forall|i: int|
            0 <= i < req.recipients@.len() ==> is_fingerprint(#[trigger] req.recipients@[i].0@))
            ==> (r matches Err(e) && is_input_error(e, FULL_FINGERPRINT_REQUIRED@)),
        (forall|i: int|
            0 <= i < req.recipients@.len() ==> is_fingerprint(#[trigger] req.recipients@[i].0@))
            && family_for(req.pqc_policy, backend.pqc_capable()) is None ==> (r matches Err(e)
            && is_pqc_refusal(e)),
        r is Ok ==> family_for(req.pqc_policy, backend.pqc_capable()) is Some,
{
    validate_recipients(&req.recipients)?;
    resolve_family(req.pqc_policy, backend.supports_pqc())?;
    backend.encrypt(req)
}

/// Decrypts once the policy can be met.
pub fn decrypt<B: Backend>(backend: &B, req: DecryptRequest) -> (r: Result<Vec<u8>, QpgpError>)
    ensures
        family_for(req.pqc_policy, backend.pqc_capable()) is None ==> (r matches Err(e)
            && is_pqc_refusal(e)),
        r is Ok ==> family_for(req.pqc_policy, backend.pqc_capable()) is Some,
{
    resolve_family(req.pqc_policy, backend.supports_pqc())?;
    backend.decrypt(req)
}

/// Signs once the policy can be met and the signer selector names exactly
/// one of the provider's keys.
pub fn sign<B: Backend>(backend: &B, req: SignRequest) -> (r: Result<Vec<u8>, QpgpError>)
    ensures
        family_for(req.pqc_policy, backend.pqc_capable()) is None ==> (r matches Err(e)
            && is_pqc_refusal(e)),
        r is Ok ==> family_for(req.pqc_policy, backend.pqc_capable()) is Some,
        r is Ok ==> exists|i: int| #[trigger]
            unique_match(backend.key_list()@, req.signer.0@, i),
{
    resolve_family(req.pqc_policy, backend.supports_pqc())?;
    let keys = backend.list_keys()?;
    resolve_key(&keys, &req.signer)?;
    backend.sign(req)
}

/// The signer a verification recovered, if any, is the one expected.
pub open spec fn signer_agrees(signer: Option<KeyId>, expected: Seq<char>) -> bool {
    match signer {
        Some(k) => k.0@ == expected,
        None => true,
    }
}

/// A signature made by another key than the one named is not valid for the
/// named signer.
pub fn check_signer(res: VerifyResult, expected: &KeyId) -> (r: VerifyResult)
    ensures
        r.valid == (res.valid && signer_agrees(res.signer, expected.0@)),
        r.signer == res.signer,
        r.message == res.message,
{
    let agrees = match &res.signer {
        Some(k) => k.0 == expected.0,
        None => true,
    };
    VerifyResult { valid: res.valid && agrees, signer: res.signer, message: res.message }
}

/// Verifies against an explicitly named signer: its absence, then its
/// format, then the policy are checked, and the signer must name exactly
/// one of the provider's keys, before the backend is asked. The result is
/// passed through `check_signer`.
pub fn verify<B: Backend>(backend: &B, signer: Option<&str>, req: VerifyRequest) -> (r: Result<
    VerifyResult,
    QpgpError,
>)
    ensures
        signer is None ==> (r matches Err(e) && is_input_error(e, SIGNER_REQUIRED@)),
        signer matches Some(s) && !is_fingerprint(s@) ==> (r matches Err(e) && is_input_error(
            e,
            FINGERPRINT_FORMAT@,
        )),
        signer matches Some(s) && is_fingerprint(s@) && family_for(
            req.pqc_policy,
            backend.pqc_capable(),
        ) is None ==> (r matches Err(e) && is_pqc_refusal(e)),
        r is Ok ==> (signer matches Some(s) && is_fingerprint(s@) && family_for(
            req.pqc_policy,
            backend.pqc_capable(),
        ) is Some && exists|i: int| #[trigger] unique_match(backend.key_list()@, s@, i)),
        r matches Ok(v) ==> (signer matches Some(s) && (v.valid ==> signer_agrees(v.signer, s@))),
{
    let expected = require_signer(signer)?;
    resolve_family(req.pqc_policy, backend.supports_pqc())?;
    let keys = backend.list_keys()?;
    resolve_key(&keys, &expected)?;
    let res = backend.verify(req)?;
    Ok(check_signer(res, &expected))
}

/// Exports a key after resolving the selector against the provider's list;
/// a secret export of a key without secret material is refused.
pub fn export_key<B: Backend>(backend: &B, id: &KeyId, secret: bool, armor: bool) -> (r: Result<
    Vec<u8>,
    QpgpError,
>)
    ensures
        r is Ok ==> exists|i: int| #[trigger]
            unique_match(backend.key_list()@, id.0@, i) && (secret
                ==> backend.key_list()@[i].has_secret),
{
    let keys = backend.list_keys()?;
    check_export(&keys, id, secret)?;
    backend.export_key(id, secret, armor)
}

/// A replacement identity, when one is given, is not empty.
pub open spec fn new_user_id_ok(new_user_id: Option<UserId>) -> bool {
    match new_user_id {
        Some(u) => u.0@.len() > 0,
        None => true,
    }
}

/// Accepts the provider's rotation outcome unless it reports a revocation
/// that was not asked for.
pub fn check_rotation(res: RotateResult, revoke_old: bool) -> (r: Result<RotateResult, QpgpError>)
    ensures
        res.old_key_revoked && !revoke_old ==> (r matches Err(e) && e matches QpgpError::Backend(m)
            && m@ == UNREQUESTED_REVOCATION@),
        !(res.old_key_revoked && !revoke_old) ==> r == Ok::<RotateResult, QpgpError>(res),
{
    if res.old_key_revoked && !revoke_old {
        Err(QpgpError::Backend(String::from_str(UNREQUESTED_REVOCATION)))
    } else {
        Ok(res)
    }
}

/// Rotates a key after the checks of its replacement: a non-empty new
/// identity if one is given, a passphrase or opt-out, then the policy. The
/// provider's outcome passes through `check_rotation`.
pub fn rotate_key<B: Backend>(backend: &B, req: RotateRequest) -> (r: Result<
    RotateResult,
    QpgpError,
>)
    ensures
        !new_user_id_ok(req.new_user_id) ==> (r matches Err(e) && is_input_error(
            e,
            EMPTY_USER_ID@,
        )),
        new_user_id_ok(req.new_user_id) && !protection_ok(req.passphrase, req.allow_unprotected)
            ==> (r matches Err(e) && is_input_error(e, PASSPHRASE_REQUIRED@)),
        new_user_id_ok(req.new_user_id) && protection_ok(req.passphrase, req.allow_unprotected)
            && family_for(req.pqc_policy, backend.pqc_capable()) is None ==> (r matches Err(e)
            && is_pqc_refusal(e)),
        r is Ok ==> new_user_id_ok(req.new_user_id) && protection_ok(
            req.passphrase,
            req.allow_unprotected,
        ) && family_for(req.pqc_policy, backend.pqc_capable()) is Some,
        r matches Ok(res) ==> (res.old_key_revoked ==> req.revoke_old),
{
    match &req.new_user_id {
        Some(u) => {
            if u.0.as_str().unicode_len() == 0 {
                return Err(QpgpError::InvalidInput(String::from_str(EMPTY_USER_ID)));
            }
        },
        None => {},
    }
    check_protection(&req.passphrase, req.allow_unprotected)?;
    resolve_family(req.pqc_policy, backend.supports_pqc())?;
    let revoke_old = req.revoke_old;
    let res = backend.rotate_key(req)?;
    check_rotation(res, revoke_old)
}

/// The process exit status of a command: zero exactly on success.
pub fn exit_status(succeeded: bool) -> (code: i32)
    ensures
        succeeded <==> code == 0,
{
    if succeeded {
        0
    } else {
        1
    }
}

/// The exit status of `verify`: zero only for a signature found valid.
pub fn verify_exit_status(r: &Result<VerifyResult, QpgpError>) -> (code: i32)
    ensures
        code == 0 <==> (r matches Ok(v) && v.valid),
{
    match r {
        Ok(v) => exit_status(v.valid),
        Err(_) => exit_status(false),
    }
}

pub open spec fn policy_arg_ok(policy: Option<&str>) -> bool {
    match policy {
        Some(p) => policy_named(p@) is Some,
        None => true,
    }
}

pub open spec fn level_arg_ok(level: Option<&str>) -> bool {
    match level {
        Some(l) => level_named(l@) is Some,
        None => true,
    }
}

/// The request `keygen` builds from its arguments. Without `--pqc-policy`
/// the policy is `Required`; without `--pqc-level` the level is `High`;
/// `--no-passphrase` is the explicit opt-out of passphrase protection.
pub fn keygen_request(
    user_id: &str,
    passphrase: Option<String>,
    no_passphrase: bool,
    policy: Option<&str>,
    level: Option<&str>,
) -> (r: Result<KeyGenParams, QpgpError>)
    ensures
        user_id@.len() == 0 ==> (r matches Err(e) && is_input_error(e, EMPTY_USER_ID@)),
        user_id@.len() > 0 && !policy_arg_ok(policy) ==> (r matches Err(e) && is_input_error(
            e,
            UNKNOWN_POLICY@,
        )),
        user_id@.len() > 0 && policy_arg_ok(policy) && !level_arg_ok(level) ==> (r matches Err(e)
            && is_input_error(e, UNKNOWN_LEVEL@)),
        user_id@.len() > 0 && policy_arg_ok(policy) && level_arg_ok(level) ==> r is Ok,
        r matches Ok(k) ==> k.user_id.0@ == user_id@ && k.algo is None && k.passphrase == passphrase
            && k.allow_unprotected == no_passphrase && k.pqc_policy == (match policy {
            Some(p) => policy_named(p@).unwrap(),
            None => PqcPolicy::Required,
        }) && k.pqc_level == (match level {
            Some(l) => level_named(l@).unwrap(),
            None => PqcLevel::High,
        }),
{
    let uid = validate_user_id(user_id)?;
    let pqc_policy = match policy {
        Some(p) => parse_policy(p)?,
        None => PqcPolicy::default(),
    };
    let pqc_level = match level {
        Some(l) => parse_level(l)?,
        None => PqcLevel::High,
    };
    Ok(
        KeyGenParams {
            user_id: uid,
            algo: None,
            pqc_policy,
            pqc_level,
            passphrase,
            allow_unprotected: no_passphrase,
        },
    )
}

/// One line of `list-keys`: `sec` or `pub`, then the fingerprint, the
/// algorithm, the user id and the creation time, separated by `|`; an
/// absent field is empty.
pub open spec fn listing_line(m: KeyMeta) -> Seq<char> {
    (if m.has_secret {
        "sec"@
    } else {
        "pub"@
    }) + "|"@ + m.key_id.0@ + "|"@ + m.algo@ + "|"@ + (match m.user_id {
        Some(u) => u.0@,
        None => Seq::empty(),
    }) + "|"@ + (match m.created_utc {
        Some(c) => c@,
        None => Seq::empty(),
    })
}

pub fn list_line(meta: &KeyMeta) -> (r: String)
    ensures
        r@ == listing_line(*meta),
{
    let mut line = if meta.has_secret {
        String::from_str("sec")
    } else {
        String::from_str("pub")
    };
    line.append("|");
    line.append(meta.key_id.0.as_str());
    line.append("|");
    line.append(meta.algo.as_str());
    line.append("|");
    match &meta.user_id {
        Some(u) => line.append(u.0.as_str()),
        None => {},
    }
    line.append("|");
    match &meta.created_utc {
        Some(c) => line.append(c.as_str()),
        None => {},
    }
    proof {
        assert(line@ =~= listing_line(*meta));
    }
    line
}

} // verus!
