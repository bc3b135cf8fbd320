use vstd::prelude::*;
use vstd::string::{StrSliceExecFns, StringExecFns};
use crate::error::QpgpError;
use crate::model::{KeyId, PqcLevel, PqcPolicy, RevocationReason, UserId};

verus! {

pub const FINGERPRINT_FORMAT: &'static str = "fingerprint must be 40 or 64 hex characters";

pub const FULL_FINGERPRINT_REQUIRED: &'static str = "full fingerprint required";

pub const SIGNER_REQUIRED: &'static str = "verify requires --signer";

pub const HOME_NOT_ABSOLUTE: &'static str = "ENCRYPTO_HOME must be an absolute path";

pub const EMPTY_USER_ID: &'static str = "user id must not be empty";

pub const UNKNOWN_POLICY: &'static str = "pqc policy must be disabled, preferred or required";

pub const UNKNOWN_LEVEL: &'static str = "pqc level must be baseline or high";

pub const UNKNOWN_REASON: &'static str =
    "revocation reason must be unspecified, compromised, superseded, retired or uid-invalid";

/// `e` is an input error whose detail is exactly `msg`.
pub open spec fn is_input_error(e: QpgpError, msg: Seq<char>) -> bool {
    e matches QpgpError::InvalidInput(m) && m@ == msg
}

pub open spec fn is_hex_char(c: char) -> bool {
    ('0' <= c && c <= '9') || ('a' <= c && c <= 'f') || ('A' <= c && c <= 'F')
}

/// A full fingerprint: 40 hex digits (160 bits) or 64 (256 bits).
pub open spec fn is_fingerprint(s: Seq<char>) -> bool {
    (s.len() == 40 || s.len() == 64) && forall|i: int| 0 <= i < s.len() ==> #[trigger] is_hex_char(s[i])
}

/// An absolute path starts at the root.
pub open spec fn is_absolute_path(s: Seq<char>) -> bool {
    s.len() > 0 && s[0] == '/'
}

fn input_error(msg: &'static str) -> (e: QpgpError)
    ensures
        is_input_error(e, msg@),
{
    QpgpError::InvalidInput(String::from_str(msg))
}

fn is_hex_digit(c: char) -> (r: bool)
    ensures
        r == is_hex_char(c),
{
    ('0' <= c && c <= '9') || ('a' <= c && c <= 'f') || ('A' <= c && c <= 'F')
}

/// Whether `s` has the shape of a full fingerprint.
pub fn is_full_fingerprint(s: &str) -> (r: bool)
    ensures
        r == is_fingerprint(s@),
{
    let n = s.unicode_len();
    if n != 40 && n != 64 {
        return false;
    }
    let mut i: usize = 0;
    while i < n
        invariant
            n == s@.len(),
            i <= n,
            forall|j: int| 0 <= j < i ==> #[trigger] is_hex_char(s@[j]),
        decreases n - i,
    {
        if !is_hex_digit(s.get_char(i)) {
            return false;
        }
        i = i + 1;
    }
    true
}

/// Accepts exactly the full fingerprints, as a key selector.
pub fn validate_fingerprint(s: &str) -> (r: Result<KeyId, QpgpError>)
    ensures
        is_fingerprint(s@) <==> r is Ok,
        r matches Ok(k) ==> k.0@ == s@,
        r matches Err(e) ==> is_input_error(e, FINGERPRINT_FORMAT@),
{
    if is_full_fingerprint(s) {
        Ok(KeyId(String::from_str(s)))
    } else {
        Err(input_error(FINGERPRINT_FORMAT))
    }
}

/// A recipient must be named by its full fingerprint: a short form could
/// match a stale or planted key.
pub fn validate_recipient(s: &str) -> (r: Result<KeyId, QpgpError>)
    ensures
        is_fingerprint(s@) <==> r is Ok,
        r matches Ok(k) ==> k.0@ == s@,
        r matches Err(e) ==> is_input_error(e, FULL_FINGERPRINT_REQUIRED@),
{
    if is_full_fingerprint(s) {
        Ok(KeyId(String::from_str(s)))
    } else {
        Err(input_error(FULL_FINGERPRINT_REQUIRED))
    }
}

/// A selector shorter than a full fingerprint is never one.
pub proof fn law_short_selector_not_full(s: Seq<char>)
    requires
        s.len() < 40,
    ensures
        !is_fingerprint(s),
{
}

/// Checks every recipient of an encryption; the first that is not a full
/// fingerprint fails the request.
pub fn validate_recipients(recipients: &Vec<KeyId>) -> (r: Result<(), QpgpError>)
    ensures
        r is Ok <==> forall|i: int| 0 <= i < recipients@.len() ==> is_fingerprint(#[trigger] recipients@[i].0@),
        r matches Err(e) ==> is_input_error(e, FULL_FINGERPRINT_REQUIRED@),
{
    let mut i: usize = 0;
    while i < recipients.len()
        invariant
            i <= recipients@.len(),
            forall|j: int| 0 <= j < i ==> is_fingerprint(#[trigger] recipients@[j].0@),
        decreases recipients@.len() - i,
    {
        if !is_full_fingerprint(recipients[i].0.as_str()) {
            return Err(input_error(FULL_FINGERPRINT_REQUIRED));
        }
        i = i + 1;
    }
    Ok(())
}

/// `verify` needs an explicit signer, given as a full fingerprint.
pub fn require_signer(signer: Option<&str>) -> (r: Result<KeyId, QpgpError>)
    ensures
        signer is None ==> (r matches Err(e) && is_input_error(e, SIGNER_REQUIRED@)),
        signer matches Some(s) ==> (is_fingerprint(s@) <==> r is Ok),
        signer matches Some(s) ==> (r matches Ok(k) ==> k.0@ == s@),
        signer matches Some(s) ==> (r matches Err(e) ==> is_input_error(e, FINGERPRINT_FORMAT@)),
{
    match signer {
        None => Err(input_error(SIGNER_REQUIRED)),
        Some(s) => validate_fingerprint(s),
    }
}

/// The storage root must be an absolute path; checked before any storage is
/// touched.
pub fn validate_home(path: &str) -> (r: Result<(), QpgpError>)
    ensures
        is_absolute_path(path@) <==> r is Ok,
        r matches Err(e) ==> is_input_error(e, HOME_NOT_ABSOLUTE@),
{
    if path.unicode_len() > 0 && path.get_char(0) == '/' {
        Ok(())
    } else {
        Err(input_error(HOME_NOT_ABSOLUTE))
    }
}

/// A key's identity must not be empty.
pub fn validate_user_id(s: &str) -> (r: Result<UserId, QpgpError>)
    ensures
        s@.len() > 0 <==> r is Ok,
        r matches Ok(u) ==> u.0@ == s@,
        r matches Err(e) ==> is_input_error(e, EMPTY_USER_ID@),
{
    if s.unicode_len() > 0 {
        Ok(UserId(String::from_str(s)))
    } else {
        Err(input_error(EMPTY_USER_ID))
    }
}

/// Character-for-character equality of two strings.
pub fn same_text(a: &str, b: &str) -> (r: bool)
    ensures
        r == (a@ == b@),
{
    let n = a.unicode_len();
    if n != b.unicode_len() {
        return false;
    }
    let mut i: usize = 0;
    while i < n
        invariant
            n == a@.len(),
            n == b@.len(),
            i <= n,
            forall|j: int| 0 <= j < i ==> a@[j] == b@[j],
        decreases n - i,
    {
        if a.get_char(i) != b.get_char(i) {
            return false;
        }
        i = i + 1;
    }
    assert(a@ =~= b@);
    true
}

pub open spec fn policy_named(s: Seq<char>) -> Option<PqcPolicy> {
    if s == "disabled"@ {
        Some(PqcPolicy::Disabled)
    } else if s == "preferred"@ {
        Some(PqcPolicy::Preferred)
    } else if s == "required"@ {
        Some(PqcPolicy::Required)
    } else {
        None
    }
}

pub open spec fn level_named(s: Seq<char>) -> Option<PqcLevel> {
    if s == "baseline"@ {
        Some(PqcLevel::Baseline)
    } else if s == "high"@ {
        Some(PqcLevel::High)
    } else {
        None
    }
}

pub open spec fn reason_named(s: Seq<char>) -> Option<RevocationReason> {
    if s == "unspecified"@ {
        Some(RevocationReason::Unspecified)
    } else if s == "compromised"@ {
        Some(RevocationReason::KeyCompromised)
    } else if s == "superseded"@ {
        Some(RevocationReason::KeySuperseded)
    } else if s == "retired"@ {
        Some(RevocationReason::KeyRetired)
    } else if s == "uid-invalid"@ {
        Some(RevocationReason::UserIdInvalid)
    } else {
        None
    }
}

/// Reads a policy name: `disabled`, `preferred` or `required`.
pub fn parse_policy(s: &str) -> (r: Result<PqcPolicy, QpgpError>)
    ensures
        policy_named(s@) matches Some(p) ==> r == Ok::<PqcPolicy, QpgpError>(p),
        policy_named(s@) is None ==> (r matches Err(e) && is_input_error(e, UNKNOWN_POLICY@)),
{
    if same_text(s, "disabled") {
        Ok(PqcPolicy::Disabled)
    } else if same_text(s, "preferred") {
        Ok(PqcPolicy::Preferred)
    } else if same_text(s, "required") {
        Ok(PqcPolicy::Required)
    } else {
        Err(input_error(UNKNOWN_POLICY))
    }
}

/// Reads a level name: `baseline` or `high`.
pub fn parse_level(s: &str) -> (r: Result<PqcLevel, QpgpError>)
    ensures
        level_named(s@) matches Some(l) ==> r == Ok::<PqcLevel, QpgpError>(l),
        level_named(s@) is None ==> (r matches Err(e) && is_input_error(e, UNKNOWN_LEVEL@)),
{
    if same_text(s, "baseline") {
        Ok(PqcLevel::Baseline)
    } else if same_text(s, "high") {
        Ok(PqcLevel::High)
    } else {
        Err(input_error(UNKNOWN_LEVEL))
    }
}

/// Reads a revocation reason from the closed set of names.
pub fn parse_reason(s: &str) -> (r: Result<RevocationReason, QpgpError>)
    ensures
        reason_named(s@) matches Some(x) ==> r == Ok::<RevocationReason, QpgpError>(x),
        reason_named(s@) is None ==> (r matches Err(e) && is_input_error(e, UNKNOWN_REASON@)),
{
    if same_text(s, "unspecified") {
        Ok(RevocationReason::Unspecified)
    } else if same_text(s, "compromised") {
        Ok(RevocationReason::KeyCompromised)
    } else if same_text(s, "superseded") {
        Ok(RevocationReason::KeySuperseded)
    } else if same_text(s, "retired") {
        Ok(RevocationReason::KeyRetired)
    } else if same_text(s, "uid-invalid") {
        Ok(RevocationReason::UserIdInvalid)
    } else {
        Err(input_error(UNKNOWN_REASON))
    }
}

} // verus!
