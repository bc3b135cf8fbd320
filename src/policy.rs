use vstd::prelude::*;
use crate::error::QpgpError;
use crate::model::{PqcLevel, PqcPolicy};

verus! {

/// The algorithm tier an operation runs with.
#[derive(Debug, Clone, Copy, PartialEq, Eq, Structural)]
pub enum AlgorithmFamily {
    Classical,
    PostQuantum,
}

/// The detail carried by the capability error of a refused downgrade.
pub const PQC_UNAVAILABLE: &'static str = "post-quantum algorithms are not available in this backend";

/// The decision table: the tier a policy selects on a provider with or
/// without post-quantum support, or `None` where the policy cannot be met.
pub open spec fn family_for(policy: PqcPolicy, supports_pqc: bool) -> Option<AlgorithmFamily> {
    match policy {
        PqcPolicy::Disabled => Some(AlgorithmFamily::Classical),
        PqcPolicy::Preferred => if supports_pqc {
            Some(AlgorithmFamily::PostQuantum)
        } else {
            Some(AlgorithmFamily::Classical)
        },
        PqcPolicy::Required => if supports_pqc {
            Some(AlgorithmFamily::PostQuantum)
        } else {
            None
        },
    }
}

/// Applies the decision table; a policy that cannot be met is a capability
/// error, never a silent downgrade.
pub fn resolve_family(policy: PqcPolicy, supports_pqc: bool) -> (r: Result<
    AlgorithmFamily,
    QpgpError,
>)
    ensures
        family_for(policy, supports_pqc) matches Some(f) ==> r == Ok::<AlgorithmFamily, QpgpError>(f),
        family_for(policy, supports_pqc) is None ==> r == Err::<AlgorithmFamily, QpgpError>(
            QpgpError::NotImplemented(PQC_UNAVAILABLE),
        ),
{
    match policy {
        PqcPolicy::Disabled => Ok(AlgorithmFamily::Classical),
        PqcPolicy::Preferred => if supports_pqc {
            Ok(AlgorithmFamily::PostQuantum)
        } else {
            Ok(AlgorithmFamily::Classical)
        },
        PqcPolicy::Required => if supports_pqc {
            Ok(AlgorithmFamily::PostQuantum)
        } else {
            Err(QpgpError::not_implemented(PQC_UNAVAILABLE))
        },
    }
}

/// `Required` on a provider without post-quantum support is always refused.
pub proof fn law_required_never_downgrades(supports_pqc: bool)
    requires
        !supports_pqc,
    ensures
        family_for(PqcPolicy::Required, supports_pqc) is None,
{
}

/// `Preferred` never fails for want of capability: it follows the provider's
/// flag, post-quantum when it is set and classical otherwise.
pub proof fn law_preferred_follows_capability(supports_pqc: bool)
    ensures
        family_for(PqcPolicy::Preferred, supports_pqc) == Some(
            if supports_pqc {
                AlgorithmFamily::PostQuantum
            } else {
                AlgorithmFamily::Classical
            },
        ),
{
}

/// `Disabled` selects classical algorithms whatever the provider offers.
pub proof fn law_disabled_is_classical(supports_pqc: bool)
    ensures
        family_for(PqcPolicy::Disabled, supports_pqc) == Some(AlgorithmFamily::Classical),
{
}

/// The key profile a generation produces.
#[derive(Debug, Clone, Copy, PartialEq, Eq, Structural)]
pub enum KeyProfile {
    Classical,
    PqcBaseline,
    PqcHigh,
}

pub open spec fn profile_for(family: AlgorithmFamily, level: PqcLevel) -> KeyProfile {
    match family {
        AlgorithmFamily::Classical => KeyProfile::Classical,
        AlgorithmFamily::PostQuantum => match level {
            PqcLevel::Baseline => KeyProfile::PqcBaseline,
            PqcLevel::High => KeyProfile::PqcHigh,
        },
    }
}

pub open spec fn profile_label(p: KeyProfile) -> Seq<char> {
    match p {
        KeyProfile::Classical => "Ed25519"@,
        KeyProfile::PqcBaseline => "MLDSA65_Ed25519"@,
        KeyProfile::PqcHigh => "MLDSA87_Ed448"@,
    }
}

/// The profile of a key generated in the given tier; the level matters only
/// for post-quantum keys.
pub fn key_profile(family: AlgorithmFamily, level: PqcLevel) -> (r: KeyProfile)
    ensures
        r == profile_for(family, level),
{
    match family {
        AlgorithmFamily::Classical => KeyProfile::Classical,
        AlgorithmFamily::PostQuantum => match level {
            PqcLevel::Baseline => KeyProfile::PqcBaseline,
            PqcLevel::High => KeyProfile::PqcHigh,
        },
    }
}

impl KeyProfile {
    /// The algorithm label a key of this profile is listed with.
    pub fn label(&self) -> (r: &'static str)
        ensures
            r@ == profile_label(*self),
    {
        match self {
            KeyProfile::Classical => "Ed25519",
            KeyProfile::PqcBaseline => "MLDSA65_Ed25519",
            KeyProfile::PqcHigh => "MLDSA87_Ed448",
        }
    }
}

} // verus!
