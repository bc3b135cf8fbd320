use qpgp_core::dispatch::{check_export, exit_status, list_line, resolve_key};
use qpgp_core::policy::{key_profile, resolve_family, AlgorithmFamily, KeyProfile};
use qpgp_core::validate::{
    is_full_fingerprint, parse_level, parse_policy, parse_reason, require_signer, same_text,
    validate_fingerprint, validate_home, validate_recipient, validate_recipients,
    validate_user_id,
};
use qpgp_core::{KeyId, KeyMeta, PqcLevel, PqcPolicy, QpgpError, RevocationReason, UserId,
    OPENPGP_PQC_DRAFT};

const FPR_ERR: &str = "invalid input: fingerprint must be 40 or 64 hex characters";

fn meta(id: &str, secret: bool) -> KeyMeta {
    KeyMeta {
        key_id: KeyId(id.to_string()),
        user_id: None,
        algo: "Ed25519".to_string(),
        created_utc: None,
        has_secret: secret,
    }
}

#[test]
fn fingerprint_accepts_40_and_64_hex() {
    let f40 = "0123456789abcdefABCDEF0123456789abcdef01";
    assert_eq!(f40.len(), 40);
    assert_eq!(validate_fingerprint(f40).unwrap().0, f40);
    let f64 = "f".repeat(64);
    assert_eq!(validate_fingerprint(&f64).unwrap().0, f64);
}

#[test]
fn fingerprint_rejects_other_lengths() {
    for n in [0usize, 1, 8, 39, 41, 63, 65, 128] {
        let s = "a".repeat(n);
        assert_eq!(validate_fingerprint(&s).unwrap_err().to_string(), FPR_ERR, "length {n}");
    }
    assert_eq!(validate_fingerprint("deadbeef").unwrap_err().to_string(), FPR_ERR);
}

#[test]
fn fingerprint_rejects_non_hex() {
    let mut s = "a".repeat(39);
    s.push('g');
    assert!(!is_full_fingerprint(&s));
    let mut s = "a".repeat(63);
    s.push(' ');
    assert_eq!(validate_fingerprint(&s).unwrap_err().to_string(), FPR_ERR);
    let s = "é".repeat(40);
    assert!(validate_fingerprint(&s).is_err());
}

#[test]
fn recipient_must_be_full() {
    for s in ["", "short", "0123456789ABCDEF", &"a".repeat(39)] {
        assert_eq!(
            validate_recipient(s).unwrap_err().to_string(),
            "invalid input: full fingerprint required"
        );
    }
    assert!(validate_recipient(&"0".repeat(40)).is_ok());
    let ok = vec![KeyId("1".repeat(40)), KeyId("2".repeat(64))];
    assert!(validate_recipients(&ok).is_ok());
    let bad = vec![KeyId("1".repeat(40)), KeyId("22".into())];
    assert!(validate_recipients(&bad).is_err());
    assert!(validate_recipients(&Vec::new()).is_ok());
}

#[test]
fn signer_presence_then_format() {
    assert_eq!(
        require_signer(None).unwrap_err().to_string(),
        "invalid input: verify requires --signer"
    );
    assert_eq!(require_signer(Some("deadbeef")).unwrap_err().to_string(), FPR_ERR);
    let f = "C".repeat(40);
    assert_eq!(require_signer(Some(&f)).unwrap().0, f);
}

#[test]
fn home_must_be_absolute() {
    assert!(validate_home("/var/lib/qpgp").is_ok());
    assert!(validate_home("/").is_ok());
    for p in ["", "relative-home", "./x", "~/keys"] {
        assert_eq!(
            validate_home(p).unwrap_err().to_string(),
            "invalid input: ENCRYPTO_HOME must be an absolute path"
        );
    }
}

#[test]
fn user_id_must_not_be_empty() {
    assert_eq!(validate_user_id("A <a@b>").unwrap(), UserId("A <a@b>".into()));
    assert!(validate_user_id("").is_err());
}

#[test]
fn decision_table() {
    assert_eq!(resolve_family(PqcPolicy::Disabled, true).unwrap(), AlgorithmFamily::Classical);
    assert_eq!(resolve_family(PqcPolicy::Disabled, false).unwrap(), AlgorithmFamily::Classical);
    assert_eq!(resolve_family(PqcPolicy::Preferred, true).unwrap(), AlgorithmFamily::PostQuantum);
    assert_eq!(resolve_family(PqcPolicy::Preferred, false).unwrap(), AlgorithmFamily::Classical);
    assert_eq!(resolve_family(PqcPolicy::Required, true).unwrap(), AlgorithmFamily::PostQuantum);
    let err = resolve_family(PqcPolicy::Required, false).unwrap_err();
    assert!(matches!(err, QpgpError::NotImplemented(_)));
}

#[test]
fn profiles_and_labels() {
    assert_eq!(key_profile(AlgorithmFamily::Classical, PqcLevel::High), KeyProfile::Classical);
    assert_eq!(key_profile(AlgorithmFamily::PostQuantum, PqcLevel::Baseline), KeyProfile::PqcBaseline);
    assert_eq!(key_profile(AlgorithmFamily::PostQuantum, PqcLevel::High).label(), "MLDSA87_Ed448");
    assert_eq!(KeyProfile::PqcBaseline.label(), "MLDSA65_Ed25519");
    assert_eq!(KeyProfile::Classical.label(), "Ed25519");
}

#[test]
fn defaults_and_profile_name() {
    assert_eq!(PqcPolicy::default(), PqcPolicy::Required);
    assert_eq!(PqcLevel::default(), PqcLevel::Baseline);
    assert_eq!(OPENPGP_PQC_DRAFT, "draft-ietf-openpgp-pqc-17");
}

#[test]
fn option_names() {
    assert_eq!(parse_policy("disabled").unwrap(), PqcPolicy::Disabled);
    assert_eq!(parse_policy("preferred").unwrap(), PqcPolicy::Preferred);
    assert_eq!(parse_policy("required").unwrap(), PqcPolicy::Required);
    assert!(parse_policy("Required").is_err());
    assert_eq!(parse_level("baseline").unwrap(), PqcLevel::Baseline);
    assert_eq!(parse_level("high").unwrap(), PqcLevel::High);
    assert!(parse_level("").is_err());
    assert_eq!(parse_reason("compromised").unwrap(), RevocationReason::KeyCompromised);
    assert_eq!(parse_reason("uid-invalid").unwrap(), RevocationReason::UserIdInvalid);
    assert_eq!(
        parse_reason("lost").unwrap_err().to_string(),
        "invalid input: revocation reason must be unspecified, compromised, superseded, retired or uid-invalid"
    );
}

#[test]
fn revocation_codes() {
    assert_eq!(RevocationReason::Unspecified.code(), 0);
    assert_eq!(RevocationReason::KeySuperseded.code(), 1);
    assert_eq!(RevocationReason::KeyCompromised.code(), 2);
    assert_eq!(RevocationReason::KeyRetired.code(), 3);
    assert_eq!(RevocationReason::UserIdInvalid.code(), 32);
}

#[test]
fn text_equality() {
    assert!(same_text("abc", "abc"));
    assert!(!same_text("abc", "abd"));
    assert!(!same_text("abc", "ab"));
    assert!(same_text("", ""));
}

#[test]
fn selector_resolves_to_exactly_one_key() {
    let a = "A".repeat(40);
    let b = "B".repeat(40);
    let keys = vec![meta(&a, true), meta(&b, false)];
    assert_eq!(resolve_key(&keys, &KeyId(b.clone())).unwrap(), 1);
    assert_eq!(
        resolve_key(&keys, &KeyId("a".repeat(40))).unwrap_err().to_string(),
        "invalid input: no key matches the selector"
    );
    let dup = vec![meta(&a, true), meta(&b, false), meta(&a, false)];
    assert_eq!(
        resolve_key(&dup, &KeyId(a.clone())).unwrap_err().to_string(),
        "invalid input: selector matches more than one key"
    );
    assert!(resolve_key(&Vec::new(), &KeyId(a)).is_err());
}

#[test]
fn export_check_needs_secret_only_for_secret_export() {
    let a = "A".repeat(40);
    let keys = vec![meta(&a, false)];
    assert_eq!(check_export(&keys, &KeyId(a.clone()), false).unwrap(), 0);
    assert_eq!(
        check_export(&keys, &KeyId(a), true).unwrap_err().to_string(),
        "invalid input: key has no secret material"
    );
}

#[test]
fn listing_lines() {
    let mut m = meta(&"A".repeat(40), true);
    assert_eq!(list_line(&m), format!("sec|{}|Ed25519||", "A".repeat(40)));
    m.has_secret = false;
    m.user_id = Some(UserId("Bo <bo@x>".into()));
    m.created_utc = Some("2024-01-01T00:00:00Z".into());
    assert_eq!(
        list_line(&m),
        format!("pub|{}|Ed25519|Bo <bo@x>|2024-01-01T00:00:00Z", "A".repeat(40))
    );
}

#[test]
fn exit_codes() {
    assert_eq!(exit_status(true), 0);
    assert_ne!(exit_status(false), 0);
}

#[test]
fn key_id_short_and_full_forms() {
    assert!(KeyId("ab".repeat(20)).is_full());
    assert!(KeyId("AB".repeat(32)).is_full());
    assert!(!KeyId("DEADBEEF".into()).is_full());
    assert!(!KeyId("0123456789ABCDEF".into()).is_full());
}

#[test]
fn every_selector_shorter_than_full_is_rejected_for_encryption() {
    for n in 0..40 {
        let s = "F".repeat(n);
        assert!(validate_recipient(&s).is_err(), "length {n}");
    }
}
