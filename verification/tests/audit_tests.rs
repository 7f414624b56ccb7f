use easyvault::audit::{
    cutoff_at, new_request_id, prune_cutoff,
    AuditEntry, AuditRow, canonical, hmac_hex, new_audit_row, prune_enabled, retention_days_from,
    retention_setting, sign_audit_row, verify_row,
};

const MK: [u8; 32] = [7u8; 32];

#[test]
fn canonical_joins_fields_with_bars() {
    let c = canonical("req-1", "2024-01-01T00:00:00+00:00", "READ", Some("v1"), Some("db/pw"), "api_token", Some("t1"), Some("10.0.0.1"), 200);
    assert_eq!(c, "req-1|2024-01-01T00:00:00+00:00|READ|v1|db/pw|api_token|t1|10.0.0.1|200");
    let c2 = canonical("req-2", "ts", "SEAL", None, None, "", None, None, 0);
    assert_eq!(c2, "req-2|ts|SEAL||||||0");
}

#[test]
fn hmac_hex_known_answer() {
    let c = canonical("req-1", "2024-01-01T00:00:00+00:00", "READ", Some("v1"), Some("db/pw"), "api_token", Some("t1"), Some("10.0.0.1"), 200);
    assert_eq!(hmac_hex(&MK, &c), "7aa88abf2791dd0e61a42fd3459fb307e3c6438b0e6030b02eb390fafdbfb228");
    assert_eq!(hmac_hex(&MK, "req-2|ts|SEAL||||||0"), "b4380d6592bb04d82efa889000c981594ed711161a2f300254b224789516c5f3");
}

fn entry() -> AuditEntry<'static> {
    AuditEntry {
        operation: "WRITE",
        vault_id: Some("v1"),
        path: Some("db/pw"),
        actor_type: "gui_session",
        actor_hash: Some("u1"),
        source_ip: Some("127.0.0.1"),
        response_code: 200,
    }
}

#[test]
fn signed_row_verifies_and_tamper_is_detected() {
    let row = sign_audit_row(&MK, "req-9", "2024-05-05T10:00:00+00:00", &entry());
    assert_eq!(row.request_id, "req-9");
    assert_eq!(row.response_code, Some(200));
    assert!(verify_row(&MK, &row));
    let mut bad: AuditRow = row.clone();
    bad.path = Some("db/other".to_string());
    assert!(!verify_row(&MK, &bad));
    let mut bad2 = row.clone();
    bad2.response_code = Some(403);
    assert!(!verify_row(&MK, &bad2));
    assert!(!verify_row(&[8u8; 32], &row));
}

#[test]
fn fresh_row_verifies() {
    let row = new_audit_row(&MK, &entry()).unwrap();
    assert!(!row.request_id.is_empty());
    assert!(!row.timestamp.is_empty());
    assert!(verify_row(&MK, &row));
}

#[test]
fn missing_code_reads_as_zero() {
    let e = AuditEntry { response_code: 0, ..entry() };
    let mut row = sign_audit_row(&MK, "r", "t", &e);
    row.response_code = None;
    assert!(verify_row(&MK, &row));
}

#[test]
fn retention_round_trip() {
    assert_eq!(retention_days_from(None), 0);
    assert_eq!(retention_days_from(Some("30")), 30);
    assert_eq!(retention_days_from(Some("-4")), 0);
    assert_eq!(retention_days_from(Some("soon")), 0);
    assert_eq!(retention_setting(30), "30");
    assert_eq!(retention_setting(-2), "0");
    assert_eq!(retention_days_from(Some(&retention_setting(90))), 90);
    assert!(prune_enabled(1));
    assert!(!prune_enabled(0));
    assert!(!prune_enabled(-3));
}

#[test]
fn audit_hmac_detects_tampering() {
    let entry = AuditEntry {
        operation: "READ",
        vault_id: Some("v1"),
        path: Some("db/pg"),
        actor_type: "api_token",
        actor_hash: Some("tok1"),
        source_ip: Some("127.0.0.1"),
        response_code: 200,
    };
    let row = new_audit_row(&MK, &entry).unwrap();
    assert!(verify_row(&MK, &row));
    let mut tampered = row.clone();
    tampered.path = Some("HACKED".into());
    assert!(!verify_row(&MK, &tampered));
    assert!(!verify_row(&[42u8; 32], &row));
}

#[test]
fn audit_retention_prune() {
    // No stored setting: keep forever, pruning is a no-op.
    let days = retention_days_from(None);
    assert_eq!(days, 0);
    assert!(!prune_enabled(days));
    // A 30-day window is stored, read back, and enables pruning.
    let stored = retention_setting(30);
    let days = retention_days_from(Some(&stored));
    assert_eq!(days, 30);
    assert!(prune_enabled(days));
}

#[test]
fn fresh_row_id_and_time_formats() {
    let row = new_audit_row(&MK, &entry()).unwrap();
    let id = row.request_id.as_bytes();
    assert_eq!(id.len(), 36);
    for (i, c) in id.iter().enumerate() {
        if [8, 13, 18, 23].contains(&i) {
            assert_eq!(*c, b'-');
        } else {
            assert!(c.is_ascii_digit() || (b'a'..=b'f').contains(c));
        }
    }
    assert!(row.timestamp.ends_with("+00:00"));
    assert!(row.timestamp.contains('T'));
}

#[test]
fn hmac_hex_is_64_lowercase_hex_digits() {
    let h = hmac_hex(&MK, "anything");
    assert_eq!(h.len(), 64);
    assert!(h.chars().all(|c| c.is_ascii_digit() || ('a'..='f').contains(&c)));
}

#[test]
fn prune_cutoff_is_window_before_now() {
    assert_eq!(cutoff_at(1_700_000_000, 0, 30).unwrap(), "2023-10-15T22:13:20+00:00");
    assert_eq!(cutoff_at(1_700_000_000, 500_000_000, 1).unwrap(), "2023-11-13T22:13:20.500+00:00");
    assert_eq!(cutoff_at(5, 0, 100_000_000_000), None);
    let now = prune_cutoff(1).unwrap();
    assert!(now.ends_with("+00:00"));
}

#[test]
fn request_ids_are_fresh() {
    let a = new_request_id().unwrap();
    let b = new_request_id().unwrap();
    assert_eq!(a.len(), 36);
    assert_ne!(a, b);
}
