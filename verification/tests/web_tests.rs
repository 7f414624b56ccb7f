use easyvault::error::AppError;
use easyvault::vault::Role;
use easyvault::web::{
    Guard, Need, VaultGate, access_denied_notice, guard, master_only_notice, not_found_notice, sealed_notice, vault_gate,
    Access, GuiRoot, ShareReply, ThrottleEntry, UnsealScreen, assign_role, check_secret_data, client_ip, form_count,
    gui_entry, gui_root_step, lines_to_vec, locked_message, login_key, record_failure, secret_location,
    share_reply, tokens_location, ttl_seconds, unseal_screen, vault_location, MINUTE_NANOS,
};

fn bad(e: AppError, msg: &str) {
    match e {
        AppError::BadRequest(m) => assert_eq!(m, msg),
        other => panic!("unexpected {other:?}"),
    }
}

#[test]
fn access_capabilities() {
    let blind = Access { is_master: true, role: None };
    assert!(!blind.can_read() && !blind.can_write() && blind.can_assign() && blind.can_view());
    let viewer = Access { is_master: false, role: Some(Role::Viewer) };
    assert!(viewer.can_read() && !viewer.can_write() && !viewer.can_assign() && viewer.can_view());
    let editor = Access { is_master: false, role: Some(Role::Editor) };
    assert!(editor.can_read() && editor.can_write() && !editor.can_assign());
    let admin = Access { is_master: false, role: Some(Role::Admin) };
    assert!(admin.can_read() && admin.can_write() && admin.can_assign() && admin.can_view());
    let stranger = Access { is_master: false, role: None };
    assert!(!stranger.can_read() && !stranger.can_write() && !stranger.can_assign() && !stranger.can_view());
}

#[test]
fn textarea_lines() {
    assert_eq!(lines_to_vec("db/*\n\n  app/key \r\n"), vec!["db/*".to_string(), "app/key".to_string()]);
    assert!(lines_to_vec(" \n ").is_empty());
}

#[test]
fn init_form_counts() {
    assert_eq!(form_count(" 7 ", 5), 7);
    assert_eq!(form_count("", 5), 5);
    assert_eq!(form_count("300", 3), 3);
    assert_eq!(form_count("x", 3), 3);
}

#[test]
fn ttl_field() {
    assert_eq!(ttl_seconds("  ").unwrap(), None);
    assert_eq!(ttl_seconds(" 2 ").unwrap(), Some(7200));
    bad(ttl_seconds("0").unwrap_err(), "TTL must be a positive number of hours.");
    bad(ttl_seconds("-3").unwrap_err(), "TTL must be a positive number of hours.");
    bad(ttl_seconds("soon").unwrap_err(), "TTL must be a positive number of hours.");
}

#[test]
fn assign_form_role() {
    assert_eq!(assign_role(" editor ").unwrap(), Role::Editor);
    bad(assign_role("owner").unwrap_err(), "Invalid role.");
}

#[test]
fn forwarded_for_first_hop() {
    assert_eq!(client_ip(Some(" 203.0.113.7 , 10.0.0.1")), Some("203.0.113.7".to_string()));
    assert_eq!(client_ip(Some("198.51.100.2")), Some("198.51.100.2".to_string()));
    assert_eq!(client_ip(Some(" ,1.2.3.4")), None);
    assert_eq!(client_ip(Some("")), None);
    assert_eq!(client_ip(None), None);
}

#[test]
fn throttle_locks_after_max_failures() {
    let mut e = ThrottleEntry::default();
    let now = 1_000 * MINUTE_NANOS;
    for k in 1..5u32 {
        record_failure(&mut e, 5, 15, now);
        assert_eq!(e.failures, k);
        assert_eq!(e.locked_until, None);
    }
    record_failure(&mut e, 5, 15, now);
    assert_eq!(e.failures, 0);
    assert_eq!(e.locked_until, Some(now + 15 * MINUTE_NANOS));
    let msg = locked_message(Some(e), now).unwrap();
    assert_eq!(msg, "Too many failed attempts. Try again in about 16 minute(s).");
    let later = locked_message(Some(e), now + 14 * MINUTE_NANOS + 1);
    assert_eq!(later.unwrap(), "Too many failed attempts. Try again in about 1 minute(s).");
    assert_eq!(locked_message(Some(e), now + 15 * MINUTE_NANOS), None);
    assert_eq!(locked_message(None, now), None);
    assert_eq!(locked_message(Some(ThrottleEntry::default()), now), None);
}

#[test]
fn login_key_is_trimmed_lowercase() {
    assert_eq!(login_key("  Alice "), "alice");
    assert_eq!(login_key("ÉVE"), "éve");
}

#[test]
fn gui_root_routing() {
    assert_eq!(gui_root_step(false, true, 0, false), GuiRoot::Unseal);
    assert_eq!(gui_root_step(true, true, 3, true), GuiRoot::Unseal);
    assert_eq!(gui_root_step(true, false, 0, false), GuiRoot::Setup);
    assert_eq!(gui_root_step(true, false, 2, false), GuiRoot::Login);
    assert_eq!(gui_root_step(true, false, 2, true), GuiRoot::Dashboard);
}

#[test]
fn unseal_screens_and_replies() {
    assert_eq!(unseal_screen(false, true), UnsealScreen::InitForm);
    assert_eq!(unseal_screen(true, false), UnsealScreen::App);
    assert_eq!(unseal_screen(true, true), UnsealScreen::ShareForm);
    assert!(matches!(share_reply(Ok(()), false), Ok(ShareReply::App)));
    assert!(matches!(share_reply(Ok(()), true), Ok(ShareReply::ShareForm(None))));
    match share_reply(Err(AppError::BadRequest("share is not valid base64".into())), true) {
        Ok(ShareReply::ShareForm(Some(m))) => assert_eq!(m, "share is not valid base64"),
        other => panic!("unexpected {other:?}"),
    }
    assert!(matches!(share_reply(Err(AppError::Uninitialized), true), Err(AppError::Uninitialized)));
}

#[test]
fn redirect_targets() {
    assert_eq!(vault_location("v-1"), "/gui/vaults/v-1");
    assert_eq!(tokens_location("v-1"), "/gui/vaults/v-1/tokens");
    assert_eq!(secret_location("v-1", " db/pass word "), "/gui/vaults/v-1/secret?path=db%2Fpass%20word");
}

#[test]
fn secret_data_must_be_json() {
    assert!(check_secret_data(" {\"password\": \"s3cr3t\"} ").is_ok());
    assert!(check_secret_data("42").is_ok());
    bad(check_secret_data("{password}").unwrap_err(), "Data must be valid JSON (e.g. {\"password\":\"…\"}).");
}

#[test]
fn gui_audit_entries() {
    let e = gui_entry("GRANT", Some("v1"), None, "u1", "10.1.1.1", 200);
    assert_eq!(e.actor_type, "gui_session");
    assert_eq!(e.actor_hash, Some("u1"));
    assert_eq!(e.source_ip, Some("10.1.1.1"));
    assert_eq!(e.response_code, 200);
    assert_eq!(e.vault_id, Some("v1"));
    assert_eq!(e.path, None);
}

#[test]
fn request_guards() {
    assert_eq!(guard(false, true, true, true, false), Guard::Login);
    assert_eq!(guard(true, true, true, true, false), Guard::Sealed);
    assert_eq!(guard(true, false, true, true, false), Guard::NotMaster);
    assert_eq!(guard(true, true, false, true, true), Guard::Pass);
    assert_eq!(guard(true, false, true, false, false), Guard::Pass);
}

#[test]
fn vault_gates() {
    let viewer = Access { is_master: false, role: Some(Role::Viewer) };
    let blind = Access { is_master: true, role: None };
    assert_eq!(vault_gate(false, &viewer, Need::Read), VaultGate::NotFound);
    assert_eq!(vault_gate(true, &viewer, Need::Read), VaultGate::Allowed);
    assert_eq!(vault_gate(true, &viewer, Need::Write), VaultGate::Denied);
    assert_eq!(vault_gate(true, &blind, Need::Read), VaultGate::Denied);
    assert_eq!(vault_gate(true, &blind, Need::Assign), VaultGate::Allowed);
    assert_eq!(vault_gate(true, &blind, Need::View), VaultGate::Allowed);
}

#[test]
fn standard_notices() {
    assert!(sealed_notice("bob").contains("<h1>Instance sealed</h1>"));
    assert!(master_only_notice("bob").contains("Only the master user can perform this action."));
    assert!(not_found_notice("bob").contains("That vault does not exist."));
    assert!(access_denied_notice("bob").contains("<h1>Access denied</h1><p class=\"muted\">You do not have access to this vault.</p>"));
}

#[test]
fn long_lockouts_are_kept() {
    let mut e = ThrottleEntry::default();
    let now = 1_700_000_000i128 * 1_000_000_000;
    let minutes: u64 = 1_000_000_000; // about 1900 years
    record_failure(&mut e, 1, minutes, now);
    assert_eq!(e.locked_until, Some(now + minutes as i128 * MINUTE_NANOS));
    assert_eq!(
        locked_message(Some(e), now).unwrap(),
        "Too many failed attempts. Try again in about 1000000001 minute(s)."
    );
}
