use easyvault::error::AppError;
use easyvault::vault::{
    AssignStep, AssignTarget, Role, acl_columns, acl_from_columns, assign_step, blob_nonce, blob_plaintext,
    escrow_material, member_key_material, role_from_stored, split_acl, stored_key, unwrapped_key, vault_description,
    vault_name, vault_name_taken,
};

fn strings(v: &[&str]) -> Vec<String> {
    v.iter().map(|s| s.to_string()).collect()
}

fn bad(e: AppError, msg: &str) {
    match e {
        AppError::BadRequest(m) => assert_eq!(m, msg),
        other => panic!("unexpected {other:?}"),
    }
}

fn internal(e: AppError, msg: &str) {
    match e {
        AppError::Internal(m) => assert_eq!(m, msg),
        other => panic!("unexpected {other:?}"),
    }
}

#[test]
fn roles_parse_and_print() {
    for (s, r) in [("viewer", Role::Viewer), ("editor", Role::Editor), ("admin", Role::Admin)] {
        assert_eq!(Role::parse(s), Some(r));
        assert_eq!(r.as_str(), s);
    }
    assert_eq!(Role::parse("Admin"), None);
    assert_eq!(Role::parse(""), None);
    assert_eq!(role_from_stored(Some("editor".into())), Some(Role::Editor));
    assert_eq!(role_from_stored(Some("owner".into())), None);
    assert_eq!(role_from_stored(None), None);
}

#[test]
fn role_capabilities() {
    assert!(Role::Viewer.can_read() && !Role::Viewer.can_write() && !Role::Viewer.can_assign());
    assert!(Role::Editor.can_read() && Role::Editor.can_write() && !Role::Editor.can_assign());
    assert!(Role::Admin.can_read() && Role::Admin.can_write() && Role::Admin.can_assign());
}

#[test]
fn vault_metadata_inputs() {
    assert_eq!(vault_name("  Team A ").unwrap(), "Team A");
    bad(vault_name("   ").unwrap_err(), "vault name is required");
    assert_eq!(vault_description(" ops "), Some("ops".to_string()));
    assert_eq!(vault_description(""), None);
    assert!(vault_name_taken(false).is_ok());
    bad(vault_name_taken(true).unwrap_err(), "a vault with that name already exists");
}

#[test]
fn acl_split_sorts_and_validates() {
    let (ips, subnets) = split_acl(&strings(&[" 10.0.0.1 ", "", "10.0.0.0/8", "::1", "fd00::/8"])).unwrap();
    assert_eq!(ips, strings(&["10.0.0.1", "::1"]));
    assert_eq!(subnets, strings(&["10.0.0.0/8", "fd00::/8"]));
    bad(split_acl(&strings(&["10.0.0.1", "300.1.1.1"])).unwrap_err(), "invalid IP: 300.1.1.1");
    bad(split_acl(&strings(&["10.0.0.0/99"])).unwrap_err(), "invalid CIDR: 10.0.0.0/99");
}

#[test]
fn acl_columns_round_trip() {
    let entries = strings(&["10.0.0.0/8", " 192.168.1.5 "]);
    let (a, b) = acl_columns(&entries).unwrap();
    assert_eq!(a, "[\"192.168.1.5\"]");
    assert_eq!(b, "[\"10.0.0.0/8\"]");
    let back = acl_from_columns(Some((a, b)));
    assert_eq!(back, strings(&["192.168.1.5", "10.0.0.0/8"]));
    assert!(acl_from_columns(None).is_empty());
    assert_eq!(acl_from_columns(Some(("not json".into(), "[\"1.2.3.0/24\"]".into()))), strings(&["1.2.3.0/24"]));
}

#[test]
fn stored_key_material_shapes() {
    assert_eq!(stored_key(&[1u8; 32], "corrupt x").unwrap(), [1u8; 32]);
    internal(stored_key(&[1u8; 31], "corrupt x").unwrap_err(), "corrupt x");
    let (n, g) = member_key_material(&[2u8; 12], &[3u8; 32]).unwrap();
    assert_eq!((n, g), ([2u8; 12], [3u8; 32]));
    internal(member_key_material(&[2u8; 11], &[3u8; 32]).unwrap_err(), "corrupt vault key material");
    internal(member_key_material(&[2u8; 12], &[3u8; 33]).unwrap_err(), "corrupt vault key material");
}

#[test]
fn escrow_checks() {
    assert!(matches!(escrow_material(None), Err(AppError::NotFound)));
    internal(escrow_material(Some((None, Some(vec![0; 12])))).unwrap_err(), "vault has no master escrow");
    internal(escrow_material(Some((Some(vec![1]), Some(vec![0; 5])))).unwrap_err(), "corrupt escrow nonce");
    let (enc, nonce) = escrow_material(Some((Some(vec![9, 9]), Some(vec![4; 12])))).unwrap();
    assert_eq!(enc, vec![9, 9]);
    assert_eq!(nonce, [4u8; 12]);
}

#[test]
fn unwrapping_and_rotation_checks() {
    internal(unwrapped_key(None).unwrap_err(), "failed to unwrap vault key");
    internal(unwrapped_key(Some(vec![0; 16])).unwrap_err(), "corrupt vault key");
    assert_eq!(unwrapped_key(Some(vec![5; 32])).unwrap(), [5u8; 32]);
    internal(blob_nonce(&[0; 3]).unwrap_err(), "corrupt nonce");
    assert_eq!(blob_nonce(&[6; 12]).unwrap(), [6u8; 12]);
    internal(blob_plaintext(None).unwrap_err(), "rotation decrypt failed");
    assert_eq!(blob_plaintext(Some(vec![1, 2])).unwrap(), vec![1, 2]);
}

#[test]
fn assignment_decisions() {
    bad(assign_step(&None, None).unwrap_err(), "no such user");
    let master = AssignTarget { id: "m".into(), username: "root".into(), is_master: true, public_key: vec![0; 32] };
    bad(assign_step(&Some(master), None).unwrap_err(), "the master user cannot be a vault member");
    let user = AssignTarget { id: "u".into(), username: "bob".into(), is_master: false, public_key: vec![0; 32] };
    assert_eq!(assign_step(&Some(user.clone()), Some(Role::Viewer)).unwrap(), AssignStep::UpdateRole);
    assert_eq!(assign_step(&Some(user), None).unwrap(), AssignStep::Grant);
}
