use easyvault::api::routes::kv::{
    MetadataQuery, WriteOptions, check_list_flag, deny_entry, done_entry, max_reads_of, metadata_keys,
    token_creator, token_from_header,
};
use easyvault::api::routes::sys::{
    InitRequest, ShareStep, UnsealAction, UnsealProgress, UnsealRequest, check_init, encode_shares, health_status,
    init_counts, init_response, init_row_of, seal_view_of, unseal_action, verification_material, UNSEAL_VERIFICATION,
};
use easyvault::error::AppError;
use easyvault::web::pages::SecretListing;

fn bad(e: AppError, msg: &str) {
    match e {
        AppError::BadRequest(m) => assert_eq!(m, msg),
        other => panic!("unexpected {other:?}"),
    }
}

fn internal(e: AppError, msg: &str) {
    match e {
        AppError::Internal(m) => assert_eq!(m, msg),
        other => panic!("unexpected {other:?}"),
    }
}

#[test]
fn init_row_defaults_and_view() {
    let absent = init_row_of(None);
    assert!(!absent.initialized && absent.sealed && absent.key_threshold.is_none());
    let row = init_row_of(Some((true, false, Some(vec![1]), Some(vec![2; 12]), Some(5), Some(3))));
    let v = seal_view_of(&row, true, 1);
    assert!(v.initialized && v.sealed);
    assert_eq!((v.threshold, v.shares, v.progress), (3, 5, 1));
    let v0 = seal_view_of(&absent, true, 0);
    assert_eq!((v0.threshold, v0.shares), (0, 0));
}

#[test]
fn health_codes() {
    assert_eq!(health_status(false, true), 501);
    assert_eq!(health_status(true, true), 503);
    assert_eq!(health_status(true, false), 200);
}

#[test]
fn init_parameters() {
    let req = InitRequest { secret_shares: Some(4), secret_threshold: None };
    assert_eq!(init_counts(&req, 5, 3), (4, 3));
    assert_eq!(init_counts(&InitRequest::default(), 5, 3), (5, 3));
    bad(check_init(true, 5, 3).unwrap_err(), "EasyVault is already initialized");
    for (n, t) in [(5u8, 0u8), (0, 0), (2, 3)] {
        bad(check_init(false, n, t).unwrap_err(), "secret_threshold must be between 1 and secret_shares");
    }
    assert!(check_init(false, 5, 3).is_ok());
    assert!(check_init(false, 1, 1).is_ok());
}

#[test]
fn shares_are_standard_base64() {
    let keys = encode_shares(&vec![vec![1, 2, 3, 4, 5], b"easyvault".to_vec()]);
    assert_eq!(keys, vec!["AQIDBAU=".to_string(), "ZWFzeXZhdWx0".to_string()]);
    let resp = init_response(keys.clone(), 2, 2);
    assert_eq!(resp.keys, keys);
    assert_eq!(resp.keys_base64, keys);
    assert_eq!((resp.shares, resp.threshold), (2, 2));
}

#[test]
fn unseal_request_decisions() {
    assert!(matches!(unseal_action(false, true, UnsealRequest::default()), Err(AppError::Uninitialized)));
    let reset = UnsealRequest { key: None, reset: true };
    assert!(matches!(unseal_action(true, false, reset), Ok(UnsealAction::Reset)));
    assert!(matches!(unseal_action(true, false, UnsealRequest::default()), Ok(UnsealAction::Status)));
    bad(unseal_action(true, true, UnsealRequest::default()).err().unwrap(), "missing 'key' share");
    match unseal_action(true, true, UnsealRequest { key: Some("AQID".into()), reset: false }) {
        Ok(UnsealAction::Submit(k)) => assert_eq!(k, "AQID"),
        _ => panic!("expected a submission"),
    }
}

#[test]
fn unseal_progress_collects_until_threshold() {
    let mut p = UnsealProgress::new();
    assert!(matches!(p.submit(false, true, "AQID", Some(2)), Err(AppError::Uninitialized)));
    assert!(matches!(p.submit(true, false, "AQID", Some(2)), Ok(ShareStep::AlreadyUnsealed)));
    bad(p.submit(true, true, "not base64!", Some(2)).err().unwrap(), "share is not valid base64");
    assert_eq!(p.len(), 0);
    assert!(matches!(p.submit(true, true, " AQID ", Some(2)), Ok(ShareStep::Pending)));
    assert_eq!(p.shares, vec![vec![1, 2, 3]]);
    assert!(matches!(p.submit(true, true, "BAUG", Some(2)), Ok(ShareStep::Combine(2))));
    assert_eq!(p.shares, vec![vec![1, 2, 3], vec![4, 5, 6]]);
    bad(p.after_combine(Some(vec![0; 16])).err().unwrap(), "unseal failed: invalid shares");
    assert_eq!(p.len(), 0);
}

#[test]
fn unseal_verification_outcomes() {
    let mut p = UnsealProgress::new();
    p.submit(true, true, "AQID", Some(1)).unwrap();
    assert_eq!(p.after_combine(Some(vec![9; 32])).unwrap(), [9u8; 32]);
    assert_eq!(p.len(), 1);
    bad(p.after_verify(Some(b"wrong".to_vec())).err().unwrap(), "unseal failed: shares did not reconstruct the master key");
    assert_eq!(p.len(), 0);
    p.submit(true, true, "AQID", Some(1)).unwrap();
    assert!(p.after_verify(Some(UNSEAL_VERIFICATION.as_bytes().to_vec())).is_ok());
    assert_eq!(p.len(), 0);
    bad(p.after_combine(None).err().unwrap(), "unseal failed: invalid shares");
}

#[test]
fn verification_material_checks() {
    internal(verification_material(None, None).err().unwrap(), "missing verification ciphertext");
    internal(verification_material(Some(vec![1]), None).err().unwrap(), "missing verification nonce");
    internal(verification_material(Some(vec![1]), Some(vec![0; 11])).err().unwrap(), "corrupt verification nonce");
    let (c, n) = verification_material(Some(vec![1, 2]), Some(vec![3; 12])).unwrap();
    assert_eq!((c, n), (vec![1, 2], [3u8; 12]));
}

#[test]
fn kv_request_helpers() {
    assert_eq!(token_from_header(Some("  ev.abc ")), Some("ev.abc".to_string()));
    assert_eq!(token_from_header(Some("   ")), None);
    assert_eq!(token_from_header(None), None);
    assert_eq!(max_reads_of(Some(WriteOptions { max_reads: Some(1) })), Some(1));
    assert_eq!(max_reads_of(None), None);
    assert_eq!(token_creator(Some("u1".into())).unwrap(), "u1");
    internal(token_creator(None).unwrap_err(), "token has no owner");
    assert!(check_list_flag(MetadataQuery { list: true }.list).is_ok());
    bad(check_list_flag(MetadataQuery::default().list).unwrap_err(), "only ?list=true is supported on metadata");
    let d = deny_entry("READ", None, "db/pw", None, "1.2.3.4");
    assert_eq!((d.actor_type, d.response_code, d.path, d.actor_hash), ("api_token", 403, Some("db/pw"), None));
    let ok = done_entry("WRITE", "v1", "db/pw", "t1", "1.2.3.4", 200);
    assert_eq!((ok.vault_id, ok.actor_hash, ok.response_code), (Some("v1"), Some("t1"), 200));
}

#[test]
fn metadata_listing_by_prefix() {
    let items: Vec<SecretListing> = ["db", "db/pw", "db/user", "dbx/pw", "app/key"]
        .iter()
        .map(|p| SecretListing { path: p.to_string(), version: 1 })
        .collect();
    assert_eq!(metadata_keys("db/", &items), vec!["db".to_string(), "db/pw".to_string(), "db/user".to_string()]);
    assert_eq!(metadata_keys("db//", &items).len(), 3);
    assert_eq!(metadata_keys("", &items).len(), 5);
    assert_eq!(metadata_keys("/", &items).len(), 5);
    assert_eq!(metadata_keys("app", &items), vec!["app/key".to_string()]);
    assert!(metadata_keys("zzz", &items).is_empty());
}
