use easyvault::audit::AuditRow;
use easyvault::vault::VaultMember;
use easyvault::web::pages::{
    ApproleListing, SecretListing, SecretVersion, TokenListing, UserListItem, VaultDetail, VaultListItem, VaultSettings,
    account_password_page, actors_cuttable, approle_secret_page, approles_page, audit_page, dashboard_page, escape, layout, login_page,
    notice_page, role_badge, role_pill, seal_pill, secret_new_page, secret_view_page, setup_page, token_created_page,
    tokens_page, unseal_init_page, unseal_page, unseal_shares_page, urlencode, users_page, vault_create_page,
    vault_detail_page, vault_settings_page, APP_VERSION,
};

#[test]
fn escape_replaces_the_five_characters() {
    assert_eq!(escape("<a href='x'>&\"</a>"), "&lt;a href=&#39;x&#39;&gt;&amp;&quot;&lt;/a&gt;");
    assert_eq!(escape("plain text é"), "plain text é");
    assert_eq!(escape(""), "");
}

#[test]
fn urlencode_keeps_unreserved_bytes() {
    assert_eq!(urlencode("a b/c~é"), "a%20b%2Fc~%C3%A9");
    assert_eq!(urlencode("AZaz09-_.~"), "AZaz09-_.~");
    assert_eq!(urlencode("?&="), "%3F%26%3D");
}

#[test]
fn pills_and_badges() {
    assert_eq!(role_pill(true), "<span class=\"pill ok\">master</span>");
    assert_eq!(role_pill(false), "<span class=\"pill warn\">user</span>");
    assert_eq!(seal_pill(true), "<span class=\"pill warn\">sealed</span>");
    assert_eq!(seal_pill(false), "<span class=\"pill ok\">unsealed</span>");
    assert_eq!(role_badge("viewer"), "<span class=\"pill warn\">viewer</span>");
    assert_eq!(role_badge("admin"), "<span class=\"pill ok\">admin</span>");
    assert_eq!(role_badge("<b>"), "<span class=\"pill ok\">&lt;b&gt;</span>");
}

#[test]
fn layout_wraps_body() {
    let html = layout("T & co", Some("al<ice"), "<p>body</p>");
    assert!(html.starts_with("<!doctype html><html lang=\"en\">"));
    assert!(html.contains("<title>T &amp; co · EasyVault</title>"));
    assert!(html.contains("title=\"Account\">al&lt;ice</a>"));
    assert!(html.contains("Log out"));
    assert!(html.contains("<main><p>body</p></main>"));
    assert!(html.ends_with(&format!("<div class=\"version\">v{APP_VERSION}</div></body></html>")));
    assert_eq!(APP_VERSION, "0.1.5");
    let anon = layout("X", None, "");
    assert!(!anon.contains("Log out"));
}

#[test]
fn simple_forms() {
    assert!(unseal_init_page(None).contains("action=\"/gui/unseal/init\""));
    assert!(unseal_init_page(Some("bad <input>")).contains("<div class=\"err\">bad &lt;input&gt;</div>"));
    let u = unseal_page(2, 3, None);
    assert!(u.contains("Progress: <strong>2 / 3</strong>."));
    assert!(setup_page(None).contains("Create the master account"));
    assert!(login_page(Some("Invalid username or password.")).contains("<div class=\"err\">Invalid username or password.</div>"));
    let p = account_password_page("bob", None, Some("Password changed."));
    assert!(p.contains("color:var(--ok-fg)\">Password changed.</div>"));
    assert!(vault_create_page("bob", None).contains("<title>New vault · EasyVault</title>"));
}

#[test]
fn one_time_displays() {
    let t = token_created_page("bob", "v1", "Main", "ev.abc<def");
    assert!(t.contains(">ev.abc&lt;def</pre>"));
    assert!(t.contains("href=\"/gui/vaults/v1/tokens\""));
    let s = approle_secret_page("bob", "v1", "Main", "rid-1", "sid-2");
    assert!(s.contains("-d '{\"role_id\":\"rid-1\",\"secret_id\":\"sid-2\"}'"));
    let n = secret_new_page("bob", "v1", "Main", Some("oops"), "db/pw", "{\"a\":1}");
    assert!(n.contains("value=\"db/pw\""));
    assert!(n.contains(">{&quot;a&quot;:1}</textarea>"));
    assert!(n.contains("<div class=\"err\">oops</div>"));
    let nt = notice_page(Some("bob"), "Access denied", "You do not have access to this vault.");
    assert!(nt.contains("<h1>Access denied</h1><p class=\"muted\">You do not have access to this vault.</p>"));
}

#[test]
fn unseal_shares_are_numbered() {
    let keys = vec!["AAA=".to_string(), "BBB=".to_string()];
    let html = unseal_shares_page(&keys, 2);
    assert!(html.contains("Share 1</div>"));
    assert!(html.contains("Share 2</div>"));
    assert!(html.contains(">AAA=</div>"));
    assert!(html.contains("You need any 2 of them"));
}

#[test]
fn dashboard_variants() {
    let empty = dashboard_page("root", true, true, &[]);
    assert!(empty.contains("No vaults yet."));
    assert!(empty.contains("The instance is sealed"));
    assert!(!empty.contains("Seal instance"));
    let vaults = vec![
        VaultListItem { id: "v1".into(), name: "Main & Co".into(), description: Some("ops".into()) },
        VaultListItem { id: "v2".into(), name: "Other".into(), description: None },
    ];
    let html = dashboard_page("root", true, false, &vaults);
    assert!(html.contains("<tr><td><a href=\"/gui/vaults/v1\">Main &amp; Co</a></td><td class=\"muted\">ops</td></tr>"));
    assert!(html.contains("<tr><td><a href=\"/gui/vaults/v2\">Other</a></td><td class=\"muted\"></td></tr>"));
    assert!(html.contains("<div class=\"v\">2</div>"));
    assert!(html.contains("Seal instance"));
    assert!(html.contains("New vault"));
    let user = dashboard_page("bob", false, false, &vaults);
    assert!(!user.contains("Manage users"));
    assert!(!user.contains("Seal instance"));
}

#[test]
fn users_page_controls() {
    let users = vec![
        UserListItem { id: "u0".into(), username: "root".into(), is_master: true, active: true },
        UserListItem { id: "u1".into(), username: "me".into(), is_master: false, active: true },
        UserListItem { id: "u2".into(), username: "bob".into(), is_master: false, active: true },
        UserListItem { id: "u3".into(), username: "eve".into(), is_master: false, active: false },
    ];
    let html = users_page("me", "u1", &users, None);
    assert!(!html.contains("/gui/users/u0/"));
    assert!(!html.contains("/gui/users/u1/"));
    assert!(html.contains("action=\"/gui/users/u2/disable\""));
    assert!(html.contains("action=\"/gui/users/u3/enable\""));
    assert!(html.contains("<span class=\"pill warn\">disabled</span>"));
}

#[test]
fn vault_detail_by_capability() {
    let secrets = vec![SecretListing { path: "db/pass word".into(), version: 3 }];
    let reader = vault_detail_page(VaultDetail {
        username: "bob",
        vault_id: "v1",
        vault_name: "Main",
        description: "",
        secrets: &secrets,
        can_read: true,
        can_write: false,
        can_assign: false,
        error: None,
    });
    assert!(reader.contains("<tr><td>db/pass word</td><td>v3</td><td><a href=\"/gui/vaults/v1/secret?path=db%2Fpass%20word\">view</a></td></tr>"));
    assert!(!reader.contains("Add secret"));
    assert!(!reader.contains("Settings"));
    let blind = vault_detail_page(VaultDetail {
        username: "root",
        vault_id: "v1",
        vault_name: "Main",
        description: "ops <team>",
        secrets: &[],
        can_read: false,
        can_write: false,
        can_assign: true,
        error: Some("Vault key rotated."),
    });
    assert!(blind.contains("cannot read its secret contents"));
    assert!(blind.contains("<p class=\"muted\">ops &lt;team&gt;</p>"));
    assert!(blind.contains("href=\"/gui/vaults/v1/settings\""));
    assert!(blind.contains("<div class=\"err\">Vault key rotated.</div>"));
}

#[test]
fn vault_settings_members() {
    let members = vec![
        VaultMember { user_id: "u1".into(), username: "me".into(), role: "admin".into(), granted_at: "2024-01-01".into() },
        VaultMember { user_id: "u2".into(), username: "bob".into(), role: "viewer".into(), granted_at: "2024-02-02".into() },
    ];
    let html = vault_settings_page(VaultSettings {
        username: "me",
        vault_id: "v1",
        vault_name: "Main",
        members: &members,
        current_user_id: "u1",
        error: None,
    });
    assert!(html.contains("<input type=\"hidden\" name=\"user_id\" value=\"u2\">"));
    assert!(!html.contains("value=\"u1\""));
    assert!(html.contains("<span class=\"pill warn\">viewer</span>"));
    assert!(html.contains("<h1>Main — settings</h1>"));
}

fn row(actor: Option<&str>, code: Option<i64>) -> AuditRow {
    AuditRow {
        request_id: "r".into(),
        timestamp: "2024-01-01T00:00:00+00:00".into(),
        operation: "READ".into(),
        vault_id: None,
        path: Some("db/pw".into()),
        actor_type: "api_token".into(),
        actor_hash: actor.map(String::from),
        source_ip: None,
        response_code: code,
        hmac: "x".into(),
    }
}

#[test]
fn audit_page_rows() {
    let rows = vec![row(Some("0123456789abcdef"), Some(403)), row(None, None)];
    let html = audit_page("root", &rows, &[true, false], 2, 0);
    assert!(html.contains("<td class=\"muted\">0123456789</td>"));
    assert!(!html.contains("0123456789a"));
    assert!(html.contains("<td>403</td>"));
    assert!(html.contains("<td>0</td>"));
    assert!(html.contains("<span class=\"pill warn\">TAMPERED</span>"));
    assert!(html.contains("2 events total — currently kept forever."));
    assert!(html.contains("value=\"\" placeholder=\"forever\""));
    let kept = audit_page("root", &rows, &[true], 7, 30);
    assert!(kept.contains("currently 30 days."));
    assert!(kept.contains("value=\"30\""));
    assert!(!kept.contains("TAMPERED"));
    let none = audit_page("root", &[], &[], 0, 0);
    assert!(none.contains("No audit events yet."));
}

#[test]
fn tokens_page_rows() {
    let tokens = vec![
        TokenListing {
            id: "t1".into(),
            display_name: Some("ci".into()),
            allowed_paths: "[\"*\"]".into(),
            allowed_ips: "[]".into(),
            expires_at: None,
            last_used_at: None,
            revoked: false,
        },
        TokenListing {
            id: "t2".into(),
            display_name: None,
            allowed_paths: "[]".into(),
            allowed_ips: "[\"10.0.0.0/8\"]".into(),
            expires_at: Some("2030-01-01".into()),
            last_used_at: Some("2024-01-01".into()),
            revoked: true,
        },
    ];
    let html = tokens_page("bob", "v1", "Main", &tokens, true, None);
    assert!(html.contains("<td class=\"muted\">any</td>"));
    assert!(html.contains("<td class=\"muted\">never</td>"));
    assert!(html.contains("action=\"/gui/vaults/v1/tokens/t1/revoke\""));
    assert!(!html.contains("tokens/t2/revoke"));
    assert!(html.contains("[&quot;10.0.0.0/8&quot;]"));
    assert!(html.contains("Create token"));
    let ro = tokens_page("bob", "v1", "Main", &[], false, Some("TTL must be a positive number of hours."));
    assert!(ro.contains("No tokens yet."));
    assert!(!ro.contains("<h2>Create token</h2>"));
}

#[test]
fn approles_ttl_column() {
    let roles = vec![
        ApproleListing { id: "a1".into(), name: "ci".into(), role_id: "rid".into(), allowed_paths: "*".into(), token_ttl: Some(7200) },
        ApproleListing { id: "a2".into(), name: "job".into(), role_id: "rid2".into(), allowed_paths: "*".into(), token_ttl: None },
        ApproleListing { id: "a3".into(), name: "odd".into(), role_id: "rid3".into(), allowed_paths: "*".into(), token_ttl: Some(-5399) },
    ];
    let html = approles_page("bob", "v1", "Main", &roles, None);
    assert!(html.contains("<td class=\"muted\">2h</td>"));
    assert!(html.contains("<td class=\"muted\">none</td>"));
    assert!(html.contains("<td class=\"muted\">-1h</td>"));
    assert!(html.contains("action=\"/gui/vaults/v1/approles/a1/secret-id\""));
    assert!(approles_page("bob", "v1", "Main", &[], None).contains("No roles yet."));
}

#[test]
fn secret_view_history() {
    let versions = vec![
        SecretVersion { version: 1, created_at: "2024-01-01".into(), deleted: true },
        SecretVersion { version: 2, created_at: "2024-02-01".into(), deleted: false },
    ];
    let html = secret_view_page("bob", "v1", "Main", "db/a b", 2, "{\n  \"k\": \"<v>\"\n}", &versions, Some(1));
    assert!(html.contains("<h1>db/a b</h1>"));
    assert!(html.contains("1 read(s) remaining over the API"));
    assert!(html.contains("secret/new?path=db%2Fa%20b"));
    assert!(html.contains("&quot;k&quot;: &quot;&lt;v&gt;&quot;"));
    assert!(html.contains("<tr><td>v1</td><td class=\"muted\">2024-01-01</td><td><span class=\"pill warn\">deleted</span></td></tr>"));
    assert!(html.contains("<tr><td>v2</td><td class=\"muted\">2024-02-01</td><td><span class=\"pill ok\">live</span></td></tr>"));
    let plain = secret_view_page("bob", "v1", "Main", "x", 1, "{}", &[], None);
    assert!(!plain.contains("single-use"));
}

#[test]
fn actors_cuttable_accepts_ascii_and_short_actors() {
    let rows = vec![row(Some("0123456789abcdef"), Some(200)), row(None, None), row(Some("ééééé"), Some(403))];
    assert!(actors_cuttable(&rows));
    assert!(actors_cuttable(&[]));
}

#[test]
fn actors_cuttable_refuses_a_cut_inside_a_character() {
    // "a" then "é" (two bytes each): byte ten falls in the middle of the fifth "é".
    let rows = vec![row(Some("0123456789"), Some(200)), row(Some("aéééééé"), Some(200))];
    assert!(!actors_cuttable(&rows));
}

fn percent_decode(s: &str) -> String {
    let b = s.as_bytes();
    let mut out: Vec<u8> = Vec::new();
    let mut i = 0;
    while i < b.len() {
        if b[i] == b'%' {
            out.push(u8::from_str_radix(&s[i + 1..i + 3], 16).unwrap());
            i += 3;
        } else {
            out.push(b[i]);
            i += 1;
        }
    }
    String::from_utf8(out).unwrap()
}

fn entity_decode(s: &str) -> String {
    s.replace("&lt;", "<").replace("&gt;", ">").replace("&quot;", "\"").replace("&#39;", "'").replace("&amp;", "&")
}

#[test]
fn escape_round_trips_and_composes() {
    let a = "<b title=\"x&y\">";
    let b = "it's é & ü";
    assert_eq!(entity_decode(&escape(a)), a);
    assert_eq!(entity_decode(&escape(b)), b);
    let ab = format!("{}{}", a, b);
    assert_eq!(escape(&ab), format!("{}{}", escape(a), escape(b)));
}

#[test]
fn urlencode_round_trips_and_uses_safe_characters() {
    for s in ["db/pass word", "a-b_c.d~e", "é ü/?&=#%", ""] {
        let e = urlencode(s);
        assert!(e.chars().all(|c| c.is_ascii_alphanumeric() || "-_.~%".contains(c)));
        assert_eq!(percent_decode(&e), s);
    }
    assert_eq!(urlencode("a b/é"), "a%20b%2F%C3%A9");
}
