//! Laws of the rendered pages, stated over their inputs: which controls and
//! notes a page shows, which it never shows, and where each listed item's
//! text appears.
use vstd::prelude::*;
use crate::text::{int_text, is_digit, lemma_int_text_chars};
use crate::audit::AuditRow;
use crate::web::pages::{
    APP_VERSION, STYLE, THEME_SCRIPT, SecretListing, TokenListing, VaultDetail, VaultListItem, actor_short, actor_text,
    audit_page_html, audit_row_html, audit_rows_html, code_or_zero, dashboard_page_html, escaped,
    lemma_escaped_has_no_markup, lemma_url_encoded_is_safe, or_text, paired_len, secret_rows_html, share_row_html,
    share_rows_html, token_row_html, token_rows_html, tokens_page_html, unseal_shares_page_html, url_bytes,
    url_encoded, url_safe_char, vault_detail_page_html, vault_rows_html, VaultSettings, member_row_html,
    member_rows_html, role_badge_html, vault_settings_page_html, lemma_unescape_escaped, UserListItem, role_pill_html,
    user_row_html, user_rows_html, users_page_html,
};
use crate::vault::VaultMember;

verus! {

// ─────────────────────────────────────────────────────────────────────────────
// Finding text in text
// ─────────────────────────────────────────────────────────────────────────────

/// `t` occurs in `s` starting at position `p`.
pub open spec fn occurs_at(s: Seq<char>, t: Seq<char>, p: int) -> bool {
    0 <= p && p + t.len() <= s.len() && s.subrange(p, p + t.len()) == t
}

/// `t` occurs somewhere in `s`.
pub open spec fn contains_text(s: Seq<char>, t: Seq<char>) -> bool {
    exists|p: int| occurs_at(s, t, p)
}

/// Read from position `k` of `a`, the text parts from `t` at some index of
/// `t` from `j` on, before either `a` or `t` ends.
pub open spec fn departs_from(a: Seq<char>, t: Seq<char>, k: int, j: int) -> bool
    decreases t.len() - j,
{
    if j < 0 || j >= t.len() || k + j >= a.len() {
        false
    } else {
        a[k + j] != t[j] || departs_from(a, t, k, j + 1)
    }
}

/// No copy of `t` can begin inside `a`, whatever text is put around `a`:
/// wherever `a` holds the first character of `t`, what follows in `a` parts
/// from `t` before `a` ends.
pub open spec fn no_start(a: Seq<char>, t: Seq<char>) -> bool {
    forall|k: int| 0 <= k < a.len() && a[k] == t[0] ==> #[trigger] departs_from(a, t, k, 0)
}

proof fn lemma_departs_extend(a: Seq<char>, b: Seq<char>, t: Seq<char>, k: int, j: int)
    requires
        0 <= k,
        departs_from(a, t, k, j),
    ensures
        departs_from(a + b, t, k, j),
    decreases t.len() - j,
{
    if a[k + j] == t[j] {
        lemma_departs_extend(a, b, t, k, j + 1);
    }
}

proof fn lemma_departs_shift(a: Seq<char>, b: Seq<char>, t: Seq<char>, k: int, j: int)
    requires
        0 <= k,
        departs_from(b, t, k, j),
    ensures
        departs_from(a + b, t, k + a.len(), j),
    decreases t.len() - j,
{
    if b[k + j] == t[j] {
        lemma_departs_shift(a, b, t, k, j + 1);
    }
}

/// Putting two pieces side by side starts no copy of `t` where neither does.
pub broadcast proof fn lemma_no_start_concat(a: Seq<char>, b: Seq<char>, t: Seq<char>)
    requires
        no_start(a, t),
        no_start(b, t),
    ensures
        #[trigger] no_start(a + b, t),
{
    let s = a + b;
    assert forall|k: int| 0 <= k < s.len() && s[k] == t[0] implies #[trigger] departs_from(s, t, k, 0) by {
        if k < a.len() {
            assert(a[k] == s[k]);
            lemma_departs_extend(a, b, t, k, 0);
        } else {
            assert(b[k - a.len()] == s[k]);
            lemma_departs_shift(a, b, t, k - a.len(), 0);
        }
    }
}

proof fn lemma_departs_no_occurrence(s: Seq<char>, t: Seq<char>, p: int, j: int)
    requires
        0 <= j,
        occurs_at(s, t, p),
    ensures
        !departs_from(s, t, p, j),
    decreases t.len() - j,
{
    if 0 <= j < t.len() && p + j < s.len() {
        assert(s[p + j] == s.subrange(p, p + t.len())[j]);
        lemma_departs_no_occurrence(s, t, p, j + 1);
    }
}

/// Text in which no copy of `t` can begin does not contain `t`.
pub proof fn lemma_no_start_absent(s: Seq<char>, t: Seq<char>)
    requires
        t.len() > 0,
        no_start(s, t),
    ensures
        !contains_text(s, t),
{
    if contains_text(s, t) {
        let p = choose|p: int| occurs_at(s, t, p);
        assert(s[p] == s.subrange(p, p + t.len())[0]);
        lemma_departs_no_occurrence(s, t, p, 0);
    }
}

/// Text without `t`'s first character starts no copy of `t`.
pub proof fn lemma_plain_no_start(s: Seq<char>, t: Seq<char>)
    requires
        t.len() > 0,
        !s.contains(t[0]),
    ensures
        no_start(s, t),
{
    assert forall|k: int| 0 <= k < s.len() && s[k] == t[0] implies #[trigger] departs_from(s, t, k, 0) by {
        assert(s.contains(t[0]));
    }
}

/// Escaped text starts no copy of a text that opens with `<`.
pub broadcast proof fn lemma_escaped_no_start(s: Seq<char>, t: Seq<char>)
    requires
        t.len() > 0,
        t[0] == '<',
    ensures
        #[trigger] no_start(escaped(s), t),
{
    lemma_escaped_has_no_markup(s);
    lemma_plain_no_start(escaped(s), t);
}

/// Decimal text starts no copy of a text that opens with `<`.
pub broadcast proof fn lemma_int_text_no_start(n: int, t: Seq<char>)
    requires
        t.len() > 0,
        t[0] == '<',
    ensures
        #[trigger] no_start(int_text(n), t),
{
    assert(!is_digit('<'));
    lemma_int_text_chars(n, '<');
    lemma_plain_no_start(int_text(n), t);
}

/// Percent-encoded text starts no copy of a text that opens with `<`.
pub broadcast proof fn lemma_url_encoded_no_start(s: Seq<char>, t: Seq<char>)
    requires
        t.len() > 0,
        t[0] == '<',
    ensures
        #[trigger] no_start(url_encoded(s), t),
{
    let b = vstd::utf8::encode_utf8(s);
    lemma_url_encoded_is_safe(b);
    if url_bytes(b).contains('<') {
        let i = choose|i: int| 0 <= i < url_bytes(b).len() && url_bytes(b)[i] == '<';
        assert(url_safe_char(url_bytes(b)[i]));
    }
    lemma_plain_no_start(url_encoded(s), t);
}

/// The empty text starts nothing.
pub broadcast proof fn lemma_empty_no_start(t: Seq<char>)
    ensures
        #[trigger] no_start(Seq::<char>::empty(), t),
{
}

/// Text holding `t` still holds it with more text after it.
pub broadcast proof fn lemma_contains_before(a: Seq<char>, b: Seq<char>, t: Seq<char>)
    requires
        contains_text(a, t),
    ensures
        #[trigger] contains_text(a + b, t),
{
    let p = choose|p: int| occurs_at(a, t, p);
    assert((a + b).subrange(p, p + t.len()) =~= a.subrange(p, p + t.len()));
    assert(occurs_at(a + b, t, p));
}

/// Text holding `t` still holds it with more text before it.
pub broadcast proof fn lemma_contains_after(a: Seq<char>, b: Seq<char>, t: Seq<char>)
    requires
        contains_text(b, t),
    ensures
        #[trigger] contains_text(a + b, t),
{
    let p = choose|p: int| occurs_at(b, t, p);
    assert((a + b).subrange(p + a.len(), p + a.len() + t.len()) =~= b.subrange(p, p + t.len()));
    assert(occurs_at(a + b, t, p + a.len()));
}

/// Every text holds itself.
pub proof fn lemma_contains_self(t: Seq<char>)
    ensures
        contains_text(t, t),
{
    assert(t.subrange(0, t.len() as int) =~= t);
    assert(occurs_at(t, t, 0));
}

/// What holds a text holds every part of it.
pub proof fn lemma_contains_part(s: Seq<char>, a: Seq<char>, t: Seq<char>, b: Seq<char>)
    requires
        contains_text(s, a + t + b),
    ensures
        contains_text(s, t),
{
    let u = a + t + b;
    let p = choose|p: int| occurs_at(s, u, p);
    assert(s.subrange(p + a.len(), p + a.len() + t.len()) =~= t) by {
        assert forall|i: int| 0 <= i < t.len() implies s.subrange(p + a.len(), p + a.len() + t.len())[i] == t[i] by {
            assert(s[p + a.len() + i] == s.subrange(p, p + u.len())[a.len() + i]);
            assert(u[a.len() + i] == t[i]);
        }
    }
    assert(occurs_at(s, t, p + a.len()));
}


// ─────────────────────────────────────────────────────────────────────────────
// Controls and notes the laws look for
// ─────────────────────────────────────────────────────────────────────────────

/// The dashboard's note that the instance is sealed.
pub open spec fn sealed_note() -> Seq<char> {
    "<p class=\"muted\">The instance is sealed — vault and secret operations are blocked until it is unsealed via <code>/v1/sys/unseal</code>.</p>"@
}

/// The button that opens the new-secret form.
pub open spec fn add_secret_button() -> Seq<char> {
    "<button type=\"button\">Add secret</button>"@
}

/// The button that opens a vault's token page.
pub open spec fn tokens_button() -> Seq<char> {
    "<button type=\"button\" class=\"btn-neutral\">Tokens</button>"@
}

/// The button that opens a vault's AppRole page.
pub open spec fn approles_button() -> Seq<char> {
    "<button type=\"button\" class=\"btn-neutral\">AppRoles</button>"@
}

/// The button of a token's revoke form.
pub open spec fn revoke_button() -> Seq<char> {
    "<button class=\"link\" type=\"submit\">revoke</button>"@
}

/// The integrity result of an audit row whose signature does not match.
pub open spec fn tampered_pill() -> Seq<char> {
    "<span class=\"pill warn\">TAMPERED</span>"@
}

/// The dashboard link to user management.
pub open spec fn manage_users_link() -> Seq<char> {
    "<a href=\"/gui/users\">Manage users &rarr;</a>"@
}

/// The dashboard link to the audit log.
pub open spec fn audit_log_link() -> Seq<char> {
    "<a href=\"/gui/audit\">Audit log &rarr;</a>"@
}

/// The button that seals the instance.
pub open spec fn seal_button() -> Seq<char> {
    "<button type=\"submit\" class=\"btn-danger\">Seal instance</button>"@
}

/// The button that opens the new-vault form.
pub open spec fn new_vault_button() -> Seq<char> {
    "<button type=\"button\">New vault</button>"@
}

/// The button that opens a vault's settings.
pub open spec fn settings_button() -> Seq<char> {
    "<button type=\"button\" class=\"btn-neutral\">Settings</button>"@
}

/// The heading of a vault's secret list.
pub open spec fn secret_list_heading() -> Seq<char> {
    "<h2 style=\"margin:0\">Secrets</h2>"@
}

/// The vault page's note to a caller who manages a vault but cannot read it.
pub open spec fn no_read_note() -> Seq<char> {
    "<h2>Secrets</h2><p class=\"muted\">You manage access to this vault but cannot read its secret contents.</p>"@
}

/// The heading of the token creation form.
pub open spec fn create_token_heading() -> Seq<char> {
    "<h2>Create token</h2>"@
}

// ─────────────────────────────────────────────────────────────────────────────
// The fixed fragments of each page, read character by character: none of
// them starts a control or note that it does not show whole.
// ─────────────────────────────────────────────────────────────────────────────

proof fn lemma_layout_pieces_sealed_note()
    ensures
        no_start("<!doctype html><html lang=\"en\"><head><meta charset=\"utf-8\"><meta name=\"viewport\" content=\"width=device-width,initial-scale=1\"><title>"@, sealed_note()),
        no_start(" · EasyVault</title><script>"@, sealed_note()),
        no_start("</script><style>"@, sealed_note()),
        no_start("</style></head><body><header><div class=\"brand\">Easy<span>Vault</span></div><div class=\"right\"><button class=\"link themetoggle\" type=\"button\" onclick=\"evToggleTheme()\" title=\"Toggle light / dark\" aria-label=\"Toggle theme\">◐</button>"@, sealed_note()),
        no_start("</div></header><main>"@, sealed_note()),
        no_start("</main><div class=\"version\">v"@, sealed_note()),
        no_start("</div></body></html>"@, sealed_note()),
        no_start("<a href=\"/gui/account/password\" class=\"muted\" title=\"Account\">"@, sealed_note()),
        no_start("</a> &nbsp;<form method=\"post\" action=\"/gui/logout\" style=\"margin:0;display:inline\"><button class=\"link\" type=\"submit\">Log out</button></form>"@, sealed_note()),
        no_start("<div class=\"err\">"@, sealed_note()),
        no_start("</div>"@, sealed_note()),
        no_start(STYLE@, sealed_note()),
        no_start(THEME_SCRIPT@, sealed_note()),
        no_start(APP_VERSION@, sealed_note()),
{
    assert(no_start("<!doctype html><html lang=\"en\"><head><meta charset=\"utf-8\"><meta name=\"viewport\" content=\"width=device-width,initial-scale=1\"><title>"@, sealed_note())) by {
        reveal_with_fuel(departs_from, 3);
        reveal_strlit("<p class=\"muted\">The instance is sealed — vault and secret operations are blocked until it is unsealed via <code>/v1/sys/unseal</code>.</p>");
        reveal_strlit("<!doctype html><html lang=\"en\"><head><meta charset=\"utf-8\"><meta name=\"viewport\" content=\"width=device-width,initial-scale=1\"><title>");
    }
    assert(no_start(" · EasyVault</title><script>"@, sealed_note())) by {
        reveal_with_fuel(departs_from, 3);
        reveal_strlit("<p class=\"muted\">The instance is sealed — vault and secret operations are blocked until it is unsealed via <code>/v1/sys/unseal</code>.</p>");
        reveal_strlit(" · EasyVault</title><script>");
    }
    assert(no_start("</script><style>"@, sealed_note())) by {
        reveal_with_fuel(departs_from, 3);
        reveal_strlit("<p class=\"muted\">The instance is sealed — vault and secret operations are blocked until it is unsealed via <code>/v1/sys/unseal</code>.</p>");
        reveal_strlit("</script><style>");
    }
    assert(no_start("</style></head><body><header><div class=\"brand\">Easy<span>Vault</span></div><div class=\"right\"><button class=\"link themetoggle\" type=\"button\" onclick=\"evToggleTheme()\" title=\"Toggle light / dark\" aria-label=\"Toggle theme\">◐</button>"@, sealed_note())) by {
        reveal_with_fuel(departs_from, 3);
        reveal_strlit("<p class=\"muted\">The instance is sealed — vault and secret operations are blocked until it is unsealed via <code>/v1/sys/unseal</code>.</p>");
        reveal_strlit("</style></head><body><header><div class=\"brand\">Easy<span>Vault</span></div><div class=\"right\"><button class=\"link themetoggle\" type=\"button\" onclick=\"evToggleTheme()\" title=\"Toggle light / dark\" aria-label=\"Toggle theme\">◐</button>");
    }
    assert(no_start("</div></header><main>"@, sealed_note())) by {
        reveal_with_fuel(departs_from, 3);
        reveal_strlit("<p class=\"muted\">The instance is sealed — vault and secret operations are blocked until it is unsealed via <code>/v1/sys/unseal</code>.</p>");
        reveal_strlit("</div></header><main>");
    }
    assert(no_start("</main><div class=\"version\">v"@, sealed_note())) by {
        reveal_with_fuel(departs_from, 3);
        reveal_strlit("<p class=\"muted\">The instance is sealed — vault and secret operations are blocked until it is unsealed via <code>/v1/sys/unseal</code>.</p>");
        reveal_strlit("</main><div class=\"version\">v");
    }
    assert(no_start("</div></body></html>"@, sealed_note())) by {
        reveal_with_fuel(departs_from, 3);
        reveal_strlit("<p class=\"muted\">The instance is sealed — vault and secret operations are blocked until it is unsealed via <code>/v1/sys/unseal</code>.</p>");
        reveal_strlit("</div></body></html>");
    }
    assert(no_start("<a href=\"/gui/account/password\" class=\"muted\" title=\"Account\">"@, sealed_note())) by {
        reveal_with_fuel(departs_from, 3);
        reveal_strlit("<p class=\"muted\">The instance is sealed — vault and secret operations are blocked until it is unsealed via <code>/v1/sys/unseal</code>.</p>");
        reveal_strlit("<a href=\"/gui/account/password\" class=\"muted\" title=\"Account\">");
    }
    assert(no_start("</a> &nbsp;<form method=\"post\" action=\"/gui/logout\" style=\"margin:0;display:inline\"><button class=\"link\" type=\"submit\">Log out</button></form>"@, sealed_note())) by {
        reveal_with_fuel(departs_from, 3);
        reveal_strlit("<p class=\"muted\">The instance is sealed — vault and secret operations are blocked until it is unsealed via <code>/v1/sys/unseal</code>.</p>");
        reveal_strlit("</a> &nbsp;<form method=\"post\" action=\"/gui/logout\" style=\"margin:0;display:inline\"><button class=\"link\" type=\"submit\">Log out</button></form>");
    }
    assert(no_start("<div class=\"err\">"@, sealed_note())) by {
        reveal_with_fuel(departs_from, 3);
        reveal_strlit("<p class=\"muted\">The instance is sealed — vault and secret operations are blocked until it is unsealed via <code>/v1/sys/unseal</code>.</p>");
        reveal_strlit("<div class=\"err\">");
    }
    assert(no_start("</div>"@, sealed_note())) by {
        reveal_with_fuel(departs_from, 3);
        reveal_strlit("<p class=\"muted\">The instance is sealed — vault and secret operations are blocked until it is unsealed via <code>/v1/sys/unseal</code>.</p>");
        reveal_strlit("</div>");
    }
    reveal_strlit("<p class=\"muted\">The instance is sealed — vault and secret operations are blocked until it is unsealed via <code>/v1/sys/unseal</code>.</p>");
    reveal_strlit(":root{--bg:#0e1116;--card:#161b22;--border:#30363d;--border-soft:#21262d;--fg:#e6edf3;--muted:#7d8590;--h2:#9da7b3;--link:#58a6ff;--brand:#3fb950;--accent:#238636;--accent-hover:#2ea043;--accent-fg:#fff;--neutral:#30363d;--neutral-fg:#e6edf3;--danger:#b62324;--danger-fg:#fff;--err-bg:#3d1a1d;--err-border:#f85149;--err-fg:#ffa198;--ok-bg:#132e1a;--ok-fg:#3fb950;--ok-border:#238636;--warn-bg:#3d2a12;--warn-fg:#d29922;--warn-border:#9e6a03;color-scheme:dark}[data-theme=light]{--bg:#f6f8fa;--card:#ffffff;--border:#d0d7de;--border-soft:#eaeef2;--fg:#1f2328;--muted:#59636e;--h2:#59636e;--link:#0969da;--brand:#1a7f37;--accent:#1f883d;--accent-hover:#1a7f37;--accent-fg:#fff;--neutral:#eaeef2;--neutral-fg:#1f2328;--danger:#cf222e;--danger-fg:#fff;--err-bg:#ffebe9;--err-border:#cf222e;--err-fg:#82071e;--ok-bg:#dafbe1;--ok-fg:#1a7f37;--ok-border:#1f883d;--warn-bg:#fff8c5;--warn-fg:#9a6700;--warn-border:#d4a72c;color-scheme:light}*{box-sizing:border-box}body{margin:0;font:15px/1.5 system-ui,sans-serif;background:var(--bg);color:var(--fg)}header{display:flex;align-items:center;justify-content:space-between;padding:14px 22px;background:var(--card);border-bottom:1px solid var(--border)}header .brand{font-weight:700;letter-spacing:.3px}header .brand span{color:var(--brand)}header .right{display:flex;align-items:center;gap:14px}main{max-width:880px;margin:40px auto;padding:0 22px}.card{background:var(--card);border:1px solid var(--border);border-radius:10px;padding:24px;margin-bottom:20px}h1{font-size:22px;margin:0 0 6px}h2{font-size:16px;margin:0 0 14px;color:var(--h2)}label{display:block;margin:14px 0 6px;font-size:13px;color:var(--h2)}input,textarea,select{width:100%;padding:10px 12px;border:1px solid var(--border);border-radius:7px;background:var(--bg);color:var(--fg);font-size:14px}textarea{font-family:ui-monospace,monospace}button{margin-top:18px;padding:10px 18px;border:0;border-radius:7px;background:var(--accent);color:var(--accent-fg);font-weight:600;cursor:pointer;font-size:14px}button:hover{filter:brightness(1.08)}button.btn-neutral{background:var(--neutral);color:var(--neutral-fg)}button.btn-danger{background:var(--danger);color:var(--danger-fg)}button.link{background:none;color:var(--link);padding:0;margin:0;font-weight:400}a{color:var(--link);text-decoration:none}a:hover{text-decoration:underline}.err{background:var(--err-bg);border:1px solid var(--err-border);color:var(--err-fg);padding:10px 12px;border-radius:7px;margin-bottom:8px;font-size:14px}.muted{color:var(--muted);font-size:13px}.pill{display:inline-block;padding:2px 10px;border-radius:999px;font-size:12px;font-weight:600}.pill.ok{background:var(--ok-bg);color:var(--ok-fg);border:1px solid var(--ok-border)}.pill.warn{background:var(--warn-bg);color:var(--warn-fg);border:1px solid var(--warn-border)}.grid{display:grid;grid-template-columns:1fr 1fr;gap:14px}.kv{padding:12px 14px;background:var(--bg);border:1px solid var(--border);border-radius:8px}.kv .k{font-size:12px;color:var(--muted)}.kv .v{font-size:15px;margin-top:2px}table{width:100%;border-collapse:collapse;margin-top:10px}th{text-align:left;font-size:12px;color:var(--muted);font-weight:600;padding:8px 10px;border-bottom:1px solid var(--border)}td{padding:9px 10px;border-bottom:1px solid var(--border-soft);font-size:14px;vertical-align:middle}tr:last-child td{border-bottom:0}pre{background:var(--bg);border:1px solid var(--border);border-radius:8px;color:var(--fg)}code{background:var(--bg);border:1px solid var(--border);border-radius:4px;padding:1px 5px;font-size:13px}.themetoggle{font-size:16px;line-height:1;cursor:pointer}.version{position:fixed;bottom:8px;right:12px;font-size:12px;color:var(--muted);opacity:.65}.version a{color:var(--muted)}");
    assert(!STYLE@.contains('<'));
    lemma_plain_no_start(STYLE@, sealed_note());
    reveal_strlit("<p class=\"muted\">The instance is sealed — vault and secret operations are blocked until it is unsealed via <code>/v1/sys/unseal</code>.</p>");
    reveal_strlit("(function(){try{var t=localStorage.getItem('ev-theme');if(!t){t=window.matchMedia&&window.matchMedia('(prefers-color-scheme: light)').matches?'light':'dark';}document.documentElement.setAttribute('data-theme',t);}catch(e){}})();function evToggleTheme(){var d=document.documentElement;var c=d.getAttribute('data-theme')==='light'?'dark':'light';d.setAttribute('data-theme',c);try{localStorage.setItem('ev-theme',c);}catch(e){}}");
    assert(!THEME_SCRIPT@.contains('<'));
    lemma_plain_no_start(THEME_SCRIPT@, sealed_note());
    reveal_strlit("<p class=\"muted\">The instance is sealed — vault and secret operations are blocked until it is unsealed via <code>/v1/sys/unseal</code>.</p>");
    reveal_strlit("0.1.5");
    assert(!APP_VERSION@.contains('<'));
    lemma_plain_no_start(APP_VERSION@, sealed_note());
}

proof fn lemma_layout_pieces_add_secret_button()
    ensures
        no_start("<!doctype html><html lang=\"en\"><head><meta charset=\"utf-8\"><meta name=\"viewport\" content=\"width=device-width,initial-scale=1\"><title>"@, add_secret_button()),
        no_start(" · EasyVault</title><script>"@, add_secret_button()),
        no_start("</script><style>"@, add_secret_button()),
        no_start("</style></head><body><header><div class=\"brand\">Easy<span>Vault</span></div><div class=\"right\"><button class=\"link themetoggle\" type=\"button\" onclick=\"evToggleTheme()\" title=\"Toggle light / dark\" aria-label=\"Toggle theme\">◐</button>"@, add_secret_button()),
        no_start("</div></header><main>"@, add_secret_button()),
        no_start("</main><div class=\"version\">v"@, add_secret_button()),
        no_start("</div></body></html>"@, add_secret_button()),
        no_start("<a href=\"/gui/account/password\" class=\"muted\" title=\"Account\">"@, add_secret_button()),
        no_start("</a> &nbsp;<form method=\"post\" action=\"/gui/logout\" style=\"margin:0;display:inline\"><button class=\"link\" type=\"submit\">Log out</button></form>"@, add_secret_button()),
        no_start("<div class=\"err\">"@, add_secret_button()),
        no_start("</div>"@, add_secret_button()),
        no_start(STYLE@, add_secret_button()),
        no_start(THEME_SCRIPT@, add_secret_button()),
        no_start(APP_VERSION@, add_secret_button()),
{
    assert(no_start("<!doctype html><html lang=\"en\"><head><meta charset=\"utf-8\"><meta name=\"viewport\" content=\"width=device-width,initial-scale=1\"><title>"@, add_secret_button())) by {
        reveal_with_fuel(departs_from, 3);
        reveal_strlit("<button type=\"button\">Add secret</button>");
        reveal_strlit("<!doctype html><html lang=\"en\"><head><meta charset=\"utf-8\"><meta name=\"viewport\" content=\"width=device-width,initial-scale=1\"><title>");
    }
    assert(no_start(" · EasyVault</title><script>"@, add_secret_button())) by {
        reveal_with_fuel(departs_from, 3);
        reveal_strlit("<button type=\"button\">Add secret</button>");
        reveal_strlit(" · EasyVault</title><script>");
    }
    assert(no_start("</script><style>"@, add_secret_button())) by {
        reveal_with_fuel(departs_from, 3);
        reveal_strlit("<button type=\"button\">Add secret</button>");
        reveal_strlit("</script><style>");
    }
    assert(no_start("</style></head><body><header><div class=\"brand\">Easy<span>Vault</span></div><div class=\"right\"><button class=\"link themetoggle\" type=\"button\" onclick=\"evToggleTheme()\" title=\"Toggle light / dark\" aria-label=\"Toggle theme\">◐</button>"@, add_secret_button())) by {
        reveal_with_fuel(departs_from, 10);
        reveal_strlit("<button type=\"button\">Add secret</button>");
        reveal_strlit("</style></head><body><header><div class=\"brand\">Easy<span>Vault</span></div><div class=\"right\"><button class=\"link themetoggle\" type=\"button\" onclick=\"evToggleTheme()\" title=\"Toggle light / dark\" aria-label=\"Toggle theme\">◐</button>");
    }
    assert(no_start("</div></header><main>"@, add_secret_button())) by {
        reveal_with_fuel(departs_from, 3);
        reveal_strlit("<button type=\"button\">Add secret</button>");
        reveal_strlit("</div></header><main>");
    }
    assert(no_start("</main><div class=\"version\">v"@, add_secret_button())) by {
        reveal_with_fuel(departs_from, 3);
        reveal_strlit("<button type=\"button\">Add secret</button>");
        reveal_strlit("</main><div class=\"version\">v");
    }
    assert(no_start("</div></body></html>"@, add_secret_button())) by {
        reveal_with_fuel(departs_from, 3);
        reveal_strlit("<button type=\"button\">Add secret</button>");
        reveal_strlit("</div></body></html>");
    }
    assert(no_start("<a href=\"/gui/account/password\" class=\"muted\" title=\"Account\">"@, add_secret_button())) by {
        reveal_with_fuel(departs_from, 3);
        reveal_strlit("<button type=\"button\">Add secret</button>");
        reveal_strlit("<a href=\"/gui/account/password\" class=\"muted\" title=\"Account\">");
    }
    assert(no_start("</a> &nbsp;<form method=\"post\" action=\"/gui/logout\" style=\"margin:0;display:inline\"><button class=\"link\" type=\"submit\">Log out</button></form>"@, add_secret_button())) by {
        reveal_with_fuel(departs_from, 10);
        reveal_strlit("<button type=\"button\">Add secret</button>");
        reveal_strlit("</a> &nbsp;<form method=\"post\" action=\"/gui/logout\" style=\"margin:0;display:inline\"><button class=\"link\" type=\"submit\">Log out</button></form>");
    }
    assert(no_start("<div class=\"err\">"@, add_secret_button())) by {
        reveal_with_fuel(departs_from, 3);
        reveal_strlit("<button type=\"button\">Add secret</button>");
        reveal_strlit("<div class=\"err\">");
    }
    assert(no_start("</div>"@, add_secret_button())) by {
        reveal_with_fuel(departs_from, 3);
        reveal_strlit("<button type=\"button\">Add secret</button>");
        reveal_strlit("</div>");
    }
    reveal_strlit("<button type=\"button\">Add secret</button>");
    reveal_strlit(":root{--bg:#0e1116;--card:#161b22;--border:#30363d;--border-soft:#21262d;--fg:#e6edf3;--muted:#7d8590;--h2:#9da7b3;--link:#58a6ff;--brand:#3fb950;--accent:#238636;--accent-hover:#2ea043;--accent-fg:#fff;--neutral:#30363d;--neutral-fg:#e6edf3;--danger:#b62324;--danger-fg:#fff;--err-bg:#3d1a1d;--err-border:#f85149;--err-fg:#ffa198;--ok-bg:#132e1a;--ok-fg:#3fb950;--ok-border:#238636;--warn-bg:#3d2a12;--warn-fg:#d29922;--warn-border:#9e6a03;color-scheme:dark}[data-theme=light]{--bg:#f6f8fa;--card:#ffffff;--border:#d0d7de;--border-soft:#eaeef2;--fg:#1f2328;--muted:#59636e;--h2:#59636e;--link:#0969da;--brand:#1a7f37;--accent:#1f883d;--accent-hover:#1a7f37;--accent-fg:#fff;--neutral:#eaeef2;--neutral-fg:#1f2328;--danger:#cf222e;--danger-fg:#fff;--err-bg:#ffebe9;--err-border:#cf222e;--err-fg:#82071e;--ok-bg:#dafbe1;--ok-fg:#1a7f37;--ok-border:#1f883d;--warn-bg:#fff8c5;--warn-fg:#9a6700;--warn-border:#d4a72c;color-scheme:light}*{box-sizing:border-box}body{margin:0;font:15px/1.5 system-ui,sans-serif;background:var(--bg);color:var(--fg)}header{display:flex;align-items:center;justify-content:space-between;padding:14px 22px;background:var(--card);border-bottom:1px solid var(--border)}header .brand{font-weight:700;letter-spacing:.3px}header .brand span{color:var(--brand)}header .right{display:flex;align-items:center;gap:14px}main{max-width:880px;margin:40px auto;padding:0 22px}.card{background:var(--card);border:1px solid var(--border);border-radius:10px;padding:24px;margin-bottom:20px}h1{font-size:22px;margin:0 0 6px}h2{font-size:16px;margin:0 0 14px;color:var(--h2)}label{display:block;margin:14px 0 6px;font-size:13px;color:var(--h2)}input,textarea,select{width:100%;padding:10px 12px;border:1px solid var(--border);border-radius:7px;background:var(--bg);color:var(--fg);font-size:14px}textarea{font-family:ui-monospace,monospace}button{margin-top:18px;padding:10px 18px;border:0;border-radius:7px;background:var(--accent);color:var(--accent-fg);font-weight:600;cursor:pointer;font-size:14px}button:hover{filter:brightness(1.08)}button.btn-neutral{background:var(--neutral);color:var(--neutral-fg)}button.btn-danger{background:var(--danger);color:var(--danger-fg)}button.link{background:none;color:var(--link);padding:0;margin:0;font-weight:400}a{color:var(--link);text-decoration:none}a:hover{text-decoration:underline}.err{background:var(--err-bg);border:1px solid var(--err-border);color:var(--err-fg);padding:10px 12px;border-radius:7px;margin-bottom:8px;font-size:14px}.muted{color:var(--muted);font-size:13px}.pill{display:inline-block;padding:2px 10px;border-radius:999px;font-size:12px;font-weight:600}.pill.ok{background:var(--ok-bg);color:var(--ok-fg);border:1px solid var(--ok-border)}.pill.warn{background:var(--warn-bg);color:var(--warn-fg);border:1px solid var(--warn-border)}.grid{display:grid;grid-template-columns:1fr 1fr;gap:14px}.kv{padding:12px 14px;background:var(--bg);border:1px solid var(--border);border-radius:8px}.kv .k{font-size:12px;color:var(--muted)}.kv .v{font-size:15px;margin-top:2px}table{width:100%;border-collapse:collapse;margin-top:10px}th{text-align:left;font-size:12px;color:var(--muted);font-weight:600;padding:8px 10px;border-bottom:1px solid var(--border)}td{padding:9px 10px;border-bottom:1px solid var(--border-soft);font-size:14px;vertical-align:middle}tr:last-child td{border-bottom:0}pre{background:var(--bg);border:1px solid var(--border);border-radius:8px;color:var(--fg)}code{background:var(--bg);border:1px solid var(--border);border-radius:4px;padding:1px 5px;font-size:13px}.themetoggle{font-size:16px;line-height:1;cursor:pointer}.version{position:fixed;bottom:8px;right:12px;font-size:12px;color:var(--muted);opacity:.65}.version a{color:var(--muted)}");
    assert(!STYLE@.contains('<'));
    lemma_plain_no_start(STYLE@, add_secret_button());
    reveal_strlit("<button type=\"button\">Add secret</button>");
    reveal_strlit("(function(){try{var t=localStorage.getItem('ev-theme');if(!t){t=window.matchMedia&&window.matchMedia('(prefers-color-scheme: light)').matches?'light':'dark';}document.documentElement.setAttribute('data-theme',t);}catch(e){}})();function evToggleTheme(){var d=document.documentElement;var c=d.getAttribute('data-theme')==='light'?'dark':'light';d.setAttribute('data-theme',c);try{localStorage.setItem('ev-theme',c);}catch(e){}}");
    assert(!THEME_SCRIPT@.contains('<'));
    lemma_plain_no_start(THEME_SCRIPT@, add_secret_button());
    reveal_strlit("<button type=\"button\">Add secret</button>");
    reveal_strlit("0.1.5");
    assert(!APP_VERSION@.contains('<'));
    lemma_plain_no_start(APP_VERSION@, add_secret_button());
}

proof fn lemma_layout_pieces_tokens_button()
    ensures
        no_start("<!doctype html><html lang=\"en\"><head><meta charset=\"utf-8\"><meta name=\"viewport\" content=\"width=device-width,initial-scale=1\"><title>"@, tokens_button()),
        no_start(" · EasyVault</title><script>"@, tokens_button()),
        no_start("</script><style>"@, tokens_button()),
        no_start("</style></head><body><header><div class=\"brand\">Easy<span>Vault</span></div><div class=\"right\"><button class=\"link themetoggle\" type=\"button\" onclick=\"evToggleTheme()\" title=\"Toggle light / dark\" aria-label=\"Toggle theme\">◐</button>"@, tokens_button()),
        no_start("</div></header><main>"@, tokens_button()),
        no_start("</main><div class=\"version\">v"@, tokens_button()),
        no_start("</div></body></html>"@, tokens_button()),
        no_start("<a href=\"/gui/account/password\" class=\"muted\" title=\"Account\">"@, tokens_button()),
        no_start("</a> &nbsp;<form method=\"post\" action=\"/gui/logout\" style=\"margin:0;display:inline\"><button class=\"link\" type=\"submit\">Log out</button></form>"@, tokens_button()),
        no_start("<div class=\"err\">"@, tokens_button()),
        no_start("</div>"@, tokens_button()),
        no_start(STYLE@, tokens_button()),
        no_start(THEME_SCRIPT@, tokens_button()),
        no_start(APP_VERSION@, tokens_button()),
{
    assert(no_start("<!doctype html><html lang=\"en\"><head><meta charset=\"utf-8\"><meta name=\"viewport\" content=\"width=device-width,initial-scale=1\"><title>"@, tokens_button())) by {
        reveal_with_fuel(departs_from, 3);
        reveal_strlit("<button type=\"button\" class=\"btn-neutral\">Tokens</button>");
        reveal_strlit("<!doctype html><html lang=\"en\"><head><meta charset=\"utf-8\"><meta name=\"viewport\" content=\"width=device-width,initial-scale=1\"><title>");
    }
    assert(no_start(" · EasyVault</title><script>"@, tokens_button())) by {
        reveal_with_fuel(departs_from, 3);
        reveal_strlit("<button type=\"button\" class=\"btn-neutral\">Tokens</button>");
        reveal_strlit(" · EasyVault</title><script>");
    }
    assert(no_start("</script><style>"@, tokens_button())) by {
        reveal_with_fuel(departs_from, 3);
        reveal_strlit("<button type=\"button\" class=\"btn-neutral\">Tokens</button>");
        reveal_strlit("</script><style>");
    }
    assert(no_start("</style></head><body><header><div class=\"brand\">Easy<span>Vault</span></div><div class=\"right\"><button class=\"link themetoggle\" type=\"button\" onclick=\"evToggleTheme()\" title=\"Toggle light / dark\" aria-label=\"Toggle theme\">◐</button>"@, tokens_button())) by {
        reveal_with_fuel(departs_from, 10);
        reveal_strlit("<button type=\"button\" class=\"btn-neutral\">Tokens</button>");
        reveal_strlit("</style></head><body><header><div class=\"brand\">Easy<span>Vault</span></div><div class=\"right\"><button class=\"link themetoggle\" type=\"button\" onclick=\"evToggleTheme()\" title=\"Toggle light / dark\" aria-label=\"Toggle theme\">◐</button>");
    }
    assert(no_start("</div></header><main>"@, tokens_button())) by {
        reveal_with_fuel(departs_from, 3);
        reveal_strlit("<button type=\"button\" class=\"btn-neutral\">Tokens</button>");
        reveal_strlit("</div></header><main>");
    }
    assert(no_start("</main><div class=\"version\">v"@, tokens_button())) by {
        reveal_with_fuel(departs_from, 3);
        reveal_strlit("<button type=\"button\" class=\"btn-neutral\">Tokens</button>");
        reveal_strlit("</main><div class=\"version\">v");
    }
    assert(no_start("</div></body></html>"@, tokens_button())) by {
        reveal_with_fuel(departs_from, 3);
        reveal_strlit("<button type=\"button\" class=\"btn-neutral\">Tokens</button>");
        reveal_strlit("</div></body></html>");
    }
    assert(no_start("<a href=\"/gui/account/password\" class=\"muted\" title=\"Account\">"@, tokens_button())) by {
        reveal_with_fuel(departs_from, 3);
        reveal_strlit("<button type=\"button\" class=\"btn-neutral\">Tokens</button>");
        reveal_strlit("<a href=\"/gui/account/password\" class=\"muted\" title=\"Account\">");
    }
    assert(no_start("</a> &nbsp;<form method=\"post\" action=\"/gui/logout\" style=\"margin:0;display:inline\"><button class=\"link\" type=\"submit\">Log out</button></form>"@, tokens_button())) by {
        reveal_with_fuel(departs_from, 10);
        reveal_strlit("<button type=\"button\" class=\"btn-neutral\">Tokens</button>");
        reveal_strlit("</a> &nbsp;<form method=\"post\" action=\"/gui/logout\" style=\"margin:0;display:inline\"><button class=\"link\" type=\"submit\">Log out</button></form>");
    }
    assert(no_start("<div class=\"err\">"@, tokens_button())) by {
        reveal_with_fuel(departs_from, 3);
        reveal_strlit("<button type=\"button\" class=\"btn-neutral\">Tokens</button>");
        reveal_strlit("<div class=\"err\">");
    }
    assert(no_start("</div>"@, tokens_button())) by {
        reveal_with_fuel(departs_from, 3);
        reveal_strlit("<button type=\"button\" class=\"btn-neutral\">Tokens</button>");
        reveal_strlit("</div>");
    }
    reveal_strlit("<button type=\"button\" class=\"btn-neutral\">Tokens</button>");
    reveal_strlit(":root{--bg:#0e1116;--card:#161b22;--border:#30363d;--border-soft:#21262d;--fg:#e6edf3;--muted:#7d8590;--h2:#9da7b3;--link:#58a6ff;--brand:#3fb950;--accent:#238636;--accent-hover:#2ea043;--accent-fg:#fff;--neutral:#30363d;--neutral-fg:#e6edf3;--danger:#b62324;--danger-fg:#fff;--err-bg:#3d1a1d;--err-border:#f85149;--err-fg:#ffa198;--ok-bg:#132e1a;--ok-fg:#3fb950;--ok-border:#238636;--warn-bg:#3d2a12;--warn-fg:#d29922;--warn-border:#9e6a03;color-scheme:dark}[data-theme=light]{--bg:#f6f8fa;--card:#ffffff;--border:#d0d7de;--border-soft:#eaeef2;--fg:#1f2328;--muted:#59636e;--h2:#59636e;--link:#0969da;--brand:#1a7f37;--accent:#1f883d;--accent-hover:#1a7f37;--accent-fg:#fff;--neutral:#eaeef2;--neutral-fg:#1f2328;--danger:#cf222e;--danger-fg:#fff;--err-bg:#ffebe9;--err-border:#cf222e;--err-fg:#82071e;--ok-bg:#dafbe1;--ok-fg:#1a7f37;--ok-border:#1f883d;--warn-bg:#fff8c5;--warn-fg:#9a6700;--warn-border:#d4a72c;color-scheme:light}*{box-sizing:border-box}body{margin:0;font:15px/1.5 system-ui,sans-serif;background:var(--bg);color:var(--fg)}header{display:flex;align-items:center;justify-content:space-between;padding:14px 22px;background:var(--card);border-bottom:1px solid var(--border)}header .brand{font-weight:700;letter-spacing:.3px}header .brand span{color:var(--brand)}header .right{display:flex;align-items:center;gap:14px}main{max-width:880px;margin:40px auto;padding:0 22px}.card{background:var(--card);border:1px solid var(--border);border-radius:10px;padding:24px;margin-bottom:20px}h1{font-size:22px;margin:0 0 6px}h2{font-size:16px;margin:0 0 14px;color:var(--h2)}label{display:block;margin:14px 0 6px;font-size:13px;color:var(--h2)}input,textarea,select{width:100%;padding:10px 12px;border:1px solid var(--border);border-radius:7px;background:var(--bg);color:var(--fg);font-size:14px}textarea{font-family:ui-monospace,monospace}button{margin-top:18px;padding:10px 18px;border:0;border-radius:7px;background:var(--accent);color:var(--accent-fg);font-weight:600;cursor:pointer;font-size:14px}button:hover{filter:brightness(1.08)}button.btn-neutral{background:var(--neutral);color:var(--neutral-fg)}button.btn-danger{background:var(--danger);color:var(--danger-fg)}button.link{background:none;color:var(--link);padding:0;margin:0;font-weight:400}a{color:var(--link);text-decoration:none}a:hover{text-decoration:underline}.err{background:var(--err-bg);border:1px solid var(--err-border);color:var(--err-fg);padding:10px 12px;border-radius:7px;margin-bottom:8px;font-size:14px}.muted{color:var(--muted);font-size:13px}.pill{display:inline-block;padding:2px 10px;border-radius:999px;font-size:12px;font-weight:600}.pill.ok{background:var(--ok-bg);color:var(--ok-fg);border:1px solid var(--ok-border)}.pill.warn{background:var(--warn-bg);color:var(--warn-fg);border:1px solid var(--warn-border)}.grid{display:grid;grid-template-columns:1fr 1fr;gap:14px}.kv{padding:12px 14px;background:var(--bg);border:1px solid var(--border);border-radius:8px}.kv .k{font-size:12px;color:var(--muted)}.kv .v{font-size:15px;margin-top:2px}table{width:100%;border-collapse:collapse;margin-top:10px}th{text-align:left;font-size:12px;color:var(--muted);font-weight:600;padding:8px 10px;border-bottom:1px solid var(--border)}td{padding:9px 10px;border-bottom:1px solid var(--border-soft);font-size:14px;vertical-align:middle}tr:last-child td{border-bottom:0}pre{background:var(--bg);border:1px solid var(--border);border-radius:8px;color:var(--fg)}code{background:var(--bg);border:1px solid var(--border);border-radius:4px;padding:1px 5px;font-size:13px}.themetoggle{font-size:16px;line-height:1;cursor:pointer}.version{position:fixed;bottom:8px;right:12px;font-size:12px;color:var(--muted);opacity:.65}.version a{color:var(--muted)}");
    assert(!STYLE@.contains('<'));
    lemma_plain_no_start(STYLE@, tokens_button());
    reveal_strlit("<button type=\"button\" class=\"btn-neutral\">Tokens</button>");
    reveal_strlit("(function(){try{var t=localStorage.getItem('ev-theme');if(!t){t=window.matchMedia&&window.matchMedia('(prefers-color-scheme: light)').matches?'light':'dark';}document.documentElement.setAttribute('data-theme',t);}catch(e){}})();function evToggleTheme(){var d=document.documentElement;var c=d.getAttribute('data-theme')==='light'?'dark':'light';d.setAttribute('data-theme',c);try{localStorage.setItem('ev-theme',c);}catch(e){}}");
    assert(!THEME_SCRIPT@.contains('<'));
    lemma_plain_no_start(THEME_SCRIPT@, tokens_button());
    reveal_strlit("<button type=\"button\" class=\"btn-neutral\">Tokens</button>");
    reveal_strlit("0.1.5");
    assert(!APP_VERSION@.contains('<'));
    lemma_plain_no_start(APP_VERSION@, tokens_button());
}

proof fn lemma_layout_pieces_approles_button()
    ensures
        no_start("<!doctype html><html lang=\"en\"><head><meta charset=\"utf-8\"><meta name=\"viewport\" content=\"width=device-width,initial-scale=1\"><title>"@, approles_button()),
        no_start(" · EasyVault</title><script>"@, approles_button()),
        no_start("</script><style>"@, approles_button()),
        no_start("</style></head><body><header><div class=\"brand\">Easy<span>Vault</span></div><div class=\"right\"><button class=\"link themetoggle\" type=\"button\" onclick=\"evToggleTheme()\" title=\"Toggle light / dark\" aria-label=\"Toggle theme\">◐</button>"@, approles_button()),
        no_start("</div></header><main>"@, approles_button()),
        no_start("</main><div class=\"version\">v"@, approles_button()),
        no_start("</div></body></html>"@, approles_button()),
        no_start("<a href=\"/gui/account/password\" class=\"muted\" title=\"Account\">"@, approles_button()),
        no_start("</a> &nbsp;<form method=\"post\" action=\"/gui/logout\" style=\"margin:0;display:inline\"><button class=\"link\" type=\"submit\">Log out</button></form>"@, approles_button()),
        no_start("<div class=\"err\">"@, approles_button()),
        no_start("</div>"@, approles_button()),
        no_start(STYLE@, approles_button()),
        no_start(THEME_SCRIPT@, approles_button()),
        no_start(APP_VERSION@, approles_button()),
{
    assert(no_start("<!doctype html><html lang=\"en\"><head><meta charset=\"utf-8\"><meta name=\"viewport\" content=\"width=device-width,initial-scale=1\"><title>"@, approles_button())) by {
        reveal_with_fuel(departs_from, 3);
        reveal_strlit("<button type=\"button\" class=\"btn-neutral\">AppRoles</button>");
        reveal_strlit("<!doctype html><html lang=\"en\"><head><meta charset=\"utf-8\"><meta name=\"viewport\" content=\"width=device-width,initial-scale=1\"><title>");
    }
    assert(no_start(" · EasyVault</title><script>"@, approles_button())) by {
        reveal_with_fuel(departs_from, 3);
        reveal_strlit("<button type=\"button\" class=\"btn-neutral\">AppRoles</button>");
        reveal_strlit(" · EasyVault</title><script>");
    }
    assert(no_start("</script><style>"@, approles_button())) by {
        reveal_with_fuel(departs_from, 3);
        reveal_strlit("<button type=\"button\" class=\"btn-neutral\">AppRoles</button>");
        reveal_strlit("</script><style>");
    }
    assert(no_start("</style></head><body><header><div class=\"brand\">Easy<span>Vault</span></div><div class=\"right\"><button class=\"link themetoggle\" type=\"button\" onclick=\"evToggleTheme()\" title=\"Toggle light / dark\" aria-label=\"Toggle theme\">◐</button>"@, approles_button())) by {
        reveal_with_fuel(departs_from, 10);
        reveal_strlit("<button type=\"button\" class=\"btn-neutral\">AppRoles</button>");
        reveal_strlit("</style></head><body><header><div class=\"brand\">Easy<span>Vault</span></div><div class=\"right\"><button class=\"link themetoggle\" type=\"button\" onclick=\"evToggleTheme()\" title=\"Toggle light / dark\" aria-label=\"Toggle theme\">◐</button>");
    }
    assert(no_start("</div></header><main>"@, approles_button())) by {
        reveal_with_fuel(departs_from, 3);
        reveal_strlit("<button type=\"button\" class=\"btn-neutral\">AppRoles</button>");
        reveal_strlit("</div></header><main>");
    }
    assert(no_start("</main><div class=\"version\">v"@, approles_button())) by {
        reveal_with_fuel(departs_from, 3);
        reveal_strlit("<button type=\"button\" class=\"btn-neutral\">AppRoles</button>");
        reveal_strlit("</main><div class=\"version\">v");
    }
    assert(no_start("</div></body></html>"@, approles_button())) by {
        reveal_with_fuel(departs_from, 3);
        reveal_strlit("<button type=\"button\" class=\"btn-neutral\">AppRoles</button>");
        reveal_strlit("</div></body></html>");
    }
    assert(no_start("<a href=\"/gui/account/password\" class=\"muted\" title=\"Account\">"@, approles_button())) by {
        reveal_with_fuel(departs_from, 3);
        reveal_strlit("<button type=\"button\" class=\"btn-neutral\">AppRoles</button>");
        reveal_strlit("<a href=\"/gui/account/password\" class=\"muted\" title=\"Account\">");
    }
    assert(no_start("</a> &nbsp;<form method=\"post\" action=\"/gui/logout\" style=\"margin:0;display:inline\"><button class=\"link\" type=\"submit\">Log out</button></form>"@, approles_button())) by {
        reveal_with_fuel(departs_from, 10);
        reveal_strlit("<button type=\"button\" class=\"btn-neutral\">AppRoles</button>");
        reveal_strlit("</a> &nbsp;<form method=\"post\" action=\"/gui/logout\" style=\"margin:0;display:inline\"><button class=\"link\" type=\"submit\">Log out</button></form>");
    }
    assert(no_start("<div class=\"err\">"@, approles_button())) by {
        reveal_with_fuel(departs_from, 3);
        reveal_strlit("<button type=\"button\" class=\"btn-neutral\">AppRoles</button>");
        reveal_strlit("<div class=\"err\">");
    }
    assert(no_start("</div>"@, approles_button())) by {
        reveal_with_fuel(departs_from, 3);
        reveal_strlit("<button type=\"button\" class=\"btn-neutral\">AppRoles</button>");
        reveal_strlit("</div>");
    }
    reveal_strlit("<button type=\"button\" class=\"btn-neutral\">AppRoles</button>");
    reveal_strlit(":root{--bg:#0e1116;--card:#161b22;--border:#30363d;--border-soft:#21262d;--fg:#e6edf3;--muted:#7d8590;--h2:#9da7b3;--link:#58a6ff;--brand:#3fb950;--accent:#238636;--accent-hover:#2ea043;--accent-fg:#fff;--neutral:#30363d;--neutral-fg:#e6edf3;--danger:#b62324;--danger-fg:#fff;--err-bg:#3d1a1d;--err-border:#f85149;--err-fg:#ffa198;--ok-bg:#132e1a;--ok-fg:#3fb950;--ok-border:#238636;--warn-bg:#3d2a12;--warn-fg:#d29922;--warn-border:#9e6a03;color-scheme:dark}[data-theme=light]{--bg:#f6f8fa;--card:#ffffff;--border:#d0d7de;--border-soft:#eaeef2;--fg:#1f2328;--muted:#59636e;--h2:#59636e;--link:#0969da;--brand:#1a7f37;--accent:#1f883d;--accent-hover:#1a7f37;--accent-fg:#fff;--neutral:#eaeef2;--neutral-fg:#1f2328;--danger:#cf222e;--danger-fg:#fff;--err-bg:#ffebe9;--err-border:#cf222e;--err-fg:#82071e;--ok-bg:#dafbe1;--ok-fg:#1a7f37;--ok-border:#1f883d;--warn-bg:#fff8c5;--warn-fg:#9a6700;--warn-border:#d4a72c;color-scheme:light}*{box-sizing:border-box}body{margin:0;font:15px/1.5 system-ui,sans-serif;background:var(--bg);color:var(--fg)}header{display:flex;align-items:center;justify-content:space-between;padding:14px 22px;background:var(--card);border-bottom:1px solid var(--border)}header .brand{font-weight:700;letter-spacing:.3px}header .brand span{color:var(--brand)}header .right{display:flex;align-items:center;gap:14px}main{max-width:880px;margin:40px auto;padding:0 22px}.card{background:var(--card);border:1px solid var(--border);border-radius:10px;padding:24px;margin-bottom:20px}h1{font-size:22px;margin:0 0 6px}h2{font-size:16px;margin:0 0 14px;color:var(--h2)}label{display:block;margin:14px 0 6px;font-size:13px;color:var(--h2)}input,textarea,select{width:100%;padding:10px 12px;border:1px solid var(--border);border-radius:7px;background:var(--bg);color:var(--fg);font-size:14px}textarea{font-family:ui-monospace,monospace}button{margin-top:18px;padding:10px 18px;border:0;border-radius:7px;background:var(--accent);color:var(--accent-fg);font-weight:600;cursor:pointer;font-size:14px}button:hover{filter:brightness(1.08)}button.btn-neutral{background:var(--neutral);color:var(--neutral-fg)}button.btn-danger{background:var(--danger);color:var(--danger-fg)}button.link{background:none;color:var(--link);padding:0;margin:0;font-weight:400}a{color:var(--link);text-decoration:none}a:hover{text-decoration:underline}.err{background:var(--err-bg);border:1px solid var(--err-border);color:var(--err-fg);padding:10px 12px;border-radius:7px;margin-bottom:8px;font-size:14px}.muted{color:var(--muted);font-size:13px}.pill{display:inline-block;padding:2px 10px;border-radius:999px;font-size:12px;font-weight:600}.pill.ok{background:var(--ok-bg);color:var(--ok-fg);border:1px solid var(--ok-border)}.pill.warn{background:var(--warn-bg);color:var(--warn-fg);border:1px solid var(--warn-border)}.grid{display:grid;grid-template-columns:1fr 1fr;gap:14px}.kv{padding:12px 14px;background:var(--bg);border:1px solid var(--border);border-radius:8px}.kv .k{font-size:12px;color:var(--muted)}.kv .v{font-size:15px;margin-top:2px}table{width:100%;border-collapse:collapse;margin-top:10px}th{text-align:left;font-size:12px;color:var(--muted);font-weight:600;padding:8px 10px;border-bottom:1px solid var(--border)}td{padding:9px 10px;border-bottom:1px solid var(--border-soft);font-size:14px;vertical-align:middle}tr:last-child td{border-bottom:0}pre{background:var(--bg);border:1px solid var(--border);border-radius:8px;color:var(--fg)}code{background:var(--bg);border:1px solid var(--border);border-radius:4px;padding:1px 5px;font-size:13px}.themetoggle{font-size:16px;line-height:1;cursor:pointer}.version{position:fixed;bottom:8px;right:12px;font-size:12px;color:var(--muted);opacity:.65}.version a{color:var(--muted)}");
    assert(!STYLE@.contains('<'));
    lemma_plain_no_start(STYLE@, approles_button());
    reveal_strlit("<button type=\"button\" class=\"btn-neutral\">AppRoles</button>");
    reveal_strlit("(function(){try{var t=localStorage.getItem('ev-theme');if(!t){t=window.matchMedia&&window.matchMedia('(prefers-color-scheme: light)').matches?'light':'dark';}document.documentElement.setAttribute('data-theme',t);}catch(e){}})();function evToggleTheme(){var d=document.documentElement;var c=d.getAttribute('data-theme')==='light'?'dark':'light';d.setAttribute('data-theme',c);try{localStorage.setItem('ev-theme',c);}catch(e){}}");
    assert(!THEME_SCRIPT@.contains('<'));
    lemma_plain_no_start(THEME_SCRIPT@, approles_button());
    reveal_strlit("<button type=\"button\" class=\"btn-neutral\">AppRoles</button>");
    reveal_strlit("0.1.5");
    assert(!APP_VERSION@.contains('<'));
    lemma_plain_no_start(APP_VERSION@, approles_button());
}

proof fn lemma_layout_pieces_revoke_button()
    ensures
        no_start("<!doctype html><html lang=\"en\"><head><meta charset=\"utf-8\"><meta name=\"viewport\" content=\"width=device-width,initial-scale=1\"><title>"@, revoke_button()),
        no_start(" · EasyVault</title><script>"@, revoke_button()),
        no_start("</script><style>"@, revoke_button()),
        no_start("</style></head><body><header><div class=\"brand\">Easy<span>Vault</span></div><div class=\"right\"><button class=\"link themetoggle\" type=\"button\" onclick=\"evToggleTheme()\" title=\"Toggle light / dark\" aria-label=\"Toggle theme\">◐</button>"@, revoke_button()),
        no_start("</div></header><main>"@, revoke_button()),
        no_start("</main><div class=\"version\">v"@, revoke_button()),
        no_start("</div></body></html>"@, revoke_button()),
        no_start("<a href=\"/gui/account/password\" class=\"muted\" title=\"Account\">"@, revoke_button()),
        no_start("</a> &nbsp;<form method=\"post\" action=\"/gui/logout\" style=\"margin:0;display:inline\"><button class=\"link\" type=\"submit\">Log out</button></form>"@, revoke_button()),
        no_start("<div class=\"err\">"@, revoke_button()),
        no_start("</div>"@, revoke_button()),
        no_start(STYLE@, revoke_button()),
        no_start(THEME_SCRIPT@, revoke_button()),
        no_start(APP_VERSION@, revoke_button()),
{
    assert(no_start("<!doctype html><html lang=\"en\"><head><meta charset=\"utf-8\"><meta name=\"viewport\" content=\"width=device-width,initial-scale=1\"><title>"@, revoke_button())) by {
        reveal_with_fuel(departs_from, 3);
        reveal_strlit("<button class=\"link\" type=\"submit\">revoke</button>");
        reveal_strlit("<!doctype html><html lang=\"en\"><head><meta charset=\"utf-8\"><meta name=\"viewport\" content=\"width=device-width,initial-scale=1\"><title>");
    }
    assert(no_start(" · EasyVault</title><script>"@, revoke_button())) by {
        reveal_with_fuel(departs_from, 3);
        reveal_strlit("<button class=\"link\" type=\"submit\">revoke</button>");
        reveal_strlit(" · EasyVault</title><script>");
    }
    assert(no_start("</script><style>"@, revoke_button())) by {
        reveal_with_fuel(departs_from, 3);
        reveal_strlit("<button class=\"link\" type=\"submit\">revoke</button>");
        reveal_strlit("</script><style>");
    }
    assert(no_start("</style></head><body><header><div class=\"brand\">Easy<span>Vault</span></div><div class=\"right\"><button class=\"link themetoggle\" type=\"button\" onclick=\"evToggleTheme()\" title=\"Toggle light / dark\" aria-label=\"Toggle theme\">◐</button>"@, revoke_button())) by {
        reveal_with_fuel(departs_from, 21);
        reveal_strlit("<button class=\"link\" type=\"submit\">revoke</button>");
        reveal_strlit("</style></head><body><header><div class=\"brand\">Easy<span>Vault</span></div><div class=\"right\"><button class=\"link themetoggle\" type=\"button\" onclick=\"evToggleTheme()\" title=\"Toggle light / dark\" aria-label=\"Toggle theme\">◐</button>");
    }
    assert(no_start("</div></header><main>"@, revoke_button())) by {
        reveal_with_fuel(departs_from, 3);
        reveal_strlit("<button class=\"link\" type=\"submit\">revoke</button>");
        reveal_strlit("</div></header><main>");
    }
    assert(no_start("</main><div class=\"version\">v"@, revoke_button())) by {
        reveal_with_fuel(departs_from, 3);
        reveal_strlit("<button class=\"link\" type=\"submit\">revoke</button>");
        reveal_strlit("</main><div class=\"version\">v");
    }
    assert(no_start("</div></body></html>"@, revoke_button())) by {
        reveal_with_fuel(departs_from, 3);
        reveal_strlit("<button class=\"link\" type=\"submit\">revoke</button>");
        reveal_strlit("</div></body></html>");
    }
    assert(no_start("<a href=\"/gui/account/password\" class=\"muted\" title=\"Account\">"@, revoke_button())) by {
        reveal_with_fuel(departs_from, 3);
        reveal_strlit("<button class=\"link\" type=\"submit\">revoke</button>");
        reveal_strlit("<a href=\"/gui/account/password\" class=\"muted\" title=\"Account\">");
    }
    assert(no_start("</a> &nbsp;<form method=\"post\" action=\"/gui/logout\" style=\"margin:0;display:inline\"><button class=\"link\" type=\"submit\">Log out</button></form>"@, revoke_button())) by {
        reveal_with_fuel(departs_from, 37);
        reveal_strlit("<button class=\"link\" type=\"submit\">revoke</button>");
        reveal_strlit("</a> &nbsp;<form method=\"post\" action=\"/gui/logout\" style=\"margin:0;display:inline\"><button class=\"link\" type=\"submit\">Log out</button></form>");
    }
    assert(no_start("<div class=\"err\">"@, revoke_button())) by {
        reveal_with_fuel(departs_from, 3);
        reveal_strlit("<button class=\"link\" type=\"submit\">revoke</button>");
        reveal_strlit("<div class=\"err\">");
    }
    assert(no_start("</div>"@, revoke_button())) by {
        reveal_with_fuel(departs_from, 3);
        reveal_strlit("<button class=\"link\" type=\"submit\">revoke</button>");
        reveal_strlit("</div>");
    }
    reveal_strlit("<button class=\"link\" type=\"submit\">revoke</button>");
    reveal_strlit(":root{--bg:#0e1116;--card:#161b22;--border:#30363d;--border-soft:#21262d;--fg:#e6edf3;--muted:#7d8590;--h2:#9da7b3;--link:#58a6ff;--brand:#3fb950;--accent:#238636;--accent-hover:#2ea043;--accent-fg:#fff;--neutral:#30363d;--neutral-fg:#e6edf3;--danger:#b62324;--danger-fg:#fff;--err-bg:#3d1a1d;--err-border:#f85149;--err-fg:#ffa198;--ok-bg:#132e1a;--ok-fg:#3fb950;--ok-border:#238636;--warn-bg:#3d2a12;--warn-fg:#d29922;--warn-border:#9e6a03;color-scheme:dark}[data-theme=light]{--bg:#f6f8fa;--card:#ffffff;--border:#d0d7de;--border-soft:#eaeef2;--fg:#1f2328;--muted:#59636e;--h2:#59636e;--link:#0969da;--brand:#1a7f37;--accent:#1f883d;--accent-hover:#1a7f37;--accent-fg:#fff;--neutral:#eaeef2;--neutral-fg:#1f2328;--danger:#cf222e;--danger-fg:#fff;--err-bg:#ffebe9;--err-border:#cf222e;--err-fg:#82071e;--ok-bg:#dafbe1;--ok-fg:#1a7f37;--ok-border:#1f883d;--warn-bg:#fff8c5;--warn-fg:#9a6700;--warn-border:#d4a72c;color-scheme:light}*{box-sizing:border-box}body{margin:0;font:15px/1.5 system-ui,sans-serif;background:var(--bg);color:var(--fg)}header{display:flex;align-items:center;justify-content:space-between;padding:14px 22px;background:var(--card);border-bottom:1px solid var(--border)}header .brand{font-weight:700;letter-spacing:.3px}header .brand span{color:var(--brand)}header .right{display:flex;align-items:center;gap:14px}main{max-width:880px;margin:40px auto;padding:0 22px}.card{background:var(--card);border:1px solid var(--border);border-radius:10px;padding:24px;margin-bottom:20px}h1{font-size:22px;margin:0 0 6px}h2{font-size:16px;margin:0 0 14px;color:var(--h2)}label{display:block;margin:14px 0 6px;font-size:13px;color:var(--h2)}input,textarea,select{width:100%;padding:10px 12px;border:1px solid var(--border);border-radius:7px;background:var(--bg);color:var(--fg);font-size:14px}textarea{font-family:ui-monospace,monospace}button{margin-top:18px;padding:10px 18px;border:0;border-radius:7px;background:var(--accent);color:var(--accent-fg);font-weight:600;cursor:pointer;font-size:14px}button:hover{filter:brightness(1.08)}button.btn-neutral{background:var(--neutral);color:var(--neutral-fg)}button.btn-danger{background:var(--danger);color:var(--danger-fg)}button.link{background:none;color:var(--link);padding:0;margin:0;font-weight:400}a{color:var(--link);text-decoration:none}a:hover{text-decoration:underline}.err{background:var(--err-bg);border:1px solid var(--err-border);color:var(--err-fg);padding:10px 12px;border-radius:7px;margin-bottom:8px;font-size:14px}.muted{color:var(--muted);font-size:13px}.pill{display:inline-block;padding:2px 10px;border-radius:999px;font-size:12px;font-weight:600}.pill.ok{background:var(--ok-bg);color:var(--ok-fg);border:1px solid var(--ok-border)}.pill.warn{background:var(--warn-bg);color:var(--warn-fg);border:1px solid var(--warn-border)}.grid{display:grid;grid-template-columns:1fr 1fr;gap:14px}.kv{padding:12px 14px;background:var(--bg);border:1px solid var(--border);border-radius:8px}.kv .k{font-size:12px;color:var(--muted)}.kv .v{font-size:15px;margin-top:2px}table{width:100%;border-collapse:collapse;margin-top:10px}th{text-align:left;font-size:12px;color:var(--muted);font-weight:600;padding:8px 10px;border-bottom:1px solid var(--border)}td{padding:9px 10px;border-bottom:1px solid var(--border-soft);font-size:14px;vertical-align:middle}tr:last-child td{border-bottom:0}pre{background:var(--bg);border:1px solid var(--border);border-radius:8px;color:var(--fg)}code{background:var(--bg);border:1px solid var(--border);border-radius:4px;padding:1px 5px;font-size:13px}.themetoggle{font-size:16px;line-height:1;cursor:pointer}.version{position:fixed;bottom:8px;right:12px;font-size:12px;color:var(--muted);opacity:.65}.version a{color:var(--muted)}");
    assert(!STYLE@.contains('<'));
    lemma_plain_no_start(STYLE@, revoke_button());
    reveal_strlit("<button class=\"link\" type=\"submit\">revoke</button>");
    reveal_strlit("(function(){try{var t=localStorage.getItem('ev-theme');if(!t){t=window.matchMedia&&window.matchMedia('(prefers-color-scheme: light)').matches?'light':'dark';}document.documentElement.setAttribute('data-theme',t);}catch(e){}})();function evToggleTheme(){var d=document.documentElement;var c=d.getAttribute('data-theme')==='light'?'dark':'light';d.setAttribute('data-theme',c);try{localStorage.setItem('ev-theme',c);}catch(e){}}");
    assert(!THEME_SCRIPT@.contains('<'));
    lemma_plain_no_start(THEME_SCRIPT@, revoke_button());
    reveal_strlit("<button class=\"link\" type=\"submit\">revoke</button>");
    reveal_strlit("0.1.5");
    assert(!APP_VERSION@.contains('<'));
    lemma_plain_no_start(APP_VERSION@, revoke_button());
}

proof fn lemma_layout_pieces_tampered_pill()
    ensures
        no_start("<!doctype html><html lang=\"en\"><head><meta charset=\"utf-8\"><meta name=\"viewport\" content=\"width=device-width,initial-scale=1\"><title>"@, tampered_pill()),
        no_start(" · EasyVault</title><script>"@, tampered_pill()),
        no_start("</script><style>"@, tampered_pill()),
        no_start("</style></head><body><header><div class=\"brand\">Easy<span>Vault</span></div><div class=\"right\"><button class=\"link themetoggle\" type=\"button\" onclick=\"evToggleTheme()\" title=\"Toggle light / dark\" aria-label=\"Toggle theme\">◐</button>"@, tampered_pill()),
        no_start("</div></header><main>"@, tampered_pill()),
        no_start("</main><div class=\"version\">v"@, tampered_pill()),
        no_start("</div></body></html>"@, tampered_pill()),
        no_start("<a href=\"/gui/account/password\" class=\"muted\" title=\"Account\">"@, tampered_pill()),
        no_start("</a> &nbsp;<form method=\"post\" action=\"/gui/logout\" style=\"margin:0;display:inline\"><button class=\"link\" type=\"submit\">Log out</button></form>"@, tampered_pill()),
        no_start("<div class=\"err\">"@, tampered_pill()),
        no_start("</div>"@, tampered_pill()),
        no_start(STYLE@, tampered_pill()),
        no_start(THEME_SCRIPT@, tampered_pill()),
        no_start(APP_VERSION@, tampered_pill()),
{
    assert(no_start("<!doctype html><html lang=\"en\"><head><meta charset=\"utf-8\"><meta name=\"viewport\" content=\"width=device-width,initial-scale=1\"><title>"@, tampered_pill())) by {
        reveal_with_fuel(departs_from, 3);
        reveal_strlit("<span class=\"pill warn\">TAMPERED</span>");
        reveal_strlit("<!doctype html><html lang=\"en\"><head><meta charset=\"utf-8\"><meta name=\"viewport\" content=\"width=device-width,initial-scale=1\"><title>");
    }
    assert(no_start(" · EasyVault</title><script>"@, tampered_pill())) by {
        reveal_with_fuel(departs_from, 4);
        reveal_strlit("<span class=\"pill warn\">TAMPERED</span>");
        reveal_strlit(" · EasyVault</title><script>");
    }
    assert(no_start("</script><style>"@, tampered_pill())) by {
        reveal_with_fuel(departs_from, 4);
        reveal_strlit("<span class=\"pill warn\">TAMPERED</span>");
        reveal_strlit("</script><style>");
    }
    assert(no_start("</style></head><body><header><div class=\"brand\">Easy<span>Vault</span></div><div class=\"right\"><button class=\"link themetoggle\" type=\"button\" onclick=\"evToggleTheme()\" title=\"Toggle light / dark\" aria-label=\"Toggle theme\">◐</button>"@, tampered_pill())) by {
        reveal_with_fuel(departs_from, 7);
        reveal_strlit("<span class=\"pill warn\">TAMPERED</span>");
        reveal_strlit("</style></head><body><header><div class=\"brand\">Easy<span>Vault</span></div><div class=\"right\"><button class=\"link themetoggle\" type=\"button\" onclick=\"evToggleTheme()\" title=\"Toggle light / dark\" aria-label=\"Toggle theme\">◐</button>");
    }
    assert(no_start("</div></header><main>"@, tampered_pill())) by {
        reveal_with_fuel(departs_from, 3);
        reveal_strlit("<span class=\"pill warn\">TAMPERED</span>");
        reveal_strlit("</div></header><main>");
    }
    assert(no_start("</main><div class=\"version\">v"@, tampered_pill())) by {
        reveal_with_fuel(departs_from, 3);
        reveal_strlit("<span class=\"pill warn\">TAMPERED</span>");
        reveal_strlit("</main><div class=\"version\">v");
    }
    assert(no_start("</div></body></html>"@, tampered_pill())) by {
        reveal_with_fuel(departs_from, 3);
        reveal_strlit("<span class=\"pill warn\">TAMPERED</span>");
        reveal_strlit("</div></body></html>");
    }
    assert(no_start("<a href=\"/gui/account/password\" class=\"muted\" title=\"Account\">"@, tampered_pill())) by {
        reveal_with_fuel(departs_from, 3);
        reveal_strlit("<span class=\"pill warn\">TAMPERED</span>");
        reveal_strlit("<a href=\"/gui/account/password\" class=\"muted\" title=\"Account\">");
    }
    assert(no_start("</a> &nbsp;<form method=\"post\" action=\"/gui/logout\" style=\"margin:0;display:inline\"><button class=\"link\" type=\"submit\">Log out</button></form>"@, tampered_pill())) by {
        reveal_with_fuel(departs_from, 3);
        reveal_strlit("<span class=\"pill warn\">TAMPERED</span>");
        reveal_strlit("</a> &nbsp;<form method=\"post\" action=\"/gui/logout\" style=\"margin:0;display:inline\"><button class=\"link\" type=\"submit\">Log out</button></form>");
    }
    assert(no_start("<div class=\"err\">"@, tampered_pill())) by {
        reveal_with_fuel(departs_from, 3);
        reveal_strlit("<span class=\"pill warn\">TAMPERED</span>");
        reveal_strlit("<div class=\"err\">");
    }
    assert(no_start("</div>"@, tampered_pill())) by {
        reveal_with_fuel(departs_from, 3);
        reveal_strlit("<span class=\"pill warn\">TAMPERED</span>");
        reveal_strlit("</div>");
    }
    reveal_strlit("<span class=\"pill warn\">TAMPERED</span>");
    reveal_strlit(":root{--bg:#0e1116;--card:#161b22;--border:#30363d;--border-soft:#21262d;--fg:#e6edf3;--muted:#7d8590;--h2:#9da7b3;--link:#58a6ff;--brand:#3fb950;--accent:#238636;--accent-hover:#2ea043;--accent-fg:#fff;--neutral:#30363d;--neutral-fg:#e6edf3;--danger:#b62324;--danger-fg:#fff;--err-bg:#3d1a1d;--err-border:#f85149;--err-fg:#ffa198;--ok-bg:#132e1a;--ok-fg:#3fb950;--ok-border:#238636;--warn-bg:#3d2a12;--warn-fg:#d29922;--warn-border:#9e6a03;color-scheme:dark}[data-theme=light]{--bg:#f6f8fa;--card:#ffffff;--border:#d0d7de;--border-soft:#eaeef2;--fg:#1f2328;--muted:#59636e;--h2:#59636e;--link:#0969da;--brand:#1a7f37;--accent:#1f883d;--accent-hover:#1a7f37;--accent-fg:#fff;--neutral:#eaeef2;--neutral-fg:#1f2328;--danger:#cf222e;--danger-fg:#fff;--err-bg:#ffebe9;--err-border:#cf222e;--err-fg:#82071e;--ok-bg:#dafbe1;--ok-fg:#1a7f37;--ok-border:#1f883d;--warn-bg:#fff8c5;--warn-fg:#9a6700;--warn-border:#d4a72c;color-scheme:light}*{box-sizing:border-box}body{margin:0;font:15px/1.5 system-ui,sans-serif;background:var(--bg);color:var(--fg)}header{display:flex;align-items:center;justify-content:space-between;padding:14px 22px;background:var(--card);border-bottom:1px solid var(--border)}header .brand{font-weight:700;letter-spacing:.3px}header .brand span{color:var(--brand)}header .right{display:flex;align-items:center;gap:14px}main{max-width:880px;margin:40px auto;padding:0 22px}.card{background:var(--card);border:1px solid var(--border);border-radius:10px;padding:24px;margin-bottom:20px}h1{font-size:22px;margin:0 0 6px}h2{font-size:16px;margin:0 0 14px;color:var(--h2)}label{display:block;margin:14px 0 6px;font-size:13px;color:var(--h2)}input,textarea,select{width:100%;padding:10px 12px;border:1px solid var(--border);border-radius:7px;background:var(--bg);color:var(--fg);font-size:14px}textarea{font-family:ui-monospace,monospace}button{margin-top:18px;padding:10px 18px;border:0;border-radius:7px;background:var(--accent);color:var(--accent-fg);font-weight:600;cursor:pointer;font-size:14px}button:hover{filter:brightness(1.08)}button.btn-neutral{background:var(--neutral);color:var(--neutral-fg)}button.btn-danger{background:var(--danger);color:var(--danger-fg)}button.link{background:none;color:var(--link);padding:0;margin:0;font-weight:400}a{color:var(--link);text-decoration:none}a:hover{text-decoration:underline}.err{background:var(--err-bg);border:1px solid var(--err-border);color:var(--err-fg);padding:10px 12px;border-radius:7px;margin-bottom:8px;font-size:14px}.muted{color:var(--muted);font-size:13px}.pill{display:inline-block;padding:2px 10px;border-radius:999px;font-size:12px;font-weight:600}.pill.ok{background:var(--ok-bg);color:var(--ok-fg);border:1px solid var(--ok-border)}.pill.warn{background:var(--warn-bg);color:var(--warn-fg);border:1px solid var(--warn-border)}.grid{display:grid;grid-template-columns:1fr 1fr;gap:14px}.kv{padding:12px 14px;background:var(--bg);border:1px solid var(--border);border-radius:8px}.kv .k{font-size:12px;color:var(--muted)}.kv .v{font-size:15px;margin-top:2px}table{width:100%;border-collapse:collapse;margin-top:10px}th{text-align:left;font-size:12px;color:var(--muted);font-weight:600;padding:8px 10px;border-bottom:1px solid var(--border)}td{padding:9px 10px;border-bottom:1px solid var(--border-soft);font-size:14px;vertical-align:middle}tr:last-child td{border-bottom:0}pre{background:var(--bg);border:1px solid var(--border);border-radius:8px;color:var(--fg)}code{background:var(--bg);border:1px solid var(--border);border-radius:4px;padding:1px 5px;font-size:13px}.themetoggle{font-size:16px;line-height:1;cursor:pointer}.version{position:fixed;bottom:8px;right:12px;font-size:12px;color:var(--muted);opacity:.65}.version a{color:var(--muted)}");
    assert(!STYLE@.contains('<'));
    lemma_plain_no_start(STYLE@, tampered_pill());
    reveal_strlit("<span class=\"pill warn\">TAMPERED</span>");
    reveal_strlit("(function(){try{var t=localStorage.getItem('ev-theme');if(!t){t=window.matchMedia&&window.matchMedia('(prefers-color-scheme: light)').matches?'light':'dark';}document.documentElement.setAttribute('data-theme',t);}catch(e){}})();function evToggleTheme(){var d=document.documentElement;var c=d.getAttribute('data-theme')==='light'?'dark':'light';d.setAttribute('data-theme',c);try{localStorage.setItem('ev-theme',c);}catch(e){}}");
    assert(!THEME_SCRIPT@.contains('<'));
    lemma_plain_no_start(THEME_SCRIPT@, tampered_pill());
    reveal_strlit("<span class=\"pill warn\">TAMPERED</span>");
    reveal_strlit("0.1.5");
    assert(!APP_VERSION@.contains('<'));
    lemma_plain_no_start(APP_VERSION@, tampered_pill());
}

proof fn lemma_layout_pieces_manage_users_link()
    ensures
        no_start("<!doctype html><html lang=\"en\"><head><meta charset=\"utf-8\"><meta name=\"viewport\" content=\"width=device-width,initial-scale=1\"><title>"@, manage_users_link()),
        no_start(" · EasyVault</title><script>"@, manage_users_link()),
        no_start("</script><style>"@, manage_users_link()),
        no_start("</style></head><body><header><div class=\"brand\">Easy<span>Vault</span></div><div class=\"right\"><button class=\"link themetoggle\" type=\"button\" onclick=\"evToggleTheme()\" title=\"Toggle light / dark\" aria-label=\"Toggle theme\">◐</button>"@, manage_users_link()),
        no_start("</div></header><main>"@, manage_users_link()),
        no_start("</main><div class=\"version\">v"@, manage_users_link()),
        no_start("</div></body></html>"@, manage_users_link()),
        no_start("<a href=\"/gui/account/password\" class=\"muted\" title=\"Account\">"@, manage_users_link()),
        no_start("</a> &nbsp;<form method=\"post\" action=\"/gui/logout\" style=\"margin:0;display:inline\"><button class=\"link\" type=\"submit\">Log out</button></form>"@, manage_users_link()),
        no_start("<div class=\"err\">"@, manage_users_link()),
        no_start("</div>"@, manage_users_link()),
        no_start(STYLE@, manage_users_link()),
        no_start(THEME_SCRIPT@, manage_users_link()),
        no_start(APP_VERSION@, manage_users_link()),
{
    assert(no_start("<!doctype html><html lang=\"en\"><head><meta charset=\"utf-8\"><meta name=\"viewport\" content=\"width=device-width,initial-scale=1\"><title>"@, manage_users_link())) by {
        reveal_with_fuel(departs_from, 3);
        reveal_strlit("<a href=\"/gui/users\">Manage users &rarr;</a>");
        reveal_strlit("<!doctype html><html lang=\"en\"><head><meta charset=\"utf-8\"><meta name=\"viewport\" content=\"width=device-width,initial-scale=1\"><title>");
    }
    assert(no_start(" · EasyVault</title><script>"@, manage_users_link())) by {
        reveal_with_fuel(departs_from, 3);
        reveal_strlit("<a href=\"/gui/users\">Manage users &rarr;</a>");
        reveal_strlit(" · EasyVault</title><script>");
    }
    assert(no_start("</script><style>"@, manage_users_link())) by {
        reveal_with_fuel(departs_from, 3);
        reveal_strlit("<a href=\"/gui/users\">Manage users &rarr;</a>");
        reveal_strlit("</script><style>");
    }
    assert(no_start("</style></head><body><header><div class=\"brand\">Easy<span>Vault</span></div><div class=\"right\"><button class=\"link themetoggle\" type=\"button\" onclick=\"evToggleTheme()\" title=\"Toggle light / dark\" aria-label=\"Toggle theme\">◐</button>"@, manage_users_link())) by {
        reveal_with_fuel(departs_from, 3);
        reveal_strlit("<a href=\"/gui/users\">Manage users &rarr;</a>");
        reveal_strlit("</style></head><body><header><div class=\"brand\">Easy<span>Vault</span></div><div class=\"right\"><button class=\"link themetoggle\" type=\"button\" onclick=\"evToggleTheme()\" title=\"Toggle light / dark\" aria-label=\"Toggle theme\">◐</button>");
    }
    assert(no_start("</div></header><main>"@, manage_users_link())) by {
        reveal_with_fuel(departs_from, 3);
        reveal_strlit("<a href=\"/gui/users\">Manage users &rarr;</a>");
        reveal_strlit("</div></header><main>");
    }
    assert(no_start("</main><div class=\"version\">v"@, manage_users_link())) by {
        reveal_with_fuel(departs_from, 3);
        reveal_strlit("<a href=\"/gui/users\">Manage users &rarr;</a>");
        reveal_strlit("</main><div class=\"version\">v");
    }
    assert(no_start("</div></body></html>"@, manage_users_link())) by {
        reveal_with_fuel(departs_from, 3);
        reveal_strlit("<a href=\"/gui/users\">Manage users &rarr;</a>");
        reveal_strlit("</div></body></html>");
    }
    assert(no_start("<a href=\"/gui/account/password\" class=\"muted\" title=\"Account\">"@, manage_users_link())) by {
        reveal_with_fuel(departs_from, 16);
        reveal_strlit("<a href=\"/gui/users\">Manage users &rarr;</a>");
        reveal_strlit("<a href=\"/gui/account/password\" class=\"muted\" title=\"Account\">");
    }
    assert(no_start("</a> &nbsp;<form method=\"post\" action=\"/gui/logout\" style=\"margin:0;display:inline\"><button class=\"link\" type=\"submit\">Log out</button></form>"@, manage_users_link())) by {
        reveal_with_fuel(departs_from, 3);
        reveal_strlit("<a href=\"/gui/users\">Manage users &rarr;</a>");
        reveal_strlit("</a> &nbsp;<form method=\"post\" action=\"/gui/logout\" style=\"margin:0;display:inline\"><button class=\"link\" type=\"submit\">Log out</button></form>");
    }
    assert(no_start("<div class=\"err\">"@, manage_users_link())) by {
        reveal_with_fuel(departs_from, 3);
        reveal_strlit("<a href=\"/gui/users\">Manage users &rarr;</a>");
        reveal_strlit("<div class=\"err\">");
    }
    assert(no_start("</div>"@, manage_users_link())) by {
        reveal_with_fuel(departs_from, 3);
        reveal_strlit("<a href=\"/gui/users\">Manage users &rarr;</a>");
        reveal_strlit("</div>");
    }
    reveal_strlit("<a href=\"/gui/users\">Manage users &rarr;</a>");
    reveal_strlit(":root{--bg:#0e1116;--card:#161b22;--border:#30363d;--border-soft:#21262d;--fg:#e6edf3;--muted:#7d8590;--h2:#9da7b3;--link:#58a6ff;--brand:#3fb950;--accent:#238636;--accent-hover:#2ea043;--accent-fg:#fff;--neutral:#30363d;--neutral-fg:#e6edf3;--danger:#b62324;--danger-fg:#fff;--err-bg:#3d1a1d;--err-border:#f85149;--err-fg:#ffa198;--ok-bg:#132e1a;--ok-fg:#3fb950;--ok-border:#238636;--warn-bg:#3d2a12;--warn-fg:#d29922;--warn-border:#9e6a03;color-scheme:dark}[data-theme=light]{--bg:#f6f8fa;--card:#ffffff;--border:#d0d7de;--border-soft:#eaeef2;--fg:#1f2328;--muted:#59636e;--h2:#59636e;--link:#0969da;--brand:#1a7f37;--accent:#1f883d;--accent-hover:#1a7f37;--accent-fg:#fff;--neutral:#eaeef2;--neutral-fg:#1f2328;--danger:#cf222e;--danger-fg:#fff;--err-bg:#ffebe9;--err-border:#cf222e;--err-fg:#82071e;--ok-bg:#dafbe1;--ok-fg:#1a7f37;--ok-border:#1f883d;--warn-bg:#fff8c5;--warn-fg:#9a6700;--warn-border:#d4a72c;color-scheme:light}*{box-sizing:border-box}body{margin:0;font:15px/1.5 system-ui,sans-serif;background:var(--bg);color:var(--fg)}header{display:flex;align-items:center;justify-content:space-between;padding:14px 22px;background:var(--card);border-bottom:1px solid var(--border)}header .brand{font-weight:700;letter-spacing:.3px}header .brand span{color:var(--brand)}header .right{display:flex;align-items:center;gap:14px}main{max-width:880px;margin:40px auto;padding:0 22px}.card{background:var(--card);border:1px solid var(--border);border-radius:10px;padding:24px;margin-bottom:20px}h1{font-size:22px;margin:0 0 6px}h2{font-size:16px;margin:0 0 14px;color:var(--h2)}label{display:block;margin:14px 0 6px;font-size:13px;color:var(--h2)}input,textarea,select{width:100%;padding:10px 12px;border:1px solid var(--border);border-radius:7px;background:var(--bg);color:var(--fg);font-size:14px}textarea{font-family:ui-monospace,monospace}button{margin-top:18px;padding:10px 18px;border:0;border-radius:7px;background:var(--accent);color:var(--accent-fg);font-weight:600;cursor:pointer;font-size:14px}button:hover{filter:brightness(1.08)}button.btn-neutral{background:var(--neutral);color:var(--neutral-fg)}button.btn-danger{background:var(--danger);color:var(--danger-fg)}button.link{background:none;color:var(--link);padding:0;margin:0;font-weight:400}a{color:var(--link);text-decoration:none}a:hover{text-decoration:underline}.err{background:var(--err-bg);border:1px solid var(--err-border);color:var(--err-fg);padding:10px 12px;border-radius:7px;margin-bottom:8px;font-size:14px}.muted{color:var(--muted);font-size:13px}.pill{display:inline-block;padding:2px 10px;border-radius:999px;font-size:12px;font-weight:600}.pill.ok{background:var(--ok-bg);color:var(--ok-fg);border:1px solid var(--ok-border)}.pill.warn{background:var(--warn-bg);color:var(--warn-fg);border:1px solid var(--warn-border)}.grid{display:grid;grid-template-columns:1fr 1fr;gap:14px}.kv{padding:12px 14px;background:var(--bg);border:1px solid var(--border);border-radius:8px}.kv .k{font-size:12px;color:var(--muted)}.kv .v{font-size:15px;margin-top:2px}table{width:100%;border-collapse:collapse;margin-top:10px}th{text-align:left;font-size:12px;color:var(--muted);font-weight:600;padding:8px 10px;border-bottom:1px solid var(--border)}td{padding:9px 10px;border-bottom:1px solid var(--border-soft);font-size:14px;vertical-align:middle}tr:last-child td{border-bottom:0}pre{background:var(--bg);border:1px solid var(--border);border-radius:8px;color:var(--fg)}code{background:var(--bg);border:1px solid var(--border);border-radius:4px;padding:1px 5px;font-size:13px}.themetoggle{font-size:16px;line-height:1;cursor:pointer}.version{position:fixed;bottom:8px;right:12px;font-size:12px;color:var(--muted);opacity:.65}.version a{color:var(--muted)}");
    assert(!STYLE@.contains('<'));
    lemma_plain_no_start(STYLE@, manage_users_link());
    reveal_strlit("<a href=\"/gui/users\">Manage users &rarr;</a>");
    reveal_strlit("(function(){try{var t=localStorage.getItem('ev-theme');if(!t){t=window.matchMedia&&window.matchMedia('(prefers-color-scheme: light)').matches?'light':'dark';}document.documentElement.setAttribute('data-theme',t);}catch(e){}})();function evToggleTheme(){var d=document.documentElement;var c=d.getAttribute('data-theme')==='light'?'dark':'light';d.setAttribute('data-theme',c);try{localStorage.setItem('ev-theme',c);}catch(e){}}");
    assert(!THEME_SCRIPT@.contains('<'));
    lemma_plain_no_start(THEME_SCRIPT@, manage_users_link());
    reveal_strlit("<a href=\"/gui/users\">Manage users &rarr;</a>");
    reveal_strlit("0.1.5");
    assert(!APP_VERSION@.contains('<'));
    lemma_plain_no_start(APP_VERSION@, manage_users_link());
}

proof fn lemma_layout_pieces_audit_log_link()
    ensures
        no_start("<!doctype html><html lang=\"en\"><head><meta charset=\"utf-8\"><meta name=\"viewport\" content=\"width=device-width,initial-scale=1\"><title>"@, audit_log_link()),
        no_start(" · EasyVault</title><script>"@, audit_log_link()),
        no_start("</script><style>"@, audit_log_link()),
        no_start("</style></head><body><header><div class=\"brand\">Easy<span>Vault</span></div><div class=\"right\"><button class=\"link themetoggle\" type=\"button\" onclick=\"evToggleTheme()\" title=\"Toggle light / dark\" aria-label=\"Toggle theme\">◐</button>"@, audit_log_link()),
        no_start("</div></header><main>"@, audit_log_link()),
        no_start("</main><div class=\"version\">v"@, audit_log_link()),
        no_start("</div></body></html>"@, audit_log_link()),
        no_start("<a href=\"/gui/account/password\" class=\"muted\" title=\"Account\">"@, audit_log_link()),
        no_start("</a> &nbsp;<form method=\"post\" action=\"/gui/logout\" style=\"margin:0;display:inline\"><button class=\"link\" type=\"submit\">Log out</button></form>"@, audit_log_link()),
        no_start("<div class=\"err\">"@, audit_log_link()),
        no_start("</div>"@, audit_log_link()),
        no_start(STYLE@, audit_log_link()),
        no_start(THEME_SCRIPT@, audit_log_link()),
        no_start(APP_VERSION@, audit_log_link()),
{
    assert(no_start("<!doctype html><html lang=\"en\"><head><meta charset=\"utf-8\"><meta name=\"viewport\" content=\"width=device-width,initial-scale=1\"><title>"@, audit_log_link())) by {
        reveal_with_fuel(departs_from, 3);
        reveal_strlit("<a href=\"/gui/audit\">Audit log &rarr;</a>");
        reveal_strlit("<!doctype html><html lang=\"en\"><head><meta charset=\"utf-8\"><meta name=\"viewport\" content=\"width=device-width,initial-scale=1\"><title>");
    }
    assert(no_start(" · EasyVault</title><script>"@, audit_log_link())) by {
        reveal_with_fuel(departs_from, 3);
        reveal_strlit("<a href=\"/gui/audit\">Audit log &rarr;</a>");
        reveal_strlit(" · EasyVault</title><script>");
    }
    assert(no_start("</script><style>"@, audit_log_link())) by {
        reveal_with_fuel(departs_from, 3);
        reveal_strlit("<a href=\"/gui/audit\">Audit log &rarr;</a>");
        reveal_strlit("</script><style>");
    }
    assert(no_start("</style></head><body><header><div class=\"brand\">Easy<span>Vault</span></div><div class=\"right\"><button class=\"link themetoggle\" type=\"button\" onclick=\"evToggleTheme()\" title=\"Toggle light / dark\" aria-label=\"Toggle theme\">◐</button>"@, audit_log_link())) by {
        reveal_with_fuel(departs_from, 3);
        reveal_strlit("<a href=\"/gui/audit\">Audit log &rarr;</a>");
        reveal_strlit("</style></head><body><header><div class=\"brand\">Easy<span>Vault</span></div><div class=\"right\"><button class=\"link themetoggle\" type=\"button\" onclick=\"evToggleTheme()\" title=\"Toggle light / dark\" aria-label=\"Toggle theme\">◐</button>");
    }
    assert(no_start("</div></header><main>"@, audit_log_link())) by {
        reveal_with_fuel(departs_from, 3);
        reveal_strlit("<a href=\"/gui/audit\">Audit log &rarr;</a>");
        reveal_strlit("</div></header><main>");
    }
    assert(no_start("</main><div class=\"version\">v"@, audit_log_link())) by {
        reveal_with_fuel(departs_from, 3);
        reveal_strlit("<a href=\"/gui/audit\">Audit log &rarr;</a>");
        reveal_strlit("</main><div class=\"version\">v");
    }
    assert(no_start("</div></body></html>"@, audit_log_link())) by {
        reveal_with_fuel(departs_from, 3);
        reveal_strlit("<a href=\"/gui/audit\">Audit log &rarr;</a>");
        reveal_strlit("</div></body></html>");
    }
    assert(no_start("<a href=\"/gui/account/password\" class=\"muted\" title=\"Account\">"@, audit_log_link())) by {
        reveal_with_fuel(departs_from, 17);
        reveal_strlit("<a href=\"/gui/audit\">Audit log &rarr;</a>");
        reveal_strlit("<a href=\"/gui/account/password\" class=\"muted\" title=\"Account\">");
    }
    assert(no_start("</a> &nbsp;<form method=\"post\" action=\"/gui/logout\" style=\"margin:0;display:inline\"><button class=\"link\" type=\"submit\">Log out</button></form>"@, audit_log_link())) by {
        reveal_with_fuel(departs_from, 3);
        reveal_strlit("<a href=\"/gui/audit\">Audit log &rarr;</a>");
        reveal_strlit("</a> &nbsp;<form method=\"post\" action=\"/gui/logout\" style=\"margin:0;display:inline\"><button class=\"link\" type=\"submit\">Log out</button></form>");
    }
    assert(no_start("<div class=\"err\">"@, audit_log_link())) by {
        reveal_with_fuel(departs_from, 3);
        reveal_strlit("<a href=\"/gui/audit\">Audit log &rarr;</a>");
        reveal_strlit("<div class=\"err\">");
    }
    assert(no_start("</div>"@, audit_log_link())) by {
        reveal_with_fuel(departs_from, 3);
        reveal_strlit("<a href=\"/gui/audit\">Audit log &rarr;</a>");
        reveal_strlit("</div>");
    }
    reveal_strlit("<a href=\"/gui/audit\">Audit log &rarr;</a>");
    reveal_strlit(":root{--bg:#0e1116;--card:#161b22;--border:#30363d;--border-soft:#21262d;--fg:#e6edf3;--muted:#7d8590;--h2:#9da7b3;--link:#58a6ff;--brand:#3fb950;--accent:#238636;--accent-hover:#2ea043;--accent-fg:#fff;--neutral:#30363d;--neutral-fg:#e6edf3;--danger:#b62324;--danger-fg:#fff;--err-bg:#3d1a1d;--err-border:#f85149;--err-fg:#ffa198;--ok-bg:#132e1a;--ok-fg:#3fb950;--ok-border:#238636;--warn-bg:#3d2a12;--warn-fg:#d29922;--warn-border:#9e6a03;color-scheme:dark}[data-theme=light]{--bg:#f6f8fa;--card:#ffffff;--border:#d0d7de;--border-soft:#eaeef2;--fg:#1f2328;--muted:#59636e;--h2:#59636e;--link:#0969da;--brand:#1a7f37;--accent:#1f883d;--accent-hover:#1a7f37;--accent-fg:#fff;--neutral:#eaeef2;--neutral-fg:#1f2328;--danger:#cf222e;--danger-fg:#fff;--err-bg:#ffebe9;--err-border:#cf222e;--err-fg:#82071e;--ok-bg:#dafbe1;--ok-fg:#1a7f37;--ok-border:#1f883d;--warn-bg:#fff8c5;--warn-fg:#9a6700;--warn-border:#d4a72c;color-scheme:light}*{box-sizing:border-box}body{margin:0;font:15px/1.5 system-ui,sans-serif;background:var(--bg);color:var(--fg)}header{display:flex;align-items:center;justify-content:space-between;padding:14px 22px;background:var(--card);border-bottom:1px solid var(--border)}header .brand{font-weight:700;letter-spacing:.3px}header .brand span{color:var(--brand)}header .right{display:flex;align-items:center;gap:14px}main{max-width:880px;margin:40px auto;padding:0 22px}.card{background:var(--card);border:1px solid var(--border);border-radius:10px;padding:24px;margin-bottom:20px}h1{font-size:22px;margin:0 0 6px}h2{font-size:16px;margin:0 0 14px;color:var(--h2)}label{display:block;margin:14px 0 6px;font-size:13px;color:var(--h2)}input,textarea,select{width:100%;padding:10px 12px;border:1px solid var(--border);border-radius:7px;background:var(--bg);color:var(--fg);font-size:14px}textarea{font-family:ui-monospace,monospace}button{margin-top:18px;padding:10px 18px;border:0;border-radius:7px;background:var(--accent);color:var(--accent-fg);font-weight:600;cursor:pointer;font-size:14px}button:hover{filter:brightness(1.08)}button.btn-neutral{background:var(--neutral);color:var(--neutral-fg)}button.btn-danger{background:var(--danger);color:var(--danger-fg)}button.link{background:none;color:var(--link);padding:0;margin:0;font-weight:400}a{color:var(--link);text-decoration:none}a:hover{text-decoration:underline}.err{background:var(--err-bg);border:1px solid var(--err-border);color:var(--err-fg);padding:10px 12px;border-radius:7px;margin-bottom:8px;font-size:14px}.muted{color:var(--muted);font-size:13px}.pill{display:inline-block;padding:2px 10px;border-radius:999px;font-size:12px;font-weight:600}.pill.ok{background:var(--ok-bg);color:var(--ok-fg);border:1px solid var(--ok-border)}.pill.warn{background:var(--warn-bg);color:var(--warn-fg);border:1px solid var(--warn-border)}.grid{display:grid;grid-template-columns:1fr 1fr;gap:14px}.kv{padding:12px 14px;background:var(--bg);border:1px solid var(--border);border-radius:8px}.kv .k{font-size:12px;color:var(--muted)}.kv .v{font-size:15px;margin-top:2px}table{width:100%;border-collapse:collapse;margin-top:10px}th{text-align:left;font-size:12px;color:var(--muted);font-weight:600;padding:8px 10px;border-bottom:1px solid var(--border)}td{padding:9px 10px;border-bottom:1px solid var(--border-soft);font-size:14px;vertical-align:middle}tr:last-child td{border-bottom:0}pre{background:var(--bg);border:1px solid var(--border);border-radius:8px;color:var(--fg)}code{background:var(--bg);border:1px solid var(--border);border-radius:4px;padding:1px 5px;font-size:13px}.themetoggle{font-size:16px;line-height:1;cursor:pointer}.version{position:fixed;bottom:8px;right:12px;font-size:12px;color:var(--muted);opacity:.65}.version a{color:var(--muted)}");
    assert(!STYLE@.contains('<'));
    lemma_plain_no_start(STYLE@, audit_log_link());
    reveal_strlit("<a href=\"/gui/audit\">Audit log &rarr;</a>");
    reveal_strlit("(function(){try{var t=localStorage.getItem('ev-theme');if(!t){t=window.matchMedia&&window.matchMedia('(prefers-color-scheme: light)').matches?'light':'dark';}document.documentElement.setAttribute('data-theme',t);}catch(e){}})();function evToggleTheme(){var d=document.documentElement;var c=d.getAttribute('data-theme')==='light'?'dark':'light';d.setAttribute('data-theme',c);try{localStorage.setItem('ev-theme',c);}catch(e){}}");
    assert(!THEME_SCRIPT@.contains('<'));
    lemma_plain_no_start(THEME_SCRIPT@, audit_log_link());
    reveal_strlit("<a href=\"/gui/audit\">Audit log &rarr;</a>");
    reveal_strlit("0.1.5");
    assert(!APP_VERSION@.contains('<'));
    lemma_plain_no_start(APP_VERSION@, audit_log_link());
}

proof fn lemma_layout_pieces_seal_button()
    ensures
        no_start("<!doctype html><html lang=\"en\"><head><meta charset=\"utf-8\"><meta name=\"viewport\" content=\"width=device-width,initial-scale=1\"><title>"@, seal_button()),
        no_start(" · EasyVault</title><script>"@, seal_button()),
        no_start("</script><style>"@, seal_button()),
        no_start("</style></head><body><header><div class=\"brand\">Easy<span>Vault</span></div><div class=\"right\"><button class=\"link themetoggle\" type=\"button\" onclick=\"evToggleTheme()\" title=\"Toggle light / dark\" aria-label=\"Toggle theme\">◐</button>"@, seal_button()),
        no_start("</div></header><main>"@, seal_button()),
        no_start("</main><div class=\"version\">v"@, seal_button()),
        no_start("</div></body></html>"@, seal_button()),
        no_start("<a href=\"/gui/account/password\" class=\"muted\" title=\"Account\">"@, seal_button()),
        no_start("</a> &nbsp;<form method=\"post\" action=\"/gui/logout\" style=\"margin:0;display:inline\"><button class=\"link\" type=\"submit\">Log out</button></form>"@, seal_button()),
        no_start("<div class=\"err\">"@, seal_button()),
        no_start("</div>"@, seal_button()),
        no_start(STYLE@, seal_button()),
        no_start(THEME_SCRIPT@, seal_button()),
        no_start(APP_VERSION@, seal_button()),
{
    assert(no_start("<!doctype html><html lang=\"en\"><head><meta charset=\"utf-8\"><meta name=\"viewport\" content=\"width=device-width,initial-scale=1\"><title>"@, seal_button())) by {
        reveal_with_fuel(departs_from, 3);
        reveal_strlit("<button type=\"submit\" class=\"btn-danger\">Seal instance</button>");
        reveal_strlit("<!doctype html><html lang=\"en\"><head><meta charset=\"utf-8\"><meta name=\"viewport\" content=\"width=device-width,initial-scale=1\"><title>");
    }
    assert(no_start(" · EasyVault</title><script>"@, seal_button())) by {
        reveal_with_fuel(departs_from, 3);
        reveal_strlit("<button type=\"submit\" class=\"btn-danger\">Seal instance</button>");
        reveal_strlit(" · EasyVault</title><script>");
    }
    assert(no_start("</script><style>"@, seal_button())) by {
        reveal_with_fuel(departs_from, 3);
        reveal_strlit("<button type=\"submit\" class=\"btn-danger\">Seal instance</button>");
        reveal_strlit("</script><style>");
    }
    assert(no_start("</style></head><body><header><div class=\"brand\">Easy<span>Vault</span></div><div class=\"right\"><button class=\"link themetoggle\" type=\"button\" onclick=\"evToggleTheme()\" title=\"Toggle light / dark\" aria-label=\"Toggle theme\">◐</button>"@, seal_button())) by {
        reveal_with_fuel(departs_from, 10);
        reveal_strlit("<button type=\"submit\" class=\"btn-danger\">Seal instance</button>");
        reveal_strlit("</style></head><body><header><div class=\"brand\">Easy<span>Vault</span></div><div class=\"right\"><button class=\"link themetoggle\" type=\"button\" onclick=\"evToggleTheme()\" title=\"Toggle light / dark\" aria-label=\"Toggle theme\">◐</button>");
    }
    assert(no_start("</div></header><main>"@, seal_button())) by {
        reveal_with_fuel(departs_from, 3);
        reveal_strlit("<button type=\"submit\" class=\"btn-danger\">Seal instance</button>");
        reveal_strlit("</div></header><main>");
    }
    assert(no_start("</main><div class=\"version\">v"@, seal_button())) by {
        reveal_with_fuel(departs_from, 3);
        reveal_strlit("<button type=\"submit\" class=\"btn-danger\">Seal instance</button>");
        reveal_strlit("</main><div class=\"version\">v");
    }
    assert(no_start("</div></body></html>"@, seal_button())) by {
        reveal_with_fuel(departs_from, 3);
        reveal_strlit("<button type=\"submit\" class=\"btn-danger\">Seal instance</button>");
        reveal_strlit("</div></body></html>");
    }
    assert(no_start("<a href=\"/gui/account/password\" class=\"muted\" title=\"Account\">"@, seal_button())) by {
        reveal_with_fuel(departs_from, 3);
        reveal_strlit("<button type=\"submit\" class=\"btn-danger\">Seal instance</button>");
        reveal_strlit("<a href=\"/gui/account/password\" class=\"muted\" title=\"Account\">");
    }
    assert(no_start("</a> &nbsp;<form method=\"post\" action=\"/gui/logout\" style=\"margin:0;display:inline\"><button class=\"link\" type=\"submit\">Log out</button></form>"@, seal_button())) by {
        reveal_with_fuel(departs_from, 10);
        reveal_strlit("<button type=\"submit\" class=\"btn-danger\">Seal instance</button>");
        reveal_strlit("</a> &nbsp;<form method=\"post\" action=\"/gui/logout\" style=\"margin:0;display:inline\"><button class=\"link\" type=\"submit\">Log out</button></form>");
    }
    assert(no_start("<div class=\"err\">"@, seal_button())) by {
        reveal_with_fuel(departs_from, 3);
        reveal_strlit("<button type=\"submit\" class=\"btn-danger\">Seal instance</button>");
        reveal_strlit("<div class=\"err\">");
    }
    assert(no_start("</div>"@, seal_button())) by {
        reveal_with_fuel(departs_from, 3);
        reveal_strlit("<button type=\"submit\" class=\"btn-danger\">Seal instance</button>");
        reveal_strlit("</div>");
    }
    reveal_strlit("<button type=\"submit\" class=\"btn-danger\">Seal instance</button>");
    reveal_strlit(":root{--bg:#0e1116;--card:#161b22;--border:#30363d;--border-soft:#21262d;--fg:#e6edf3;--muted:#7d8590;--h2:#9da7b3;--link:#58a6ff;--brand:#3fb950;--accent:#238636;--accent-hover:#2ea043;--accent-fg:#fff;--neutral:#30363d;--neutral-fg:#e6edf3;--danger:#b62324;--danger-fg:#fff;--err-bg:#3d1a1d;--err-border:#f85149;--err-fg:#ffa198;--ok-bg:#132e1a;--ok-fg:#3fb950;--ok-border:#238636;--warn-bg:#3d2a12;--warn-fg:#d29922;--warn-border:#9e6a03;color-scheme:dark}[data-theme=light]{--bg:#f6f8fa;--card:#ffffff;--border:#d0d7de;--border-soft:#eaeef2;--fg:#1f2328;--muted:#59636e;--h2:#59636e;--link:#0969da;--brand:#1a7f37;--accent:#1f883d;--accent-hover:#1a7f37;--accent-fg:#fff;--neutral:#eaeef2;--neutral-fg:#1f2328;--danger:#cf222e;--danger-fg:#fff;--err-bg:#ffebe9;--err-border:#cf222e;--err-fg:#82071e;--ok-bg:#dafbe1;--ok-fg:#1a7f37;--ok-border:#1f883d;--warn-bg:#fff8c5;--warn-fg:#9a6700;--warn-border:#d4a72c;color-scheme:light}*{box-sizing:border-box}body{margin:0;font:15px/1.5 system-ui,sans-serif;background:var(--bg);color:var(--fg)}header{display:flex;align-items:center;justify-content:space-between;padding:14px 22px;background:var(--card);border-bottom:1px solid var(--border)}header .brand{font-weight:700;letter-spacing:.3px}header .brand span{color:var(--brand)}header .right{display:flex;align-items:center;gap:14px}main{max-width:880px;margin:40px auto;padding:0 22px}.card{background:var(--card);border:1px solid var(--border);border-radius:10px;padding:24px;margin-bottom:20px}h1{font-size:22px;margin:0 0 6px}h2{font-size:16px;margin:0 0 14px;color:var(--h2)}label{display:block;margin:14px 0 6px;font-size:13px;color:var(--h2)}input,textarea,select{width:100%;padding:10px 12px;border:1px solid var(--border);border-radius:7px;background:var(--bg);color:var(--fg);font-size:14px}textarea{font-family:ui-monospace,monospace}button{margin-top:18px;padding:10px 18px;border:0;border-radius:7px;background:var(--accent);color:var(--accent-fg);font-weight:600;cursor:pointer;font-size:14px}button:hover{filter:brightness(1.08)}button.btn-neutral{background:var(--neutral);color:var(--neutral-fg)}button.btn-danger{background:var(--danger);color:var(--danger-fg)}button.link{background:none;color:var(--link);padding:0;margin:0;font-weight:400}a{color:var(--link);text-decoration:none}a:hover{text-decoration:underline}.err{background:var(--err-bg);border:1px solid var(--err-border);color:var(--err-fg);padding:10px 12px;border-radius:7px;margin-bottom:8px;font-size:14px}.muted{color:var(--muted);font-size:13px}.pill{display:inline-block;padding:2px 10px;border-radius:999px;font-size:12px;font-weight:600}.pill.ok{background:var(--ok-bg);color:var(--ok-fg);border:1px solid var(--ok-border)}.pill.warn{background:var(--warn-bg);color:var(--warn-fg);border:1px solid var(--warn-border)}.grid{display:grid;grid-template-columns:1fr 1fr;gap:14px}.kv{padding:12px 14px;background:var(--bg);border:1px solid var(--border);border-radius:8px}.kv .k{font-size:12px;color:var(--muted)}.kv .v{font-size:15px;margin-top:2px}table{width:100%;border-collapse:collapse;margin-top:10px}th{text-align:left;font-size:12px;color:var(--muted);font-weight:600;padding:8px 10px;border-bottom:1px solid var(--border)}td{padding:9px 10px;border-bottom:1px solid var(--border-soft);font-size:14px;vertical-align:middle}tr:last-child td{border-bottom:0}pre{background:var(--bg);border:1px solid var(--border);border-radius:8px;color:var(--fg)}code{background:var(--bg);border:1px solid var(--border);border-radius:4px;padding:1px 5px;font-size:13px}.themetoggle{font-size:16px;line-height:1;cursor:pointer}.version{position:fixed;bottom:8px;right:12px;font-size:12px;color:var(--muted);opacity:.65}.version a{color:var(--muted)}");
    assert(!STYLE@.contains('<'));
    lemma_plain_no_start(STYLE@, seal_button());
    reveal_strlit("<button type=\"submit\" class=\"btn-danger\">Seal instance</button>");
    reveal_strlit("(function(){try{var t=localStorage.getItem('ev-theme');if(!t){t=window.matchMedia&&window.matchMedia('(prefers-color-scheme: light)').matches?'light':'dark';}document.documentElement.setAttribute('data-theme',t);}catch(e){}})();function evToggleTheme(){var d=document.documentElement;var c=d.getAttribute('data-theme')==='light'?'dark':'light';d.setAttribute('data-theme',c);try{localStorage.setItem('ev-theme',c);}catch(e){}}");
    assert(!THEME_SCRIPT@.contains('<'));
    lemma_plain_no_start(THEME_SCRIPT@, seal_button());
    reveal_strlit("<button type=\"submit\" class=\"btn-danger\">Seal instance</button>");
    reveal_strlit("0.1.5");
    assert(!APP_VERSION@.contains('<'));
    lemma_plain_no_start(APP_VERSION@, seal_button());
}

proof fn lemma_layout_pieces_new_vault_button()
    ensures
        no_start("<!doctype html><html lang=\"en\"><head><meta charset=\"utf-8\"><meta name=\"viewport\" content=\"width=device-width,initial-scale=1\"><title>"@, new_vault_button()),
        no_start(" · EasyVault</title><script>"@, new_vault_button()),
        no_start("</script><style>"@, new_vault_button()),
        no_start("</style></head><body><header><div class=\"brand\">Easy<span>Vault</span></div><div class=\"right\"><button class=\"link themetoggle\" type=\"button\" onclick=\"evToggleTheme()\" title=\"Toggle light / dark\" aria-label=\"Toggle theme\">◐</button>"@, new_vault_button()),
        no_start("</div></header><main>"@, new_vault_button()),
        no_start("</main><div class=\"version\">v"@, new_vault_button()),
        no_start("</div></body></html>"@, new_vault_button()),
        no_start("<a href=\"/gui/account/password\" class=\"muted\" title=\"Account\">"@, new_vault_button()),
        no_start("</a> &nbsp;<form method=\"post\" action=\"/gui/logout\" style=\"margin:0;display:inline\"><button class=\"link\" type=\"submit\">Log out</button></form>"@, new_vault_button()),
        no_start("<div class=\"err\">"@, new_vault_button()),
        no_start("</div>"@, new_vault_button()),
        no_start(STYLE@, new_vault_button()),
        no_start(THEME_SCRIPT@, new_vault_button()),
        no_start(APP_VERSION@, new_vault_button()),
{
    assert(no_start("<!doctype html><html lang=\"en\"><head><meta charset=\"utf-8\"><meta name=\"viewport\" content=\"width=device-width,initial-scale=1\"><title>"@, new_vault_button())) by {
        reveal_with_fuel(departs_from, 3);
        reveal_strlit("<button type=\"button\">New vault</button>");
        reveal_strlit("<!doctype html><html lang=\"en\"><head><meta charset=\"utf-8\"><meta name=\"viewport\" content=\"width=device-width,initial-scale=1\"><title>");
    }
    assert(no_start(" · EasyVault</title><script>"@, new_vault_button())) by {
        reveal_with_fuel(departs_from, 3);
        reveal_strlit("<button type=\"button\">New vault</button>");
        reveal_strlit(" · EasyVault</title><script>");
    }
    assert(no_start("</script><style>"@, new_vault_button())) by {
        reveal_with_fuel(departs_from, 3);
        reveal_strlit("<button type=\"button\">New vault</button>");
        reveal_strlit("</script><style>");
    }
    assert(no_start("</style></head><body><header><div class=\"brand\">Easy<span>Vault</span></div><div class=\"right\"><button class=\"link themetoggle\" type=\"button\" onclick=\"evToggleTheme()\" title=\"Toggle light / dark\" aria-label=\"Toggle theme\">◐</button>"@, new_vault_button())) by {
        reveal_with_fuel(departs_from, 10);
        reveal_strlit("<button type=\"button\">New vault</button>");
        reveal_strlit("</style></head><body><header><div class=\"brand\">Easy<span>Vault</span></div><div class=\"right\"><button class=\"link themetoggle\" type=\"button\" onclick=\"evToggleTheme()\" title=\"Toggle light / dark\" aria-label=\"Toggle theme\">◐</button>");
    }
    assert(no_start("</div></header><main>"@, new_vault_button())) by {
        reveal_with_fuel(departs_from, 3);
        reveal_strlit("<button type=\"button\">New vault</button>");
        reveal_strlit("</div></header><main>");
    }
    assert(no_start("</main><div class=\"version\">v"@, new_vault_button())) by {
        reveal_with_fuel(departs_from, 3);
        reveal_strlit("<button type=\"button\">New vault</button>");
        reveal_strlit("</main><div class=\"version\">v");
    }
    assert(no_start("</div></body></html>"@, new_vault_button())) by {
        reveal_with_fuel(departs_from, 3);
        reveal_strlit("<button type=\"button\">New vault</button>");
        reveal_strlit("</div></body></html>");
    }
    assert(no_start("<a href=\"/gui/account/password\" class=\"muted\" title=\"Account\">"@, new_vault_button())) by {
        reveal_with_fuel(departs_from, 3);
        reveal_strlit("<button type=\"button\">New vault</button>");
        reveal_strlit("<a href=\"/gui/account/password\" class=\"muted\" title=\"Account\">");
    }
    assert(no_start("</a> &nbsp;<form method=\"post\" action=\"/gui/logout\" style=\"margin:0;display:inline\"><button class=\"link\" type=\"submit\">Log out</button></form>"@, new_vault_button())) by {
        reveal_with_fuel(departs_from, 10);
        reveal_strlit("<button type=\"button\">New vault</button>");
        reveal_strlit("</a> &nbsp;<form method=\"post\" action=\"/gui/logout\" style=\"margin:0;display:inline\"><button class=\"link\" type=\"submit\">Log out</button></form>");
    }
    assert(no_start("<div class=\"err\">"@, new_vault_button())) by {
        reveal_with_fuel(departs_from, 3);
        reveal_strlit("<button type=\"button\">New vault</button>");
        reveal_strlit("<div class=\"err\">");
    }
    assert(no_start("</div>"@, new_vault_button())) by {
        reveal_with_fuel(departs_from, 3);
        reveal_strlit("<button type=\"button\">New vault</button>");
        reveal_strlit("</div>");
    }
    reveal_strlit("<button type=\"button\">New vault</button>");
    reveal_strlit(":root{--bg:#0e1116;--card:#161b22;--border:#30363d;--border-soft:#21262d;--fg:#e6edf3;--muted:#7d8590;--h2:#9da7b3;--link:#58a6ff;--brand:#3fb950;--accent:#238636;--accent-hover:#2ea043;--accent-fg:#fff;--neutral:#30363d;--neutral-fg:#e6edf3;--danger:#b62324;--danger-fg:#fff;--err-bg:#3d1a1d;--err-border:#f85149;--err-fg:#ffa198;--ok-bg:#132e1a;--ok-fg:#3fb950;--ok-border:#238636;--warn-bg:#3d2a12;--warn-fg:#d29922;--warn-border:#9e6a03;color-scheme:dark}[data-theme=light]{--bg:#f6f8fa;--card:#ffffff;--border:#d0d7de;--border-soft:#eaeef2;--fg:#1f2328;--muted:#59636e;--h2:#59636e;--link:#0969da;--brand:#1a7f37;--accent:#1f883d;--accent-hover:#1a7f37;--accent-fg:#fff;--neutral:#eaeef2;--neutral-fg:#1f2328;--danger:#cf222e;--danger-fg:#fff;--err-bg:#ffebe9;--err-border:#cf222e;--err-fg:#82071e;--ok-bg:#dafbe1;--ok-fg:#1a7f37;--ok-border:#1f883d;--warn-bg:#fff8c5;--warn-fg:#9a6700;--warn-border:#d4a72c;color-scheme:light}*{box-sizing:border-box}body{margin:0;font:15px/1.5 system-ui,sans-serif;background:var(--bg);color:var(--fg)}header{display:flex;align-items:center;justify-content:space-between;padding:14px 22px;background:var(--card);border-bottom:1px solid var(--border)}header .brand{font-weight:700;letter-spacing:.3px}header .brand span{color:var(--brand)}header .right{display:flex;align-items:center;gap:14px}main{max-width:880px;margin:40px auto;padding:0 22px}.card{background:var(--card);border:1px solid var(--border);border-radius:10px;padding:24px;margin-bottom:20px}h1{font-size:22px;margin:0 0 6px}h2{font-size:16px;margin:0 0 14px;color:var(--h2)}label{display:block;margin:14px 0 6px;font-size:13px;color:var(--h2)}input,textarea,select{width:100%;padding:10px 12px;border:1px solid var(--border);border-radius:7px;background:var(--bg);color:var(--fg);font-size:14px}textarea{font-family:ui-monospace,monospace}button{margin-top:18px;padding:10px 18px;border:0;border-radius:7px;background:var(--accent);color:var(--accent-fg);font-weight:600;cursor:pointer;font-size:14px}button:hover{filter:brightness(1.08)}button.btn-neutral{background:var(--neutral);color:var(--neutral-fg)}button.btn-danger{background:var(--danger);color:var(--danger-fg)}button.link{background:none;color:var(--link);padding:0;margin:0;font-weight:400}a{color:var(--link);text-decoration:none}a:hover{text-decoration:underline}.err{background:var(--err-bg);border:1px solid var(--err-border);color:var(--err-fg);padding:10px 12px;border-radius:7px;margin-bottom:8px;font-size:14px}.muted{color:var(--muted);font-size:13px}.pill{display:inline-block;padding:2px 10px;border-radius:999px;font-size:12px;font-weight:600}.pill.ok{background:var(--ok-bg);color:var(--ok-fg);border:1px solid var(--ok-border)}.pill.warn{background:var(--warn-bg);color:var(--warn-fg);border:1px solid var(--warn-border)}.grid{display:grid;grid-template-columns:1fr 1fr;gap:14px}.kv{padding:12px 14px;background:var(--bg);border:1px solid var(--border);border-radius:8px}.kv .k{font-size:12px;color:var(--muted)}.kv .v{font-size:15px;margin-top:2px}table{width:100%;border-collapse:collapse;margin-top:10px}th{text-align:left;font-size:12px;color:var(--muted);font-weight:600;padding:8px 10px;border-bottom:1px solid var(--border)}td{padding:9px 10px;border-bottom:1px solid var(--border-soft);font-size:14px;vertical-align:middle}tr:last-child td{border-bottom:0}pre{background:var(--bg);border:1px solid var(--border);border-radius:8px;color:var(--fg)}code{background:var(--bg);border:1px solid var(--border);border-radius:4px;padding:1px 5px;font-size:13px}.themetoggle{font-size:16px;line-height:1;cursor:pointer}.version{position:fixed;bottom:8px;right:12px;font-size:12px;color:var(--muted);opacity:.65}.version a{color:var(--muted)}");
    assert(!STYLE@.contains('<'));
    lemma_plain_no_start(STYLE@, new_vault_button());
    reveal_strlit("<button type=\"button\">New vault</button>");
    reveal_strlit("(function(){try{var t=localStorage.getItem('ev-theme');if(!t){t=window.matchMedia&&window.matchMedia('(prefers-color-scheme: light)').matches?'light':'dark';}document.documentElement.setAttribute('data-theme',t);}catch(e){}})();function evToggleTheme(){var d=document.documentElement;var c=d.getAttribute('data-theme')==='light'?'dark':'light';d.setAttribute('data-theme',c);try{localStorage.setItem('ev-theme',c);}catch(e){}}");
    assert(!THEME_SCRIPT@.contains('<'));
    lemma_plain_no_start(THEME_SCRIPT@, new_vault_button());
    reveal_strlit("<button type=\"button\">New vault</button>");
    reveal_strlit("0.1.5");
    assert(!APP_VERSION@.contains('<'));
    lemma_plain_no_start(APP_VERSION@, new_vault_button());
}

proof fn lemma_layout_pieces_settings_button()
    ensures
        no_start("<!doctype html><html lang=\"en\"><head><meta charset=\"utf-8\"><meta name=\"viewport\" content=\"width=device-width,initial-scale=1\"><title>"@, settings_button()),
        no_start(" · EasyVault</title><script>"@, settings_button()),
        no_start("</script><style>"@, settings_button()),
        no_start("</style></head><body><header><div class=\"brand\">Easy<span>Vault</span></div><div class=\"right\"><button class=\"link themetoggle\" type=\"button\" onclick=\"evToggleTheme()\" title=\"Toggle light / dark\" aria-label=\"Toggle theme\">◐</button>"@, settings_button()),
        no_start("</div></header><main>"@, settings_button()),
        no_start("</main><div class=\"version\">v"@, settings_button()),
        no_start("</div></body></html>"@, settings_button()),
        no_start("<a href=\"/gui/account/password\" class=\"muted\" title=\"Account\">"@, settings_button()),
        no_start("</a> &nbsp;<form method=\"post\" action=\"/gui/logout\" style=\"margin:0;display:inline\"><button class=\"link\" type=\"submit\">Log out</button></form>"@, settings_button()),
        no_start("<div class=\"err\">"@, settings_button()),
        no_start("</div>"@, settings_button()),
        no_start(STYLE@, settings_button()),
        no_start(THEME_SCRIPT@, settings_button()),
        no_start(APP_VERSION@, settings_button()),
{
    assert(no_start("<!doctype html><html lang=\"en\"><head><meta charset=\"utf-8\"><meta name=\"viewport\" content=\"width=device-width,initial-scale=1\"><title>"@, settings_button())) by {
        reveal_with_fuel(departs_from, 3);
        reveal_strlit("<button type=\"button\" class=\"btn-neutral\">Settings</button>");
        reveal_strlit("<!doctype html><html lang=\"en\"><head><meta charset=\"utf-8\"><meta name=\"viewport\" content=\"width=device-width,initial-scale=1\"><title>");
    }
    assert(no_start(" · EasyVault</title><script>"@, settings_button())) by {
        reveal_with_fuel(departs_from, 3);
        reveal_strlit("<button type=\"button\" class=\"btn-neutral\">Settings</button>");
        reveal_strlit(" · EasyVault</title><script>");
    }
    assert(no_start("</script><style>"@, settings_button())) by {
        reveal_with_fuel(departs_from, 3);
        reveal_strlit("<button type=\"button\" class=\"btn-neutral\">Settings</button>");
        reveal_strlit("</script><style>");
    }
    assert(no_start("</style></head><body><header><div class=\"brand\">Easy<span>Vault</span></div><div class=\"right\"><button class=\"link themetoggle\" type=\"button\" onclick=\"evToggleTheme()\" title=\"Toggle light / dark\" aria-label=\"Toggle theme\">◐</button>"@, settings_button())) by {
        reveal_with_fuel(departs_from, 10);
        reveal_strlit("<button type=\"button\" class=\"btn-neutral\">Settings</button>");
        reveal_strlit("</style></head><body><header><div class=\"brand\">Easy<span>Vault</span></div><div class=\"right\"><button class=\"link themetoggle\" type=\"button\" onclick=\"evToggleTheme()\" title=\"Toggle light / dark\" aria-label=\"Toggle theme\">◐</button>");
    }
    assert(no_start("</div></header><main>"@, settings_button())) by {
        reveal_with_fuel(departs_from, 3);
        reveal_strlit("<button type=\"button\" class=\"btn-neutral\">Settings</button>");
        reveal_strlit("</div></header><main>");
    }
    assert(no_start("</main><div class=\"version\">v"@, settings_button())) by {
        reveal_with_fuel(departs_from, 3);
        reveal_strlit("<button type=\"button\" class=\"btn-neutral\">Settings</button>");
        reveal_strlit("</main><div class=\"version\">v");
    }
    assert(no_start("</div></body></html>"@, settings_button())) by {
        reveal_with_fuel(departs_from, 3);
        reveal_strlit("<button type=\"button\" class=\"btn-neutral\">Settings</button>");
        reveal_strlit("</div></body></html>");
    }
    assert(no_start("<a href=\"/gui/account/password\" class=\"muted\" title=\"Account\">"@, settings_button())) by {
        reveal_with_fuel(departs_from, 3);
        reveal_strlit("<button type=\"button\" class=\"btn-neutral\">Settings</button>");
        reveal_strlit("<a href=\"/gui/account/password\" class=\"muted\" title=\"Account\">");
    }
    assert(no_start("</a> &nbsp;<form method=\"post\" action=\"/gui/logout\" style=\"margin:0;display:inline\"><button class=\"link\" type=\"submit\">Log out</button></form>"@, settings_button())) by {
        reveal_with_fuel(departs_from, 10);
        reveal_strlit("<button type=\"button\" class=\"btn-neutral\">Settings</button>");
        reveal_strlit("</a> &nbsp;<form method=\"post\" action=\"/gui/logout\" style=\"margin:0;display:inline\"><button class=\"link\" type=\"submit\">Log out</button></form>");
    }
    assert(no_start("<div class=\"err\">"@, settings_button())) by {
        reveal_with_fuel(departs_from, 3);
        reveal_strlit("<button type=\"button\" class=\"btn-neutral\">Settings</button>");
        reveal_strlit("<div class=\"err\">");
    }
    assert(no_start("</div>"@, settings_button())) by {
        reveal_with_fuel(departs_from, 3);
        reveal_strlit("<button type=\"button\" class=\"btn-neutral\">Settings</button>");
        reveal_strlit("</div>");
    }
    reveal_strlit("<button type=\"button\" class=\"btn-neutral\">Settings</button>");
    reveal_strlit(":root{--bg:#0e1116;--card:#161b22;--border:#30363d;--border-soft:#21262d;--fg:#e6edf3;--muted:#7d8590;--h2:#9da7b3;--link:#58a6ff;--brand:#3fb950;--accent:#238636;--accent-hover:#2ea043;--accent-fg:#fff;--neutral:#30363d;--neutral-fg:#e6edf3;--danger:#b62324;--danger-fg:#fff;--err-bg:#3d1a1d;--err-border:#f85149;--err-fg:#ffa198;--ok-bg:#132e1a;--ok-fg:#3fb950;--ok-border:#238636;--warn-bg:#3d2a12;--warn-fg:#d29922;--warn-border:#9e6a03;color-scheme:dark}[data-theme=light]{--bg:#f6f8fa;--card:#ffffff;--border:#d0d7de;--border-soft:#eaeef2;--fg:#1f2328;--muted:#59636e;--h2:#59636e;--link:#0969da;--brand:#1a7f37;--accent:#1f883d;--accent-hover:#1a7f37;--accent-fg:#fff;--neutral:#eaeef2;--neutral-fg:#1f2328;--danger:#cf222e;--danger-fg:#fff;--err-bg:#ffebe9;--err-border:#cf222e;--err-fg:#82071e;--ok-bg:#dafbe1;--ok-fg:#1a7f37;--ok-border:#1f883d;--warn-bg:#fff8c5;--warn-fg:#9a6700;--warn-border:#d4a72c;color-scheme:light}*{box-sizing:border-box}body{margin:0;font:15px/1.5 system-ui,sans-serif;background:var(--bg);color:var(--fg)}header{display:flex;align-items:center;justify-content:space-between;padding:14px 22px;background:var(--card);border-bottom:1px solid var(--border)}header .brand{font-weight:700;letter-spacing:.3px}header .brand span{color:var(--brand)}header .right{display:flex;align-items:center;gap:14px}main{max-width:880px;margin:40px auto;padding:0 22px}.card{background:var(--card);border:1px solid var(--border);border-radius:10px;padding:24px;margin-bottom:20px}h1{font-size:22px;margin:0 0 6px}h2{font-size:16px;margin:0 0 14px;color:var(--h2)}label{display:block;margin:14px 0 6px;font-size:13px;color:var(--h2)}input,textarea,select{width:100%;padding:10px 12px;border:1px solid var(--border);border-radius:7px;background:var(--bg);color:var(--fg);font-size:14px}textarea{font-family:ui-monospace,monospace}button{margin-top:18px;padding:10px 18px;border:0;border-radius:7px;background:var(--accent);color:var(--accent-fg);font-weight:600;cursor:pointer;font-size:14px}button:hover{filter:brightness(1.08)}button.btn-neutral{background:var(--neutral);color:var(--neutral-fg)}button.btn-danger{background:var(--danger);color:var(--danger-fg)}button.link{background:none;color:var(--link);padding:0;margin:0;font-weight:400}a{color:var(--link);text-decoration:none}a:hover{text-decoration:underline}.err{background:var(--err-bg);border:1px solid var(--err-border);color:var(--err-fg);padding:10px 12px;border-radius:7px;margin-bottom:8px;font-size:14px}.muted{color:var(--muted);font-size:13px}.pill{display:inline-block;padding:2px 10px;border-radius:999px;font-size:12px;font-weight:600}.pill.ok{background:var(--ok-bg);color:var(--ok-fg);border:1px solid var(--ok-border)}.pill.warn{background:var(--warn-bg);color:var(--warn-fg);border:1px solid var(--warn-border)}.grid{display:grid;grid-template-columns:1fr 1fr;gap:14px}.kv{padding:12px 14px;background:var(--bg);border:1px solid var(--border);border-radius:8px}.kv .k{font-size:12px;color:var(--muted)}.kv .v{font-size:15px;margin-top:2px}table{width:100%;border-collapse:collapse;margin-top:10px}th{text-align:left;font-size:12px;color:var(--muted);font-weight:600;padding:8px 10px;border-bottom:1px solid var(--border)}td{padding:9px 10px;border-bottom:1px solid var(--border-soft);font-size:14px;vertical-align:middle}tr:last-child td{border-bottom:0}pre{background:var(--bg);border:1px solid var(--border);border-radius:8px;color:var(--fg)}code{background:var(--bg);border:1px solid var(--border);border-radius:4px;padding:1px 5px;font-size:13px}.themetoggle{font-size:16px;line-height:1;cursor:pointer}.version{position:fixed;bottom:8px;right:12px;font-size:12px;color:var(--muted);opacity:.65}.version a{color:var(--muted)}");
    assert(!STYLE@.contains('<'));
    lemma_plain_no_start(STYLE@, settings_button());
    reveal_strlit("<button type=\"button\" class=\"btn-neutral\">Settings</button>");
    reveal_strlit("(function(){try{var t=localStorage.getItem('ev-theme');if(!t){t=window.matchMedia&&window.matchMedia('(prefers-color-scheme: light)').matches?'light':'dark';}document.documentElement.setAttribute('data-theme',t);}catch(e){}})();function evToggleTheme(){var d=document.documentElement;var c=d.getAttribute('data-theme')==='light'?'dark':'light';d.setAttribute('data-theme',c);try{localStorage.setItem('ev-theme',c);}catch(e){}}");
    assert(!THEME_SCRIPT@.contains('<'));
    lemma_plain_no_start(THEME_SCRIPT@, settings_button());
    reveal_strlit("<button type=\"button\" class=\"btn-neutral\">Settings</button>");
    reveal_strlit("0.1.5");
    assert(!APP_VERSION@.contains('<'));
    lemma_plain_no_start(APP_VERSION@, settings_button());
}

proof fn lemma_layout_pieces_secret_list_heading()
    ensures
        no_start("<!doctype html><html lang=\"en\"><head><meta charset=\"utf-8\"><meta name=\"viewport\" content=\"width=device-width,initial-scale=1\"><title>"@, secret_list_heading()),
        no_start(" · EasyVault</title><script>"@, secret_list_heading()),
        no_start("</script><style>"@, secret_list_heading()),
        no_start("</style></head><body><header><div class=\"brand\">Easy<span>Vault</span></div><div class=\"right\"><button class=\"link themetoggle\" type=\"button\" onclick=\"evToggleTheme()\" title=\"Toggle light / dark\" aria-label=\"Toggle theme\">◐</button>"@, secret_list_heading()),
        no_start("</div></header><main>"@, secret_list_heading()),
        no_start("</main><div class=\"version\">v"@, secret_list_heading()),
        no_start("</div></body></html>"@, secret_list_heading()),
        no_start("<a href=\"/gui/account/password\" class=\"muted\" title=\"Account\">"@, secret_list_heading()),
        no_start("</a> &nbsp;<form method=\"post\" action=\"/gui/logout\" style=\"margin:0;display:inline\"><button class=\"link\" type=\"submit\">Log out</button></form>"@, secret_list_heading()),
        no_start("<div class=\"err\">"@, secret_list_heading()),
        no_start("</div>"@, secret_list_heading()),
        no_start(STYLE@, secret_list_heading()),
        no_start(THEME_SCRIPT@, secret_list_heading()),
        no_start(APP_VERSION@, secret_list_heading()),
{
    assert(no_start("<!doctype html><html lang=\"en\"><head><meta charset=\"utf-8\"><meta name=\"viewport\" content=\"width=device-width,initial-scale=1\"><title>"@, secret_list_heading())) by {
        reveal_with_fuel(departs_from, 4);
        reveal_strlit("<h2 style=\"margin:0\">Secrets</h2>");
        reveal_strlit("<!doctype html><html lang=\"en\"><head><meta charset=\"utf-8\"><meta name=\"viewport\" content=\"width=device-width,initial-scale=1\"><title>");
    }
    assert(no_start(" · EasyVault</title><script>"@, secret_list_heading())) by {
        reveal_with_fuel(departs_from, 3);
        reveal_strlit("<h2 style=\"margin:0\">Secrets</h2>");
        reveal_strlit(" · EasyVault</title><script>");
    }
    assert(no_start("</script><style>"@, secret_list_heading())) by {
        reveal_with_fuel(departs_from, 3);
        reveal_strlit("<h2 style=\"margin:0\">Secrets</h2>");
        reveal_strlit("</script><style>");
    }
    assert(no_start("</style></head><body><header><div class=\"brand\">Easy<span>Vault</span></div><div class=\"right\"><button class=\"link themetoggle\" type=\"button\" onclick=\"evToggleTheme()\" title=\"Toggle light / dark\" aria-label=\"Toggle theme\">◐</button>"@, secret_list_heading())) by {
        reveal_with_fuel(departs_from, 4);
        reveal_strlit("<h2 style=\"margin:0\">Secrets</h2>");
        reveal_strlit("</style></head><body><header><div class=\"brand\">Easy<span>Vault</span></div><div class=\"right\"><button class=\"link themetoggle\" type=\"button\" onclick=\"evToggleTheme()\" title=\"Toggle light / dark\" aria-label=\"Toggle theme\">◐</button>");
    }
    assert(no_start("</div></header><main>"@, secret_list_heading())) by {
        reveal_with_fuel(departs_from, 3);
        reveal_strlit("<h2 style=\"margin:0\">Secrets</h2>");
        reveal_strlit("</div></header><main>");
    }
    assert(no_start("</main><div class=\"version\">v"@, secret_list_heading())) by {
        reveal_with_fuel(departs_from, 3);
        reveal_strlit("<h2 style=\"margin:0\">Secrets</h2>");
        reveal_strlit("</main><div class=\"version\">v");
    }
    assert(no_start("</div></body></html>"@, secret_list_heading())) by {
        reveal_with_fuel(departs_from, 3);
        reveal_strlit("<h2 style=\"margin:0\">Secrets</h2>");
        reveal_strlit("</div></body></html>");
    }
    assert(no_start("<a href=\"/gui/account/password\" class=\"muted\" title=\"Account\">"@, secret_list_heading())) by {
        reveal_with_fuel(departs_from, 3);
        reveal_strlit("<h2 style=\"margin:0\">Secrets</h2>");
        reveal_strlit("<a href=\"/gui/account/password\" class=\"muted\" title=\"Account\">");
    }
    assert(no_start("</a> &nbsp;<form method=\"post\" action=\"/gui/logout\" style=\"margin:0;display:inline\"><button class=\"link\" type=\"submit\">Log out</button></form>"@, secret_list_heading())) by {
        reveal_with_fuel(departs_from, 3);
        reveal_strlit("<h2 style=\"margin:0\">Secrets</h2>");
        reveal_strlit("</a> &nbsp;<form method=\"post\" action=\"/gui/logout\" style=\"margin:0;display:inline\"><button class=\"link\" type=\"submit\">Log out</button></form>");
    }
    assert(no_start("<div class=\"err\">"@, secret_list_heading())) by {
        reveal_with_fuel(departs_from, 3);
        reveal_strlit("<h2 style=\"margin:0\">Secrets</h2>");
        reveal_strlit("<div class=\"err\">");
    }
    assert(no_start("</div>"@, secret_list_heading())) by {
        reveal_with_fuel(departs_from, 3);
        reveal_strlit("<h2 style=\"margin:0\">Secrets</h2>");
        reveal_strlit("</div>");
    }
    reveal_strlit("<h2 style=\"margin:0\">Secrets</h2>");
    reveal_strlit(":root{--bg:#0e1116;--card:#161b22;--border:#30363d;--border-soft:#21262d;--fg:#e6edf3;--muted:#7d8590;--h2:#9da7b3;--link:#58a6ff;--brand:#3fb950;--accent:#238636;--accent-hover:#2ea043;--accent-fg:#fff;--neutral:#30363d;--neutral-fg:#e6edf3;--danger:#b62324;--danger-fg:#fff;--err-bg:#3d1a1d;--err-border:#f85149;--err-fg:#ffa198;--ok-bg:#132e1a;--ok-fg:#3fb950;--ok-border:#238636;--warn-bg:#3d2a12;--warn-fg:#d29922;--warn-border:#9e6a03;color-scheme:dark}[data-theme=light]{--bg:#f6f8fa;--card:#ffffff;--border:#d0d7de;--border-soft:#eaeef2;--fg:#1f2328;--muted:#59636e;--h2:#59636e;--link:#0969da;--brand:#1a7f37;--accent:#1f883d;--accent-hover:#1a7f37;--accent-fg:#fff;--neutral:#eaeef2;--neutral-fg:#1f2328;--danger:#cf222e;--danger-fg:#fff;--err-bg:#ffebe9;--err-border:#cf222e;--err-fg:#82071e;--ok-bg:#dafbe1;--ok-fg:#1a7f37;--ok-border:#1f883d;--warn-bg:#fff8c5;--warn-fg:#9a6700;--warn-border:#d4a72c;color-scheme:light}*{box-sizing:border-box}body{margin:0;font:15px/1.5 system-ui,sans-serif;background:var(--bg);color:var(--fg)}header{display:flex;align-items:center;justify-content:space-between;padding:14px 22px;background:var(--card);border-bottom:1px solid var(--border)}header .brand{font-weight:700;letter-spacing:.3px}header .brand span{color:var(--brand)}header .right{display:flex;align-items:center;gap:14px}main{max-width:880px;margin:40px auto;padding:0 22px}.card{background:var(--card);border:1px solid var(--border);border-radius:10px;padding:24px;margin-bottom:20px}h1{font-size:22px;margin:0 0 6px}h2{font-size:16px;margin:0 0 14px;color:var(--h2)}label{display:block;margin:14px 0 6px;font-size:13px;color:var(--h2)}input,textarea,select{width:100%;padding:10px 12px;border:1px solid var(--border);border-radius:7px;background:var(--bg);color:var(--fg);font-size:14px}textarea{font-family:ui-monospace,monospace}button{margin-top:18px;padding:10px 18px;border:0;border-radius:7px;background:var(--accent);color:var(--accent-fg);font-weight:600;cursor:pointer;font-size:14px}button:hover{filter:brightness(1.08)}button.btn-neutral{background:var(--neutral);color:var(--neutral-fg)}button.btn-danger{background:var(--danger);color:var(--danger-fg)}button.link{background:none;color:var(--link);padding:0;margin:0;font-weight:400}a{color:var(--link);text-decoration:none}a:hover{text-decoration:underline}.err{background:var(--err-bg);border:1px solid var(--err-border);color:var(--err-fg);padding:10px 12px;border-radius:7px;margin-bottom:8px;font-size:14px}.muted{color:var(--muted);font-size:13px}.pill{display:inline-block;padding:2px 10px;border-radius:999px;font-size:12px;font-weight:600}.pill.ok{background:var(--ok-bg);color:var(--ok-fg);border:1px solid var(--ok-border)}.pill.warn{background:var(--warn-bg);color:var(--warn-fg);border:1px solid var(--warn-border)}.grid{display:grid;grid-template-columns:1fr 1fr;gap:14px}.kv{padding:12px 14px;background:var(--bg);border:1px solid var(--border);border-radius:8px}.kv .k{font-size:12px;color:var(--muted)}.kv .v{font-size:15px;margin-top:2px}table{width:100%;border-collapse:collapse;margin-top:10px}th{text-align:left;font-size:12px;color:var(--muted);font-weight:600;padding:8px 10px;border-bottom:1px solid var(--border)}td{padding:9px 10px;border-bottom:1px solid var(--border-soft);font-size:14px;vertical-align:middle}tr:last-child td{border-bottom:0}pre{background:var(--bg);border:1px solid var(--border);border-radius:8px;color:var(--fg)}code{background:var(--bg);border:1px solid var(--border);border-radius:4px;padding:1px 5px;font-size:13px}.themetoggle{font-size:16px;line-height:1;cursor:pointer}.version{position:fixed;bottom:8px;right:12px;font-size:12px;color:var(--muted);opacity:.65}.version a{color:var(--muted)}");
    assert(!STYLE@.contains('<'));
    lemma_plain_no_start(STYLE@, secret_list_heading());
    reveal_strlit("<h2 style=\"margin:0\">Secrets</h2>");
    reveal_strlit("(function(){try{var t=localStorage.getItem('ev-theme');if(!t){t=window.matchMedia&&window.matchMedia('(prefers-color-scheme: light)').matches?'light':'dark';}document.documentElement.setAttribute('data-theme',t);}catch(e){}})();function evToggleTheme(){var d=document.documentElement;var c=d.getAttribute('data-theme')==='light'?'dark':'light';d.setAttribute('data-theme',c);try{localStorage.setItem('ev-theme',c);}catch(e){}}");
    assert(!THEME_SCRIPT@.contains('<'));
    lemma_plain_no_start(THEME_SCRIPT@, secret_list_heading());
    reveal_strlit("<h2 style=\"margin:0\">Secrets</h2>");
    reveal_strlit("0.1.5");
    assert(!APP_VERSION@.contains('<'));
    lemma_plain_no_start(APP_VERSION@, secret_list_heading());
}

proof fn lemma_layout_pieces_no_read_note()
    ensures
        no_start("<!doctype html><html lang=\"en\"><head><meta charset=\"utf-8\"><meta name=\"viewport\" content=\"width=device-width,initial-scale=1\"><title>"@, no_read_note()),
        no_start(" · EasyVault</title><script>"@, no_read_note()),
        no_start("</script><style>"@, no_read_note()),
        no_start("</style></head><body><header><div class=\"brand\">Easy<span>Vault</span></div><div class=\"right\"><button class=\"link themetoggle\" type=\"button\" onclick=\"evToggleTheme()\" title=\"Toggle light / dark\" aria-label=\"Toggle theme\">◐</button>"@, no_read_note()),
        no_start("</div></header><main>"@, no_read_note()),
        no_start("</main><div class=\"version\">v"@, no_read_note()),
        no_start("</div></body></html>"@, no_read_note()),
        no_start("<a href=\"/gui/account/password\" class=\"muted\" title=\"Account\">"@, no_read_note()),
        no_start("</a> &nbsp;<form method=\"post\" action=\"/gui/logout\" style=\"margin:0;display:inline\"><button class=\"link\" type=\"submit\">Log out</button></form>"@, no_read_note()),
        no_start("<div class=\"err\">"@, no_read_note()),
        no_start("</div>"@, no_read_note()),
        no_start(STYLE@, no_read_note()),
        no_start(THEME_SCRIPT@, no_read_note()),
        no_start(APP_VERSION@, no_read_note()),
{
    assert(no_start("<!doctype html><html lang=\"en\"><head><meta charset=\"utf-8\"><meta name=\"viewport\" content=\"width=device-width,initial-scale=1\"><title>"@, no_read_note())) by {
        reveal_with_fuel(departs_from, 4);
        reveal_strlit("<h2>Secrets</h2><p class=\"muted\">You manage access to this vault but cannot read its secret contents.</p>");
        reveal_strlit("<!doctype html><html lang=\"en\"><head><meta charset=\"utf-8\"><meta name=\"viewport\" content=\"width=device-width,initial-scale=1\"><title>");
    }
    assert(no_start(" · EasyVault</title><script>"@, no_read_note())) by {
        reveal_with_fuel(departs_from, 3);
        reveal_strlit("<h2>Secrets</h2><p class=\"muted\">You manage access to this vault but cannot read its secret contents.</p>");
        reveal_strlit(" · EasyVault</title><script>");
    }
    assert(no_start("</script><style>"@, no_read_note())) by {
        reveal_with_fuel(departs_from, 3);
        reveal_strlit("<h2>Secrets</h2><p class=\"muted\">You manage access to this vault but cannot read its secret contents.</p>");
        reveal_strlit("</script><style>");
    }
    assert(no_start("</style></head><body><header><div class=\"brand\">Easy<span>Vault</span></div><div class=\"right\"><button class=\"link themetoggle\" type=\"button\" onclick=\"evToggleTheme()\" title=\"Toggle light / dark\" aria-label=\"Toggle theme\">◐</button>"@, no_read_note())) by {
        reveal_with_fuel(departs_from, 4);
        reveal_strlit("<h2>Secrets</h2><p class=\"muted\">You manage access to this vault but cannot read its secret contents.</p>");
        reveal_strlit("</style></head><body><header><div class=\"brand\">Easy<span>Vault</span></div><div class=\"right\"><button class=\"link themetoggle\" type=\"button\" onclick=\"evToggleTheme()\" title=\"Toggle light / dark\" aria-label=\"Toggle theme\">◐</button>");
    }
    assert(no_start("</div></header><main>"@, no_read_note())) by {
        reveal_with_fuel(departs_from, 3);
        reveal_strlit("<h2>Secrets</h2><p class=\"muted\">You manage access to this vault but cannot read its secret contents.</p>");
        reveal_strlit("</div></header><main>");
    }
    assert(no_start("</main><div class=\"version\">v"@, no_read_note())) by {
        reveal_with_fuel(departs_from, 3);
        reveal_strlit("<h2>Secrets</h2><p class=\"muted\">You manage access to this vault but cannot read its secret contents.</p>");
        reveal_strlit("</main><div class=\"version\">v");
    }
    assert(no_start("</div></body></html>"@, no_read_note())) by {
        reveal_with_fuel(departs_from, 3);
        reveal_strlit("<h2>Secrets</h2><p class=\"muted\">You manage access to this vault but cannot read its secret contents.</p>");
        reveal_strlit("</div></body></html>");
    }
    assert(no_start("<a href=\"/gui/account/password\" class=\"muted\" title=\"Account\">"@, no_read_note())) by {
        reveal_with_fuel(departs_from, 3);
        reveal_strlit("<h2>Secrets</h2><p class=\"muted\">You manage access to this vault but cannot read its secret contents.</p>");
        reveal_strlit("<a href=\"/gui/account/password\" class=\"muted\" title=\"Account\">");
    }
    assert(no_start("</a> &nbsp;<form method=\"post\" action=\"/gui/logout\" style=\"margin:0;display:inline\"><button class=\"link\" type=\"submit\">Log out</button></form>"@, no_read_note())) by {
        reveal_with_fuel(departs_from, 3);
        reveal_strlit("<h2>Secrets</h2><p class=\"muted\">You manage access to this vault but cannot read its secret contents.</p>");
        reveal_strlit("</a> &nbsp;<form method=\"post\" action=\"/gui/logout\" style=\"margin:0;display:inline\"><button class=\"link\" type=\"submit\">Log out</button></form>");
    }
    assert(no_start("<div class=\"err\">"@, no_read_note())) by {
        reveal_with_fuel(departs_from, 3);
        reveal_strlit("<h2>Secrets</h2><p class=\"muted\">You manage access to this vault but cannot read its secret contents.</p>");
        reveal_strlit("<div class=\"err\">");
    }
    assert(no_start("</div>"@, no_read_note())) by {
        reveal_with_fuel(departs_from, 3);
        reveal_strlit("<h2>Secrets</h2><p class=\"muted\">You manage access to this vault but cannot read its secret contents.</p>");
        reveal_strlit("</div>");
    }
    reveal_strlit("<h2>Secrets</h2><p class=\"muted\">You manage access to this vault but cannot read its secret contents.</p>");
    reveal_strlit(":root{--bg:#0e1116;--card:#161b22;--border:#30363d;--border-soft:#21262d;--fg:#e6edf3;--muted:#7d8590;--h2:#9da7b3;--link:#58a6ff;--brand:#3fb950;--accent:#238636;--accent-hover:#2ea043;--accent-fg:#fff;--neutral:#30363d;--neutral-fg:#e6edf3;--danger:#b62324;--danger-fg:#fff;--err-bg:#3d1a1d;--err-border:#f85149;--err-fg:#ffa198;--ok-bg:#132e1a;--ok-fg:#3fb950;--ok-border:#238636;--warn-bg:#3d2a12;--warn-fg:#d29922;--warn-border:#9e6a03;color-scheme:dark}[data-theme=light]{--bg:#f6f8fa;--card:#ffffff;--border:#d0d7de;--border-soft:#eaeef2;--fg:#1f2328;--muted:#59636e;--h2:#59636e;--link:#0969da;--brand:#1a7f37;--accent:#1f883d;--accent-hover:#1a7f37;--accent-fg:#fff;--neutral:#eaeef2;--neutral-fg:#1f2328;--danger:#cf222e;--danger-fg:#fff;--err-bg:#ffebe9;--err-border:#cf222e;--err-fg:#82071e;--ok-bg:#dafbe1;--ok-fg:#1a7f37;--ok-border:#1f883d;--warn-bg:#fff8c5;--warn-fg:#9a6700;--warn-border:#d4a72c;color-scheme:light}*{box-sizing:border-box}body{margin:0;font:15px/1.5 system-ui,sans-serif;background:var(--bg);color:var(--fg)}header{display:flex;align-items:center;justify-content:space-between;padding:14px 22px;background:var(--card);border-bottom:1px solid var(--border)}header .brand{font-weight:700;letter-spacing:.3px}header .brand span{color:var(--brand)}header .right{display:flex;align-items:center;gap:14px}main{max-width:880px;margin:40px auto;padding:0 22px}.card{background:var(--card);border:1px solid var(--border);border-radius:10px;padding:24px;margin-bottom:20px}h1{font-size:22px;margin:0 0 6px}h2{font-size:16px;margin:0 0 14px;color:var(--h2)}label{display:block;margin:14px 0 6px;font-size:13px;color:var(--h2)}input,textarea,select{width:100%;padding:10px 12px;border:1px solid var(--border);border-radius:7px;background:var(--bg);color:var(--fg);font-size:14px}textarea{font-family:ui-monospace,monospace}button{margin-top:18px;padding:10px 18px;border:0;border-radius:7px;background:var(--accent);color:var(--accent-fg);font-weight:600;cursor:pointer;font-size:14px}button:hover{filter:brightness(1.08)}button.btn-neutral{background:var(--neutral);color:var(--neutral-fg)}button.btn-danger{background:var(--danger);color:var(--danger-fg)}button.link{background:none;color:var(--link);padding:0;margin:0;font-weight:400}a{color:var(--link);text-decoration:none}a:hover{text-decoration:underline}.err{background:var(--err-bg);border:1px solid var(--err-border);color:var(--err-fg);padding:10px 12px;border-radius:7px;margin-bottom:8px;font-size:14px}.muted{color:var(--muted);font-size:13px}.pill{display:inline-block;padding:2px 10px;border-radius:999px;font-size:12px;font-weight:600}.pill.ok{background:var(--ok-bg);color:var(--ok-fg);border:1px solid var(--ok-border)}.pill.warn{background:var(--warn-bg);color:var(--warn-fg);border:1px solid var(--warn-border)}.grid{display:grid;grid-template-columns:1fr 1fr;gap:14px}.kv{padding:12px 14px;background:var(--bg);border:1px solid var(--border);border-radius:8px}.kv .k{font-size:12px;color:var(--muted)}.kv .v{font-size:15px;margin-top:2px}table{width:100%;border-collapse:collapse;margin-top:10px}th{text-align:left;font-size:12px;color:var(--muted);font-weight:600;padding:8px 10px;border-bottom:1px solid var(--border)}td{padding:9px 10px;border-bottom:1px solid var(--border-soft);font-size:14px;vertical-align:middle}tr:last-child td{border-bottom:0}pre{background:var(--bg);border:1px solid var(--border);border-radius:8px;color:var(--fg)}code{background:var(--bg);border:1px solid var(--border);border-radius:4px;padding:1px 5px;font-size:13px}.themetoggle{font-size:16px;line-height:1;cursor:pointer}.version{position:fixed;bottom:8px;right:12px;font-size:12px;color:var(--muted);opacity:.65}.version a{color:var(--muted)}");
    assert(!STYLE@.contains('<'));
    lemma_plain_no_start(STYLE@, no_read_note());
    reveal_strlit("<h2>Secrets</h2><p class=\"muted\">You manage access to this vault but cannot read its secret contents.</p>");
    reveal_strlit("(function(){try{var t=localStorage.getItem('ev-theme');if(!t){t=window.matchMedia&&window.matchMedia('(prefers-color-scheme: light)').matches?'light':'dark';}document.documentElement.setAttribute('data-theme',t);}catch(e){}})();function evToggleTheme(){var d=document.documentElement;var c=d.getAttribute('data-theme')==='light'?'dark':'light';d.setAttribute('data-theme',c);try{localStorage.setItem('ev-theme',c);}catch(e){}}");
    assert(!THEME_SCRIPT@.contains('<'));
    lemma_plain_no_start(THEME_SCRIPT@, no_read_note());
    reveal_strlit("<h2>Secrets</h2><p class=\"muted\">You manage access to this vault but cannot read its secret contents.</p>");
    reveal_strlit("0.1.5");
    assert(!APP_VERSION@.contains('<'));
    lemma_plain_no_start(APP_VERSION@, no_read_note());
}

proof fn lemma_layout_pieces_create_token_heading()
    ensures
        no_start("<!doctype html><html lang=\"en\"><head><meta charset=\"utf-8\"><meta name=\"viewport\" content=\"width=device-width,initial-scale=1\"><title>"@, create_token_heading()),
        no_start(" · EasyVault</title><script>"@, create_token_heading()),
        no_start("</script><style>"@, create_token_heading()),
        no_start("</style></head><body><header><div class=\"brand\">Easy<span>Vault</span></div><div class=\"right\"><button class=\"link themetoggle\" type=\"button\" onclick=\"evToggleTheme()\" title=\"Toggle light / dark\" aria-label=\"Toggle theme\">◐</button>"@, create_token_heading()),
        no_start("</div></header><main>"@, create_token_heading()),
        no_start("</main><div class=\"version\">v"@, create_token_heading()),
        no_start("</div></body></html>"@, create_token_heading()),
        no_start("<a href=\"/gui/account/password\" class=\"muted\" title=\"Account\">"@, create_token_heading()),
        no_start("</a> &nbsp;<form method=\"post\" action=\"/gui/logout\" style=\"margin:0;display:inline\"><button class=\"link\" type=\"submit\">Log out</button></form>"@, create_token_heading()),
        no_start("<div class=\"err\">"@, create_token_heading()),
        no_start("</div>"@, create_token_heading()),
        no_start(STYLE@, create_token_heading()),
        no_start(THEME_SCRIPT@, create_token_heading()),
        no_start(APP_VERSION@, create_token_heading()),
{
    assert(no_start("<!doctype html><html lang=\"en\"><head><meta charset=\"utf-8\"><meta name=\"viewport\" content=\"width=device-width,initial-scale=1\"><title>"@, create_token_heading())) by {
        reveal_with_fuel(departs_from, 4);
        reveal_strlit("<h2>Create token</h2>");
        reveal_strlit("<!doctype html><html lang=\"en\"><head><meta charset=\"utf-8\"><meta name=\"viewport\" content=\"width=device-width,initial-scale=1\"><title>");
    }
    assert(no_start(" · EasyVault</title><script>"@, create_token_heading())) by {
        reveal_with_fuel(departs_from, 3);
        reveal_strlit("<h2>Create token</h2>");
        reveal_strlit(" · EasyVault</title><script>");
    }
    assert(no_start("</script><style>"@, create_token_heading())) by {
        reveal_with_fuel(departs_from, 3);
        reveal_strlit("<h2>Create token</h2>");
        reveal_strlit("</script><style>");
    }
    assert(no_start("</style></head><body><header><div class=\"brand\">Easy<span>Vault</span></div><div class=\"right\"><button class=\"link themetoggle\" type=\"button\" onclick=\"evToggleTheme()\" title=\"Toggle light / dark\" aria-label=\"Toggle theme\">◐</button>"@, create_token_heading())) by {
        reveal_with_fuel(departs_from, 4);
        reveal_strlit("<h2>Create token</h2>");
        reveal_strlit("</style></head><body><header><div class=\"brand\">Easy<span>Vault</span></div><div class=\"right\"><button class=\"link themetoggle\" type=\"button\" onclick=\"evToggleTheme()\" title=\"Toggle light / dark\" aria-label=\"Toggle theme\">◐</button>");
    }
    assert(no_start("</div></header><main>"@, create_token_heading())) by {
        reveal_with_fuel(departs_from, 3);
        reveal_strlit("<h2>Create token</h2>");
        reveal_strlit("</div></header><main>");
    }
    assert(no_start("</main><div class=\"version\">v"@, create_token_heading())) by {
        reveal_with_fuel(departs_from, 3);
        reveal_strlit("<h2>Create token</h2>");
        reveal_strlit("</main><div class=\"version\">v");
    }
    assert(no_start("</div></body></html>"@, create_token_heading())) by {
        reveal_with_fuel(departs_from, 3);
        reveal_strlit("<h2>Create token</h2>");
        reveal_strlit("</div></body></html>");
    }
    assert(no_start("<a href=\"/gui/account/password\" class=\"muted\" title=\"Account\">"@, create_token_heading())) by {
        reveal_with_fuel(departs_from, 3);
        reveal_strlit("<h2>Create token</h2>");
        reveal_strlit("<a href=\"/gui/account/password\" class=\"muted\" title=\"Account\">");
    }
    assert(no_start("</a> &nbsp;<form method=\"post\" action=\"/gui/logout\" style=\"margin:0;display:inline\"><button class=\"link\" type=\"submit\">Log out</button></form>"@, create_token_heading())) by {
        reveal_with_fuel(departs_from, 3);
        reveal_strlit("<h2>Create token</h2>");
        reveal_strlit("</a> &nbsp;<form method=\"post\" action=\"/gui/logout\" style=\"margin:0;display:inline\"><button class=\"link\" type=\"submit\">Log out</button></form>");
    }
    assert(no_start("<div class=\"err\">"@, create_token_heading())) by {
        reveal_with_fuel(departs_from, 3);
        reveal_strlit("<h2>Create token</h2>");
        reveal_strlit("<div class=\"err\">");
    }
    assert(no_start("</div>"@, create_token_heading())) by {
        reveal_with_fuel(departs_from, 3);
        reveal_strlit("<h2>Create token</h2>");
        reveal_strlit("</div>");
    }
    reveal_strlit("<h2>Create token</h2>");
    reveal_strlit(":root{--bg:#0e1116;--card:#161b22;--border:#30363d;--border-soft:#21262d;--fg:#e6edf3;--muted:#7d8590;--h2:#9da7b3;--link:#58a6ff;--brand:#3fb950;--accent:#238636;--accent-hover:#2ea043;--accent-fg:#fff;--neutral:#30363d;--neutral-fg:#e6edf3;--danger:#b62324;--danger-fg:#fff;--err-bg:#3d1a1d;--err-border:#f85149;--err-fg:#ffa198;--ok-bg:#132e1a;--ok-fg:#3fb950;--ok-border:#238636;--warn-bg:#3d2a12;--warn-fg:#d29922;--warn-border:#9e6a03;color-scheme:dark}[data-theme=light]{--bg:#f6f8fa;--card:#ffffff;--border:#d0d7de;--border-soft:#eaeef2;--fg:#1f2328;--muted:#59636e;--h2:#59636e;--link:#0969da;--brand:#1a7f37;--accent:#1f883d;--accent-hover:#1a7f37;--accent-fg:#fff;--neutral:#eaeef2;--neutral-fg:#1f2328;--danger:#cf222e;--danger-fg:#fff;--err-bg:#ffebe9;--err-border:#cf222e;--err-fg:#82071e;--ok-bg:#dafbe1;--ok-fg:#1a7f37;--ok-border:#1f883d;--warn-bg:#fff8c5;--warn-fg:#9a6700;--warn-border:#d4a72c;color-scheme:light}*{box-sizing:border-box}body{margin:0;font:15px/1.5 system-ui,sans-serif;background:var(--bg);color:var(--fg)}header{display:flex;align-items:center;justify-content:space-between;padding:14px 22px;background:var(--card);border-bottom:1px solid var(--border)}header .brand{font-weight:700;letter-spacing:.3px}header .brand span{color:var(--brand)}header .right{display:flex;align-items:center;gap:14px}main{max-width:880px;margin:40px auto;padding:0 22px}.card{background:var(--card);border:1px solid var(--border);border-radius:10px;padding:24px;margin-bottom:20px}h1{font-size:22px;margin:0 0 6px}h2{font-size:16px;margin:0 0 14px;color:var(--h2)}label{display:block;margin:14px 0 6px;font-size:13px;color:var(--h2)}input,textarea,select{width:100%;padding:10px 12px;border:1px solid var(--border);border-radius:7px;background:var(--bg);color:var(--fg);font-size:14px}textarea{font-family:ui-monospace,monospace}button{margin-top:18px;padding:10px 18px;border:0;border-radius:7px;background:var(--accent);color:var(--accent-fg);font-weight:600;cursor:pointer;font-size:14px}button:hover{filter:brightness(1.08)}button.btn-neutral{background:var(--neutral);color:var(--neutral-fg)}button.btn-danger{background:var(--danger);color:var(--danger-fg)}button.link{background:none;color:var(--link);padding:0;margin:0;font-weight:400}a{color:var(--link);text-decoration:none}a:hover{text-decoration:underline}.err{background:var(--err-bg);border:1px solid var(--err-border);color:var(--err-fg);padding:10px 12px;border-radius:7px;margin-bottom:8px;font-size:14px}.muted{color:var(--muted);font-size:13px}.pill{display:inline-block;padding:2px 10px;border-radius:999px;font-size:12px;font-weight:600}.pill.ok{background:var(--ok-bg);color:var(--ok-fg);border:1px solid var(--ok-border)}.pill.warn{background:var(--warn-bg);color:var(--warn-fg);border:1px solid var(--warn-border)}.grid{display:grid;grid-template-columns:1fr 1fr;gap:14px}.kv{padding:12px 14px;background:var(--bg);border:1px solid var(--border);border-radius:8px}.kv .k{font-size:12px;color:var(--muted)}.kv .v{font-size:15px;margin-top:2px}table{width:100%;border-collapse:collapse;margin-top:10px}th{text-align:left;font-size:12px;color:var(--muted);font-weight:600;padding:8px 10px;border-bottom:1px solid var(--border)}td{padding:9px 10px;border-bottom:1px solid var(--border-soft);font-size:14px;vertical-align:middle}tr:last-child td{border-bottom:0}pre{background:var(--bg);border:1px solid var(--border);border-radius:8px;color:var(--fg)}code{background:var(--bg);border:1px solid var(--border);border-radius:4px;padding:1px 5px;font-size:13px}.themetoggle{font-size:16px;line-height:1;cursor:pointer}.version{position:fixed;bottom:8px;right:12px;font-size:12px;color:var(--muted);opacity:.65}.version a{color:var(--muted)}");
    assert(!STYLE@.contains('<'));
    lemma_plain_no_start(STYLE@, create_token_heading());
    reveal_strlit("<h2>Create token</h2>");
    reveal_strlit("(function(){try{var t=localStorage.getItem('ev-theme');if(!t){t=window.matchMedia&&window.matchMedia('(prefers-color-scheme: light)').matches?'light':'dark';}document.documentElement.setAttribute('data-theme',t);}catch(e){}})();function evToggleTheme(){var d=document.documentElement;var c=d.getAttribute('data-theme')==='light'?'dark':'light';d.setAttribute('data-theme',c);try{localStorage.setItem('ev-theme',c);}catch(e){}}");
    assert(!THEME_SCRIPT@.contains('<'));
    lemma_plain_no_start(THEME_SCRIPT@, create_token_heading());
    reveal_strlit("<h2>Create token</h2>");
    reveal_strlit("0.1.5");
    assert(!APP_VERSION@.contains('<'));
    lemma_plain_no_start(APP_VERSION@, create_token_heading());
}

proof fn lemma_dashboard_pieces_sealed_note()
    ensures
        no_start("Dashboard"@, sealed_note()),
        no_start("<div class=\"card\"><h1>Dashboard</h1><h2>Signed in as "@, sealed_note()),
        no_start(" "@, sealed_note()),
        no_start("</h2><div class=\"grid\"><div class=\"kv\"><div class=\"k\">Instance</div><div class=\"v\">"@, sealed_note()),
        no_start("</div></div><div class=\"kv\"><div class=\"k\">Your vaults</div><div class=\"v\">"@, sealed_note()),
        no_start("</div></div></div>"@, sealed_note()),
        no_start(""@, sealed_note()),
        no_start("<p style=\"margin-top:14px\"><a href=\"/gui/users\">Manage users &rarr;</a> &nbsp;·&nbsp; <a href=\"/gui/audit\">Audit log &rarr;</a></p>"@, sealed_note()),
        no_start("<form method=\"post\" action=\"/gui/seal\" style=\"margin-top:10px\" onsubmit=\"return confirm('Seal the instance? All secret access stops until it is unsealed again.');\"><button type=\"submit\" class=\"btn-danger\">Seal instance</button><span class=\"muted\"> — drops the master key from memory.</span></form>"@, sealed_note()),
        no_start("</div><div class=\"card\"><div style=\"display:flex;justify-content:space-between;align-items:center\"><h2 style=\"margin:0\">Vaults</h2>"@, sealed_note()),
        no_start("<a href=\"/gui/vaults/new\"><button type=\"button\">New vault</button></a>"@, sealed_note()),
        no_start("</div>"@, sealed_note()),
        no_start("<p class=\"muted\">No vaults yet.</p>"@, sealed_note()),
        no_start("<table><tr><th>Vault</th><th>Description</th></tr>"@, sealed_note()),
        no_start("</table>"@, sealed_note()),
        no_start("<span class=\"pill ok\">master</span>"@, sealed_note()),
        no_start("<span class=\"pill warn\">user</span>"@, sealed_note()),
        no_start("<span class=\"pill warn\">sealed</span>"@, sealed_note()),
        no_start("<span class=\"pill ok\">unsealed</span>"@, sealed_note()),
{
    assert(no_start("Dashboard"@, sealed_note())) by {
        reveal_with_fuel(departs_from, 2);
        reveal_strlit("<p class=\"muted\">The instance is sealed — vault and secret operations are blocked until it is unsealed via <code>/v1/sys/unseal</code>.</p>");
        reveal_strlit("Dashboard");
    }
    assert(no_start("<div class=\"card\"><h1>Dashboard</h1><h2>Signed in as "@, sealed_note())) by {
        reveal_with_fuel(departs_from, 3);
        reveal_strlit("<p class=\"muted\">The instance is sealed — vault and secret operations are blocked until it is unsealed via <code>/v1/sys/unseal</code>.</p>");
        reveal_strlit("<div class=\"card\"><h1>Dashboard</h1><h2>Signed in as ");
    }
    assert(no_start(" "@, sealed_note())) by {
        reveal_with_fuel(departs_from, 2);
        reveal_strlit("<p class=\"muted\">The instance is sealed — vault and secret operations are blocked until it is unsealed via <code>/v1/sys/unseal</code>.</p>");
        reveal_strlit(" ");
    }
    assert(no_start("</h2><div class=\"grid\"><div class=\"kv\"><div class=\"k\">Instance</div><div class=\"v\">"@, sealed_note())) by {
        reveal_with_fuel(departs_from, 3);
        reveal_strlit("<p class=\"muted\">The instance is sealed — vault and secret operations are blocked until it is unsealed via <code>/v1/sys/unseal</code>.</p>");
        reveal_strlit("</h2><div class=\"grid\"><div class=\"kv\"><div class=\"k\">Instance</div><div class=\"v\">");
    }
    assert(no_start("</div></div><div class=\"kv\"><div class=\"k\">Your vaults</div><div class=\"v\">"@, sealed_note())) by {
        reveal_with_fuel(departs_from, 3);
        reveal_strlit("<p class=\"muted\">The instance is sealed — vault and secret operations are blocked until it is unsealed via <code>/v1/sys/unseal</code>.</p>");
        reveal_strlit("</div></div><div class=\"kv\"><div class=\"k\">Your vaults</div><div class=\"v\">");
    }
    assert(no_start("</div></div></div>"@, sealed_note())) by {
        reveal_with_fuel(departs_from, 3);
        reveal_strlit("<p class=\"muted\">The instance is sealed — vault and secret operations are blocked until it is unsealed via <code>/v1/sys/unseal</code>.</p>");
        reveal_strlit("</div></div></div>");
    }
    assert(no_start(""@, sealed_note())) by {
        reveal_with_fuel(departs_from, 2);
        reveal_strlit("<p class=\"muted\">The instance is sealed — vault and secret operations are blocked until it is unsealed via <code>/v1/sys/unseal</code>.</p>");
        reveal_strlit("");
    }
    assert(no_start("<p style=\"margin-top:14px\"><a href=\"/gui/users\">Manage users &rarr;</a> &nbsp;·&nbsp; <a href=\"/gui/audit\">Audit log &rarr;</a></p>"@, sealed_note())) by {
        reveal_with_fuel(departs_from, 5);
        reveal_strlit("<p class=\"muted\">The instance is sealed — vault and secret operations are blocked until it is unsealed via <code>/v1/sys/unseal</code>.</p>");
        reveal_strlit("<p style=\"margin-top:14px\"><a href=\"/gui/users\">Manage users &rarr;</a> &nbsp;·&nbsp; <a href=\"/gui/audit\">Audit log &rarr;</a></p>");
    }
    assert(no_start("<form method=\"post\" action=\"/gui/seal\" style=\"margin-top:10px\" onsubmit=\"return confirm('Seal the instance? All secret access stops until it is unsealed again.');\"><button type=\"submit\" class=\"btn-danger\">Seal instance</button><span class=\"muted\"> — drops the master key from memory.</span></form>"@, sealed_note())) by {
        reveal_with_fuel(departs_from, 3);
        reveal_strlit("<p class=\"muted\">The instance is sealed — vault and secret operations are blocked until it is unsealed via <code>/v1/sys/unseal</code>.</p>");
        reveal_strlit("<form method=\"post\" action=\"/gui/seal\" style=\"margin-top:10px\" onsubmit=\"return confirm('Seal the instance? All secret access stops until it is unsealed again.');\"><button type=\"submit\" class=\"btn-danger\">Seal instance</button><span class=\"muted\"> — drops the master key from memory.</span></form>");
    }
    assert(no_start("</div><div class=\"card\"><div style=\"display:flex;justify-content:space-between;align-items:center\"><h2 style=\"margin:0\">Vaults</h2>"@, sealed_note())) by {
        reveal_with_fuel(departs_from, 3);
        reveal_strlit("<p class=\"muted\">The instance is sealed — vault and secret operations are blocked until it is unsealed via <code>/v1/sys/unseal</code>.</p>");
        reveal_strlit("</div><div class=\"card\"><div style=\"display:flex;justify-content:space-between;align-items:center\"><h2 style=\"margin:0\">Vaults</h2>");
    }
    assert(no_start("<a href=\"/gui/vaults/new\"><button type=\"button\">New vault</button></a>"@, sealed_note())) by {
        reveal_with_fuel(departs_from, 3);
        reveal_strlit("<p class=\"muted\">The instance is sealed — vault and secret operations are blocked until it is unsealed via <code>/v1/sys/unseal</code>.</p>");
        reveal_strlit("<a href=\"/gui/vaults/new\"><button type=\"button\">New vault</button></a>");
    }
    assert(no_start("</div>"@, sealed_note())) by {
        reveal_with_fuel(departs_from, 3);
        reveal_strlit("<p class=\"muted\">The instance is sealed — vault and secret operations are blocked until it is unsealed via <code>/v1/sys/unseal</code>.</p>");
        reveal_strlit("</div>");
    }
    assert(no_start("<p class=\"muted\">No vaults yet.</p>"@, sealed_note())) by {
        reveal_with_fuel(departs_from, 19);
        reveal_strlit("<p class=\"muted\">The instance is sealed — vault and secret operations are blocked until it is unsealed via <code>/v1/sys/unseal</code>.</p>");
        reveal_strlit("<p class=\"muted\">No vaults yet.</p>");
    }
    assert(no_start("<table><tr><th>Vault</th><th>Description</th></tr>"@, sealed_note())) by {
        reveal_with_fuel(departs_from, 3);
        reveal_strlit("<p class=\"muted\">The instance is sealed — vault and secret operations are blocked until it is unsealed via <code>/v1/sys/unseal</code>.</p>");
        reveal_strlit("<table><tr><th>Vault</th><th>Description</th></tr>");
    }
    assert(no_start("</table>"@, sealed_note())) by {
        reveal_with_fuel(departs_from, 3);
        reveal_strlit("<p class=\"muted\">The instance is sealed — vault and secret operations are blocked until it is unsealed via <code>/v1/sys/unseal</code>.</p>");
        reveal_strlit("</table>");
    }
    assert(no_start("<span class=\"pill ok\">master</span>"@, sealed_note())) by {
        reveal_with_fuel(departs_from, 3);
        reveal_strlit("<p class=\"muted\">The instance is sealed — vault and secret operations are blocked until it is unsealed via <code>/v1/sys/unseal</code>.</p>");
        reveal_strlit("<span class=\"pill ok\">master</span>");
    }
    assert(no_start("<span class=\"pill warn\">user</span>"@, sealed_note())) by {
        reveal_with_fuel(departs_from, 3);
        reveal_strlit("<p class=\"muted\">The instance is sealed — vault and secret operations are blocked until it is unsealed via <code>/v1/sys/unseal</code>.</p>");
        reveal_strlit("<span class=\"pill warn\">user</span>");
    }
    assert(no_start("<span class=\"pill warn\">sealed</span>"@, sealed_note())) by {
        reveal_with_fuel(departs_from, 3);
        reveal_strlit("<p class=\"muted\">The instance is sealed — vault and secret operations are blocked until it is unsealed via <code>/v1/sys/unseal</code>.</p>");
        reveal_strlit("<span class=\"pill warn\">sealed</span>");
    }
    assert(no_start("<span class=\"pill ok\">unsealed</span>"@, sealed_note())) by {
        reveal_with_fuel(departs_from, 3);
        reveal_strlit("<p class=\"muted\">The instance is sealed — vault and secret operations are blocked until it is unsealed via <code>/v1/sys/unseal</code>.</p>");
        reveal_strlit("<span class=\"pill ok\">unsealed</span>");
    }
}

proof fn lemma_dashboard_pieces_manage_users_link()
    ensures
        no_start("Dashboard"@, manage_users_link()),
        no_start("<div class=\"card\"><h1>Dashboard</h1><h2>Signed in as "@, manage_users_link()),
        no_start(" "@, manage_users_link()),
        no_start("</h2><div class=\"grid\"><div class=\"kv\"><div class=\"k\">Instance</div><div class=\"v\">"@, manage_users_link()),
        no_start("</div></div><div class=\"kv\"><div class=\"k\">Your vaults</div><div class=\"v\">"@, manage_users_link()),
        no_start("</div></div></div>"@, manage_users_link()),
        no_start("<p class=\"muted\">The instance is sealed — vault and secret operations are blocked until it is unsealed via <code>/v1/sys/unseal</code>.</p>"@, manage_users_link()),
        no_start(""@, manage_users_link()),
        no_start("<form method=\"post\" action=\"/gui/seal\" style=\"margin-top:10px\" onsubmit=\"return confirm('Seal the instance? All secret access stops until it is unsealed again.');\"><button type=\"submit\" class=\"btn-danger\">Seal instance</button><span class=\"muted\"> — drops the master key from memory.</span></form>"@, manage_users_link()),
        no_start("</div><div class=\"card\"><div style=\"display:flex;justify-content:space-between;align-items:center\"><h2 style=\"margin:0\">Vaults</h2>"@, manage_users_link()),
        no_start("<a href=\"/gui/vaults/new\"><button type=\"button\">New vault</button></a>"@, manage_users_link()),
        no_start("</div>"@, manage_users_link()),
        no_start("<p class=\"muted\">No vaults yet.</p>"@, manage_users_link()),
        no_start("<table><tr><th>Vault</th><th>Description</th></tr>"@, manage_users_link()),
        no_start("</table>"@, manage_users_link()),
        no_start("<span class=\"pill ok\">master</span>"@, manage_users_link()),
        no_start("<span class=\"pill warn\">user</span>"@, manage_users_link()),
        no_start("<span class=\"pill warn\">sealed</span>"@, manage_users_link()),
        no_start("<span class=\"pill ok\">unsealed</span>"@, manage_users_link()),
{
    assert(no_start("Dashboard"@, manage_users_link())) by {
        reveal_with_fuel(departs_from, 2);
        reveal_strlit("<a href=\"/gui/users\">Manage users &rarr;</a>");
        reveal_strlit("Dashboard");
    }
    assert(no_start("<div class=\"card\"><h1>Dashboard</h1><h2>Signed in as "@, manage_users_link())) by {
        reveal_with_fuel(departs_from, 3);
        reveal_strlit("<a href=\"/gui/users\">Manage users &rarr;</a>");
        reveal_strlit("<div class=\"card\"><h1>Dashboard</h1><h2>Signed in as ");
    }
    assert(no_start(" "@, manage_users_link())) by {
        reveal_with_fuel(departs_from, 2);
        reveal_strlit("<a href=\"/gui/users\">Manage users &rarr;</a>");
        reveal_strlit(" ");
    }
    assert(no_start("</h2><div class=\"grid\"><div class=\"kv\"><div class=\"k\">Instance</div><div class=\"v\">"@, manage_users_link())) by {
        reveal_with_fuel(departs_from, 3);
        reveal_strlit("<a href=\"/gui/users\">Manage users &rarr;</a>");
        reveal_strlit("</h2><div class=\"grid\"><div class=\"kv\"><div class=\"k\">Instance</div><div class=\"v\">");
    }
    assert(no_start("</div></div><div class=\"kv\"><div class=\"k\">Your vaults</div><div class=\"v\">"@, manage_users_link())) by {
        reveal_with_fuel(departs_from, 3);
        reveal_strlit("<a href=\"/gui/users\">Manage users &rarr;</a>");
        reveal_strlit("</div></div><div class=\"kv\"><div class=\"k\">Your vaults</div><div class=\"v\">");
    }
    assert(no_start("</div></div></div>"@, manage_users_link())) by {
        reveal_with_fuel(departs_from, 3);
        reveal_strlit("<a href=\"/gui/users\">Manage users &rarr;</a>");
        reveal_strlit("</div></div></div>");
    }
    assert(no_start("<p class=\"muted\">The instance is sealed — vault and secret operations are blocked until it is unsealed via <code>/v1/sys/unseal</code>.</p>"@, manage_users_link())) by {
        reveal_with_fuel(departs_from, 3);
        reveal_strlit("<a href=\"/gui/users\">Manage users &rarr;</a>");
        reveal_strlit("<p class=\"muted\">The instance is sealed — vault and secret operations are blocked until it is unsealed via <code>/v1/sys/unseal</code>.</p>");
    }
    assert(no_start(""@, manage_users_link())) by {
        reveal_with_fuel(departs_from, 2);
        reveal_strlit("<a href=\"/gui/users\">Manage users &rarr;</a>");
        reveal_strlit("");
    }
    assert(no_start("<form method=\"post\" action=\"/gui/seal\" style=\"margin-top:10px\" onsubmit=\"return confirm('Seal the instance? All secret access stops until it is unsealed again.');\"><button type=\"submit\" class=\"btn-danger\">Seal instance</button><span class=\"muted\"> — drops the master key from memory.</span></form>"@, manage_users_link())) by {
        reveal_with_fuel(departs_from, 3);
        reveal_strlit("<a href=\"/gui/users\">Manage users &rarr;</a>");
        reveal_strlit("<form method=\"post\" action=\"/gui/seal\" style=\"margin-top:10px\" onsubmit=\"return confirm('Seal the instance? All secret access stops until it is unsealed again.');\"><button type=\"submit\" class=\"btn-danger\">Seal instance</button><span class=\"muted\"> — drops the master key from memory.</span></form>");
    }
    assert(no_start("</div><div class=\"card\"><div style=\"display:flex;justify-content:space-between;align-items:center\"><h2 style=\"margin:0\">Vaults</h2>"@, manage_users_link())) by {
        reveal_with_fuel(departs_from, 3);
        reveal_strlit("<a href=\"/gui/users\">Manage users &rarr;</a>");
        reveal_strlit("</div><div class=\"card\"><div style=\"display:flex;justify-content:space-between;align-items:center\"><h2 style=\"margin:0\">Vaults</h2>");
    }
    assert(no_start("<a href=\"/gui/vaults/new\"><button type=\"button\">New vault</button></a>"@, manage_users_link())) by {
        reveal_with_fuel(departs_from, 16);
        reveal_strlit("<a href=\"/gui/users\">Manage users &rarr;</a>");
        reveal_strlit("<a href=\"/gui/vaults/new\"><button type=\"button\">New vault</button></a>");
    }
    assert(no_start("</div>"@, manage_users_link())) by {
        reveal_with_fuel(departs_from, 3);
        reveal_strlit("<a href=\"/gui/users\">Manage users &rarr;</a>");
        reveal_strlit("</div>");
    }
    assert(no_start("<p class=\"muted\">No vaults yet.</p>"@, manage_users_link())) by {
        reveal_with_fuel(departs_from, 3);
        reveal_strlit("<a href=\"/gui/users\">Manage users &rarr;</a>");
        reveal_strlit("<p class=\"muted\">No vaults yet.</p>");
    }
    assert(no_start("<table><tr><th>Vault</th><th>Description</th></tr>"@, manage_users_link())) by {
        reveal_with_fuel(departs_from, 3);
        reveal_strlit("<a href=\"/gui/users\">Manage users &rarr;</a>");
        reveal_strlit("<table><tr><th>Vault</th><th>Description</th></tr>");
    }
    assert(no_start("</table>"@, manage_users_link())) by {
        reveal_with_fuel(departs_from, 3);
        reveal_strlit("<a href=\"/gui/users\">Manage users &rarr;</a>");
        reveal_strlit("</table>");
    }
    assert(no_start("<span class=\"pill ok\">master</span>"@, manage_users_link())) by {
        reveal_with_fuel(departs_from, 3);
        reveal_strlit("<a href=\"/gui/users\">Manage users &rarr;</a>");
        reveal_strlit("<span class=\"pill ok\">master</span>");
    }
    assert(no_start("<span class=\"pill warn\">user</span>"@, manage_users_link())) by {
        reveal_with_fuel(departs_from, 3);
        reveal_strlit("<a href=\"/gui/users\">Manage users &rarr;</a>");
        reveal_strlit("<span class=\"pill warn\">user</span>");
    }
    assert(no_start("<span class=\"pill warn\">sealed</span>"@, manage_users_link())) by {
        reveal_with_fuel(departs_from, 3);
        reveal_strlit("<a href=\"/gui/users\">Manage users &rarr;</a>");
        reveal_strlit("<span class=\"pill warn\">sealed</span>");
    }
    assert(no_start("<span class=\"pill ok\">unsealed</span>"@, manage_users_link())) by {
        reveal_with_fuel(departs_from, 3);
        reveal_strlit("<a href=\"/gui/users\">Manage users &rarr;</a>");
        reveal_strlit("<span class=\"pill ok\">unsealed</span>");
    }
}

proof fn lemma_dashboard_pieces_audit_log_link()
    ensures
        no_start("Dashboard"@, audit_log_link()),
        no_start("<div class=\"card\"><h1>Dashboard</h1><h2>Signed in as "@, audit_log_link()),
        no_start(" "@, audit_log_link()),
        no_start("</h2><div class=\"grid\"><div class=\"kv\"><div class=\"k\">Instance</div><div class=\"v\">"@, audit_log_link()),
        no_start("</div></div><div class=\"kv\"><div class=\"k\">Your vaults</div><div class=\"v\">"@, audit_log_link()),
        no_start("</div></div></div>"@, audit_log_link()),
        no_start("<p class=\"muted\">The instance is sealed — vault and secret operations are blocked until it is unsealed via <code>/v1/sys/unseal</code>.</p>"@, audit_log_link()),
        no_start(""@, audit_log_link()),
        no_start("<form method=\"post\" action=\"/gui/seal\" style=\"margin-top:10px\" onsubmit=\"return confirm('Seal the instance? All secret access stops until it is unsealed again.');\"><button type=\"submit\" class=\"btn-danger\">Seal instance</button><span class=\"muted\"> — drops the master key from memory.</span></form>"@, audit_log_link()),
        no_start("</div><div class=\"card\"><div style=\"display:flex;justify-content:space-between;align-items:center\"><h2 style=\"margin:0\">Vaults</h2>"@, audit_log_link()),
        no_start("<a href=\"/gui/vaults/new\"><button type=\"button\">New vault</button></a>"@, audit_log_link()),
        no_start("</div>"@, audit_log_link()),
        no_start("<p class=\"muted\">No vaults yet.</p>"@, audit_log_link()),
        no_start("<table><tr><th>Vault</th><th>Description</th></tr>"@, audit_log_link()),
        no_start("</table>"@, audit_log_link()),
        no_start("<span class=\"pill ok\">master</span>"@, audit_log_link()),
        no_start("<span class=\"pill warn\">user</span>"@, audit_log_link()),
        no_start("<span class=\"pill warn\">sealed</span>"@, audit_log_link()),
        no_start("<span class=\"pill ok\">unsealed</span>"@, audit_log_link()),
{
    assert(no_start("Dashboard"@, audit_log_link())) by {
        reveal_with_fuel(departs_from, 2);
        reveal_strlit("<a href=\"/gui/audit\">Audit log &rarr;</a>");
        reveal_strlit("Dashboard");
    }
    assert(no_start("<div class=\"card\"><h1>Dashboard</h1><h2>Signed in as "@, audit_log_link())) by {
        reveal_with_fuel(departs_from, 3);
        reveal_strlit("<a href=\"/gui/audit\">Audit log &rarr;</a>");
        reveal_strlit("<div class=\"card\"><h1>Dashboard</h1><h2>Signed in as ");
    }
    assert(no_start(" "@, audit_log_link())) by {
        reveal_with_fuel(departs_from, 2);
        reveal_strlit("<a href=\"/gui/audit\">Audit log &rarr;</a>");
        reveal_strlit(" ");
    }
    assert(no_start("</h2><div class=\"grid\"><div class=\"kv\"><div class=\"k\">Instance</div><div class=\"v\">"@, audit_log_link())) by {
        reveal_with_fuel(departs_from, 3);
        reveal_strlit("<a href=\"/gui/audit\">Audit log &rarr;</a>");
        reveal_strlit("</h2><div class=\"grid\"><div class=\"kv\"><div class=\"k\">Instance</div><div class=\"v\">");
    }
    assert(no_start("</div></div><div class=\"kv\"><div class=\"k\">Your vaults</div><div class=\"v\">"@, audit_log_link())) by {
        reveal_with_fuel(departs_from, 3);
        reveal_strlit("<a href=\"/gui/audit\">Audit log &rarr;</a>");
        reveal_strlit("</div></div><div class=\"kv\"><div class=\"k\">Your vaults</div><div class=\"v\">");
    }
    assert(no_start("</div></div></div>"@, audit_log_link())) by {
        reveal_with_fuel(departs_from, 3);
        reveal_strlit("<a href=\"/gui/audit\">Audit log &rarr;</a>");
        reveal_strlit("</div></div></div>");
    }
    assert(no_start("<p class=\"muted\">The instance is sealed — vault and secret operations are blocked until it is unsealed via <code>/v1/sys/unseal</code>.</p>"@, audit_log_link())) by {
        reveal_with_fuel(departs_from, 3);
        reveal_strlit("<a href=\"/gui/audit\">Audit log &rarr;</a>");
        reveal_strlit("<p class=\"muted\">The instance is sealed — vault and secret operations are blocked until it is unsealed via <code>/v1/sys/unseal</code>.</p>");
    }
    assert(no_start(""@, audit_log_link())) by {
        reveal_with_fuel(departs_from, 2);
        reveal_strlit("<a href=\"/gui/audit\">Audit log &rarr;</a>");
        reveal_strlit("");
    }
    assert(no_start("<form method=\"post\" action=\"/gui/seal\" style=\"margin-top:10px\" onsubmit=\"return confirm('Seal the instance? All secret access stops until it is unsealed again.');\"><button type=\"submit\" class=\"btn-danger\">Seal instance</button><span class=\"muted\"> — drops the master key from memory.</span></form>"@, audit_log_link())) by {
        reveal_with_fuel(departs_from, 3);
        reveal_strlit("<a href=\"/gui/audit\">Audit log &rarr;</a>");
        reveal_strlit("<form method=\"post\" action=\"/gui/seal\" style=\"margin-top:10px\" onsubmit=\"return confirm('Seal the instance? All secret access stops until it is unsealed again.');\"><button type=\"submit\" class=\"btn-danger\">Seal instance</button><span class=\"muted\"> — drops the master key from memory.</span></form>");
    }
    assert(no_start("</div><div class=\"card\"><div style=\"display:flex;justify-content:space-between;align-items:center\"><h2 style=\"margin:0\">Vaults</h2>"@, audit_log_link())) by {
        reveal_with_fuel(departs_from, 3);
        reveal_strlit("<a href=\"/gui/audit\">Audit log &rarr;</a>");
        reveal_strlit("</div><div class=\"card\"><div style=\"display:flex;justify-content:space-between;align-items:center\"><h2 style=\"margin:0\">Vaults</h2>");
    }
    assert(no_start("<a href=\"/gui/vaults/new\"><button type=\"button\">New vault</button></a>"@, audit_log_link())) by {
        reveal_with_fuel(departs_from, 16);
        reveal_strlit("<a href=\"/gui/audit\">Audit log &rarr;</a>");
        reveal_strlit("<a href=\"/gui/vaults/new\"><button type=\"button\">New vault</button></a>");
    }
    assert(no_start("</div>"@, audit_log_link())) by {
        reveal_with_fuel(departs_from, 3);
        reveal_strlit("<a href=\"/gui/audit\">Audit log &rarr;</a>");
        reveal_strlit("</div>");
    }
    assert(no_start("<p class=\"muted\">No vaults yet.</p>"@, audit_log_link())) by {
        reveal_with_fuel(departs_from, 3);
        reveal_strlit("<a href=\"/gui/audit\">Audit log &rarr;</a>");
        reveal_strlit("<p class=\"muted\">No vaults yet.</p>");
    }
    assert(no_start("<table><tr><th>Vault</th><th>Description</th></tr>"@, audit_log_link())) by {
        reveal_with_fuel(departs_from, 3);
        reveal_strlit("<a href=\"/gui/audit\">Audit log &rarr;</a>");
        reveal_strlit("<table><tr><th>Vault</th><th>Description</th></tr>");
    }
    assert(no_start("</table>"@, audit_log_link())) by {
        reveal_with_fuel(departs_from, 3);
        reveal_strlit("<a href=\"/gui/audit\">Audit log &rarr;</a>");
        reveal_strlit("</table>");
    }
    assert(no_start("<span class=\"pill ok\">master</span>"@, audit_log_link())) by {
        reveal_with_fuel(departs_from, 3);
        reveal_strlit("<a href=\"/gui/audit\">Audit log &rarr;</a>");
        reveal_strlit("<span class=\"pill ok\">master</span>");
    }
    assert(no_start("<span class=\"pill warn\">user</span>"@, audit_log_link())) by {
        reveal_with_fuel(departs_from, 3);
        reveal_strlit("<a href=\"/gui/audit\">Audit log &rarr;</a>");
        reveal_strlit("<span class=\"pill warn\">user</span>");
    }
    assert(no_start("<span class=\"pill warn\">sealed</span>"@, audit_log_link())) by {
        reveal_with_fuel(departs_from, 3);
        reveal_strlit("<a href=\"/gui/audit\">Audit log &rarr;</a>");
        reveal_strlit("<span class=\"pill warn\">sealed</span>");
    }
    assert(no_start("<span class=\"pill ok\">unsealed</span>"@, audit_log_link())) by {
        reveal_with_fuel(departs_from, 3);
        reveal_strlit("<a href=\"/gui/audit\">Audit log &rarr;</a>");
        reveal_strlit("<span class=\"pill ok\">unsealed</span>");
    }
}

proof fn lemma_dashboard_pieces_seal_button()
    ensures
        no_start("Dashboard"@, seal_button()),
        no_start("<div class=\"card\"><h1>Dashboard</h1><h2>Signed in as "@, seal_button()),
        no_start(" "@, seal_button()),
        no_start("</h2><div class=\"grid\"><div class=\"kv\"><div class=\"k\">Instance</div><div class=\"v\">"@, seal_button()),
        no_start("</div></div><div class=\"kv\"><div class=\"k\">Your vaults</div><div class=\"v\">"@, seal_button()),
        no_start("</div></div></div>"@, seal_button()),
        no_start("<p class=\"muted\">The instance is sealed — vault and secret operations are blocked until it is unsealed via <code>/v1/sys/unseal</code>.</p>"@, seal_button()),
        no_start(""@, seal_button()),
        no_start("<p style=\"margin-top:14px\"><a href=\"/gui/users\">Manage users &rarr;</a> &nbsp;·&nbsp; <a href=\"/gui/audit\">Audit log &rarr;</a></p>"@, seal_button()),
        no_start("</div><div class=\"card\"><div style=\"display:flex;justify-content:space-between;align-items:center\"><h2 style=\"margin:0\">Vaults</h2>"@, seal_button()),
        no_start("<a href=\"/gui/vaults/new\"><button type=\"button\">New vault</button></a>"@, seal_button()),
        no_start("</div>"@, seal_button()),
        no_start("<p class=\"muted\">No vaults yet.</p>"@, seal_button()),
        no_start("<table><tr><th>Vault</th><th>Description</th></tr>"@, seal_button()),
        no_start("</table>"@, seal_button()),
        no_start("<span class=\"pill ok\">master</span>"@, seal_button()),
        no_start("<span class=\"pill warn\">user</span>"@, seal_button()),
        no_start("<span class=\"pill warn\">sealed</span>"@, seal_button()),
        no_start("<span class=\"pill ok\">unsealed</span>"@, seal_button()),
{
    assert(no_start("Dashboard"@, seal_button())) by {
        reveal_with_fuel(departs_from, 2);
        reveal_strlit("<button type=\"submit\" class=\"btn-danger\">Seal instance</button>");
        reveal_strlit("Dashboard");
    }
    assert(no_start("<div class=\"card\"><h1>Dashboard</h1><h2>Signed in as "@, seal_button())) by {
        reveal_with_fuel(departs_from, 3);
        reveal_strlit("<button type=\"submit\" class=\"btn-danger\">Seal instance</button>");
        reveal_strlit("<div class=\"card\"><h1>Dashboard</h1><h2>Signed in as ");
    }
    assert(no_start(" "@, seal_button())) by {
        reveal_with_fuel(departs_from, 2);
        reveal_strlit("<button type=\"submit\" class=\"btn-danger\">Seal instance</button>");
        reveal_strlit(" ");
    }
    assert(no_start("</h2><div class=\"grid\"><div class=\"kv\"><div class=\"k\">Instance</div><div class=\"v\">"@, seal_button())) by {
        reveal_with_fuel(departs_from, 3);
        reveal_strlit("<button type=\"submit\" class=\"btn-danger\">Seal instance</button>");
        reveal_strlit("</h2><div class=\"grid\"><div class=\"kv\"><div class=\"k\">Instance</div><div class=\"v\">");
    }
    assert(no_start("</div></div><div class=\"kv\"><div class=\"k\">Your vaults</div><div class=\"v\">"@, seal_button())) by {
        reveal_with_fuel(departs_from, 3);
        reveal_strlit("<button type=\"submit\" class=\"btn-danger\">Seal instance</button>");
        reveal_strlit("</div></div><div class=\"kv\"><div class=\"k\">Your vaults</div><div class=\"v\">");
    }
    assert(no_start("</div></div></div>"@, seal_button())) by {
        reveal_with_fuel(departs_from, 3);
        reveal_strlit("<button type=\"submit\" class=\"btn-danger\">Seal instance</button>");
        reveal_strlit("</div></div></div>");
    }
    assert(no_start("<p class=\"muted\">The instance is sealed — vault and secret operations are blocked until it is unsealed via <code>/v1/sys/unseal</code>.</p>"@, seal_button())) by {
        reveal_with_fuel(departs_from, 3);
        reveal_strlit("<button type=\"submit\" class=\"btn-danger\">Seal instance</button>");
        reveal_strlit("<p class=\"muted\">The instance is sealed — vault and secret operations are blocked until it is unsealed via <code>/v1/sys/unseal</code>.</p>");
    }
    assert(no_start(""@, seal_button())) by {
        reveal_with_fuel(departs_from, 2);
        reveal_strlit("<button type=\"submit\" class=\"btn-danger\">Seal instance</button>");
        reveal_strlit("");
    }
    assert(no_start("<p style=\"margin-top:14px\"><a href=\"/gui/users\">Manage users &rarr;</a> &nbsp;·&nbsp; <a href=\"/gui/audit\">Audit log &rarr;</a></p>"@, seal_button())) by {
        reveal_with_fuel(departs_from, 3);
        reveal_strlit("<button type=\"submit\" class=\"btn-danger\">Seal instance</button>");
        reveal_strlit("<p style=\"margin-top:14px\"><a href=\"/gui/users\">Manage users &rarr;</a> &nbsp;·&nbsp; <a href=\"/gui/audit\">Audit log &rarr;</a></p>");
    }
    assert(no_start("</div><div class=\"card\"><div style=\"display:flex;justify-content:space-between;align-items:center\"><h2 style=\"margin:0\">Vaults</h2>"@, seal_button())) by {
        reveal_with_fuel(departs_from, 3);
        reveal_strlit("<button type=\"submit\" class=\"btn-danger\">Seal instance</button>");
        reveal_strlit("</div><div class=\"card\"><div style=\"display:flex;justify-content:space-between;align-items:center\"><h2 style=\"margin:0\">Vaults</h2>");
    }
    assert(no_start("<a href=\"/gui/vaults/new\"><button type=\"button\">New vault</button></a>"@, seal_button())) by {
        reveal_with_fuel(departs_from, 16);
        reveal_strlit("<button type=\"submit\" class=\"btn-danger\">Seal instance</button>");
        reveal_strlit("<a href=\"/gui/vaults/new\"><button type=\"button\">New vault</button></a>");
    }
    assert(no_start("</div>"@, seal_button())) by {
        reveal_with_fuel(departs_from, 3);
        reveal_strlit("<button type=\"submit\" class=\"btn-danger\">Seal instance</button>");
        reveal_strlit("</div>");
    }
    assert(no_start("<p class=\"muted\">No vaults yet.</p>"@, seal_button())) by {
        reveal_with_fuel(departs_from, 3);
        reveal_strlit("<button type=\"submit\" class=\"btn-danger\">Seal instance</button>");
        reveal_strlit("<p class=\"muted\">No vaults yet.</p>");
    }
    assert(no_start("<table><tr><th>Vault</th><th>Description</th></tr>"@, seal_button())) by {
        reveal_with_fuel(departs_from, 3);
        reveal_strlit("<button type=\"submit\" class=\"btn-danger\">Seal instance</button>");
        reveal_strlit("<table><tr><th>Vault</th><th>Description</th></tr>");
    }
    assert(no_start("</table>"@, seal_button())) by {
        reveal_with_fuel(departs_from, 3);
        reveal_strlit("<button type=\"submit\" class=\"btn-danger\">Seal instance</button>");
        reveal_strlit("</table>");
    }
    assert(no_start("<span class=\"pill ok\">master</span>"@, seal_button())) by {
        reveal_with_fuel(departs_from, 3);
        reveal_strlit("<button type=\"submit\" class=\"btn-danger\">Seal instance</button>");
        reveal_strlit("<span class=\"pill ok\">master</span>");
    }
    assert(no_start("<span class=\"pill warn\">user</span>"@, seal_button())) by {
        reveal_with_fuel(departs_from, 3);
        reveal_strlit("<button type=\"submit\" class=\"btn-danger\">Seal instance</button>");
        reveal_strlit("<span class=\"pill warn\">user</span>");
    }
    assert(no_start("<span class=\"pill warn\">sealed</span>"@, seal_button())) by {
        reveal_with_fuel(departs_from, 3);
        reveal_strlit("<button type=\"submit\" class=\"btn-danger\">Seal instance</button>");
        reveal_strlit("<span class=\"pill warn\">sealed</span>");
    }
    assert(no_start("<span class=\"pill ok\">unsealed</span>"@, seal_button())) by {
        reveal_with_fuel(departs_from, 3);
        reveal_strlit("<button type=\"submit\" class=\"btn-danger\">Seal instance</button>");
        reveal_strlit("<span class=\"pill ok\">unsealed</span>");
    }
}

proof fn lemma_dashboard_pieces_new_vault_button()
    ensures
        no_start("Dashboard"@, new_vault_button()),
        no_start("<div class=\"card\"><h1>Dashboard</h1><h2>Signed in as "@, new_vault_button()),
        no_start(" "@, new_vault_button()),
        no_start("</h2><div class=\"grid\"><div class=\"kv\"><div class=\"k\">Instance</div><div class=\"v\">"@, new_vault_button()),
        no_start("</div></div><div class=\"kv\"><div class=\"k\">Your vaults</div><div class=\"v\">"@, new_vault_button()),
        no_start("</div></div></div>"@, new_vault_button()),
        no_start("<p class=\"muted\">The instance is sealed — vault and secret operations are blocked until it is unsealed via <code>/v1/sys/unseal</code>.</p>"@, new_vault_button()),
        no_start(""@, new_vault_button()),
        no_start("<p style=\"margin-top:14px\"><a href=\"/gui/users\">Manage users &rarr;</a> &nbsp;·&nbsp; <a href=\"/gui/audit\">Audit log &rarr;</a></p>"@, new_vault_button()),
        no_start("<form method=\"post\" action=\"/gui/seal\" style=\"margin-top:10px\" onsubmit=\"return confirm('Seal the instance? All secret access stops until it is unsealed again.');\"><button type=\"submit\" class=\"btn-danger\">Seal instance</button><span class=\"muted\"> — drops the master key from memory.</span></form>"@, new_vault_button()),
        no_start("</div><div class=\"card\"><div style=\"display:flex;justify-content:space-between;align-items:center\"><h2 style=\"margin:0\">Vaults</h2>"@, new_vault_button()),
        no_start("</div>"@, new_vault_button()),
        no_start("<p class=\"muted\">No vaults yet.</p>"@, new_vault_button()),
        no_start("<table><tr><th>Vault</th><th>Description</th></tr>"@, new_vault_button()),
        no_start("</table>"@, new_vault_button()),
        no_start("<span class=\"pill ok\">master</span>"@, new_vault_button()),
        no_start("<span class=\"pill warn\">user</span>"@, new_vault_button()),
        no_start("<span class=\"pill warn\">sealed</span>"@, new_vault_button()),
        no_start("<span class=\"pill ok\">unsealed</span>"@, new_vault_button()),
{
    assert(no_start("Dashboard"@, new_vault_button())) by {
        reveal_with_fuel(departs_from, 2);
        reveal_strlit("<button type=\"button\">New vault</button>");
        reveal_strlit("Dashboard");
    }
    assert(no_start("<div class=\"card\"><h1>Dashboard</h1><h2>Signed in as "@, new_vault_button())) by {
        reveal_with_fuel(departs_from, 3);
        reveal_strlit("<button type=\"button\">New vault</button>");
        reveal_strlit("<div class=\"card\"><h1>Dashboard</h1><h2>Signed in as ");
    }
    assert(no_start(" "@, new_vault_button())) by {
        reveal_with_fuel(departs_from, 2);
        reveal_strlit("<button type=\"button\">New vault</button>");
        reveal_strlit(" ");
    }
    assert(no_start("</h2><div class=\"grid\"><div class=\"kv\"><div class=\"k\">Instance</div><div class=\"v\">"@, new_vault_button())) by {
        reveal_with_fuel(departs_from, 3);
        reveal_strlit("<button type=\"button\">New vault</button>");
        reveal_strlit("</h2><div class=\"grid\"><div class=\"kv\"><div class=\"k\">Instance</div><div class=\"v\">");
    }
    assert(no_start("</div></div><div class=\"kv\"><div class=\"k\">Your vaults</div><div class=\"v\">"@, new_vault_button())) by {
        reveal_with_fuel(departs_from, 3);
        reveal_strlit("<button type=\"button\">New vault</button>");
        reveal_strlit("</div></div><div class=\"kv\"><div class=\"k\">Your vaults</div><div class=\"v\">");
    }
    assert(no_start("</div></div></div>"@, new_vault_button())) by {
        reveal_with_fuel(departs_from, 3);
        reveal_strlit("<button type=\"button\">New vault</button>");
        reveal_strlit("</div></div></div>");
    }
    assert(no_start("<p class=\"muted\">The instance is sealed — vault and secret operations are blocked until it is unsealed via <code>/v1/sys/unseal</code>.</p>"@, new_vault_button())) by {
        reveal_with_fuel(departs_from, 3);
        reveal_strlit("<button type=\"button\">New vault</button>");
        reveal_strlit("<p class=\"muted\">The instance is sealed — vault and secret operations are blocked until it is unsealed via <code>/v1/sys/unseal</code>.</p>");
    }
    assert(no_start(""@, new_vault_button())) by {
        reveal_with_fuel(departs_from, 2);
        reveal_strlit("<button type=\"button\">New vault</button>");
        reveal_strlit("");
    }
    assert(no_start("<p style=\"margin-top:14px\"><a href=\"/gui/users\">Manage users &rarr;</a> &nbsp;·&nbsp; <a href=\"/gui/audit\">Audit log &rarr;</a></p>"@, new_vault_button())) by {
        reveal_with_fuel(departs_from, 3);
        reveal_strlit("<button type=\"button\">New vault</button>");
        reveal_strlit("<p style=\"margin-top:14px\"><a href=\"/gui/users\">Manage users &rarr;</a> &nbsp;·&nbsp; <a href=\"/gui/audit\">Audit log &rarr;</a></p>");
    }
    assert(no_start("<form method=\"post\" action=\"/gui/seal\" style=\"margin-top:10px\" onsubmit=\"return confirm('Seal the instance? All secret access stops until it is unsealed again.');\"><button type=\"submit\" class=\"btn-danger\">Seal instance</button><span class=\"muted\"> — drops the master key from memory.</span></form>"@, new_vault_button())) by {
        reveal_with_fuel(departs_from, 16);
        reveal_strlit("<button type=\"button\">New vault</button>");
        reveal_strlit("<form method=\"post\" action=\"/gui/seal\" style=\"margin-top:10px\" onsubmit=\"return confirm('Seal the instance? All secret access stops until it is unsealed again.');\"><button type=\"submit\" class=\"btn-danger\">Seal instance</button><span class=\"muted\"> — drops the master key from memory.</span></form>");
    }
    assert(no_start("</div><div class=\"card\"><div style=\"display:flex;justify-content:space-between;align-items:center\"><h2 style=\"margin:0\">Vaults</h2>"@, new_vault_button())) by {
        reveal_with_fuel(departs_from, 3);
        reveal_strlit("<button type=\"button\">New vault</button>");
        reveal_strlit("</div><div class=\"card\"><div style=\"display:flex;justify-content:space-between;align-items:center\"><h2 style=\"margin:0\">Vaults</h2>");
    }
    assert(no_start("</div>"@, new_vault_button())) by {
        reveal_with_fuel(departs_from, 3);
        reveal_strlit("<button type=\"button\">New vault</button>");
        reveal_strlit("</div>");
    }
    assert(no_start("<p class=\"muted\">No vaults yet.</p>"@, new_vault_button())) by {
        reveal_with_fuel(departs_from, 3);
        reveal_strlit("<button type=\"button\">New vault</button>");
        reveal_strlit("<p class=\"muted\">No vaults yet.</p>");
    }
    assert(no_start("<table><tr><th>Vault</th><th>Description</th></tr>"@, new_vault_button())) by {
        reveal_with_fuel(departs_from, 3);
        reveal_strlit("<button type=\"button\">New vault</button>");
        reveal_strlit("<table><tr><th>Vault</th><th>Description</th></tr>");
    }
    assert(no_start("</table>"@, new_vault_button())) by {
        reveal_with_fuel(departs_from, 3);
        reveal_strlit("<button type=\"button\">New vault</button>");
        reveal_strlit("</table>");
    }
    assert(no_start("<span class=\"pill ok\">master</span>"@, new_vault_button())) by {
        reveal_with_fuel(departs_from, 3);
        reveal_strlit("<button type=\"button\">New vault</button>");
        reveal_strlit("<span class=\"pill ok\">master</span>");
    }
    assert(no_start("<span class=\"pill warn\">user</span>"@, new_vault_button())) by {
        reveal_with_fuel(departs_from, 3);
        reveal_strlit("<button type=\"button\">New vault</button>");
        reveal_strlit("<span class=\"pill warn\">user</span>");
    }
    assert(no_start("<span class=\"pill warn\">sealed</span>"@, new_vault_button())) by {
        reveal_with_fuel(departs_from, 3);
        reveal_strlit("<button type=\"button\">New vault</button>");
        reveal_strlit("<span class=\"pill warn\">sealed</span>");
    }
    assert(no_start("<span class=\"pill ok\">unsealed</span>"@, new_vault_button())) by {
        reveal_with_fuel(departs_from, 3);
        reveal_strlit("<button type=\"button\">New vault</button>");
        reveal_strlit("<span class=\"pill ok\">unsealed</span>");
    }
}

proof fn lemma_vault_row_pieces_sealed_note()
    ensures
        no_start("<tr><td><a href=\"/gui/vaults/"@, sealed_note()),
        no_start("\">"@, sealed_note()),
        no_start("</a></td><td class=\"muted\">"@, sealed_note()),
        no_start(""@, sealed_note()),
        no_start("</td></tr>"@, sealed_note()),
{
    assert(no_start("<tr><td><a href=\"/gui/vaults/"@, sealed_note())) by {
        reveal_with_fuel(departs_from, 3);
        reveal_strlit("<p class=\"muted\">The instance is sealed — vault and secret operations are blocked until it is unsealed via <code>/v1/sys/unseal</code>.</p>");
        reveal_strlit("<tr><td><a href=\"/gui/vaults/");
    }
    assert(no_start("\">"@, sealed_note())) by {
        reveal_with_fuel(departs_from, 2);
        reveal_strlit("<p class=\"muted\">The instance is sealed — vault and secret operations are blocked until it is unsealed via <code>/v1/sys/unseal</code>.</p>");
        reveal_strlit("\">");
    }
    assert(no_start("</a></td><td class=\"muted\">"@, sealed_note())) by {
        reveal_with_fuel(departs_from, 3);
        reveal_strlit("<p class=\"muted\">The instance is sealed — vault and secret operations are blocked until it is unsealed via <code>/v1/sys/unseal</code>.</p>");
        reveal_strlit("</a></td><td class=\"muted\">");
    }
    assert(no_start(""@, sealed_note())) by {
        reveal_with_fuel(departs_from, 2);
        reveal_strlit("<p class=\"muted\">The instance is sealed — vault and secret operations are blocked until it is unsealed via <code>/v1/sys/unseal</code>.</p>");
        reveal_strlit("");
    }
    assert(no_start("</td></tr>"@, sealed_note())) by {
        reveal_with_fuel(departs_from, 3);
        reveal_strlit("<p class=\"muted\">The instance is sealed — vault and secret operations are blocked until it is unsealed via <code>/v1/sys/unseal</code>.</p>");
        reveal_strlit("</td></tr>");
    }
}

proof fn lemma_vault_row_pieces_manage_users_link()
    ensures
        no_start("<tr><td><a href=\"/gui/vaults/"@, manage_users_link()),
        no_start("\">"@, manage_users_link()),
        no_start("</a></td><td class=\"muted\">"@, manage_users_link()),
        no_start(""@, manage_users_link()),
        no_start("</td></tr>"@, manage_users_link()),
{
    assert(no_start("<tr><td><a href=\"/gui/vaults/"@, manage_users_link())) by {
        reveal_with_fuel(departs_from, 16);
        reveal_strlit("<a href=\"/gui/users\">Manage users &rarr;</a>");
        reveal_strlit("<tr><td><a href=\"/gui/vaults/");
    }
    assert(no_start("\">"@, manage_users_link())) by {
        reveal_with_fuel(departs_from, 2);
        reveal_strlit("<a href=\"/gui/users\">Manage users &rarr;</a>");
        reveal_strlit("\">");
    }
    assert(no_start("</a></td><td class=\"muted\">"@, manage_users_link())) by {
        reveal_with_fuel(departs_from, 3);
        reveal_strlit("<a href=\"/gui/users\">Manage users &rarr;</a>");
        reveal_strlit("</a></td><td class=\"muted\">");
    }
    assert(no_start(""@, manage_users_link())) by {
        reveal_with_fuel(departs_from, 2);
        reveal_strlit("<a href=\"/gui/users\">Manage users &rarr;</a>");
        reveal_strlit("");
    }
    assert(no_start("</td></tr>"@, manage_users_link())) by {
        reveal_with_fuel(departs_from, 3);
        reveal_strlit("<a href=\"/gui/users\">Manage users &rarr;</a>");
        reveal_strlit("</td></tr>");
    }
}

proof fn lemma_vault_row_pieces_audit_log_link()
    ensures
        no_start("<tr><td><a href=\"/gui/vaults/"@, audit_log_link()),
        no_start("\">"@, audit_log_link()),
        no_start("</a></td><td class=\"muted\">"@, audit_log_link()),
        no_start(""@, audit_log_link()),
        no_start("</td></tr>"@, audit_log_link()),
{
    assert(no_start("<tr><td><a href=\"/gui/vaults/"@, audit_log_link())) by {
        reveal_with_fuel(departs_from, 16);
        reveal_strlit("<a href=\"/gui/audit\">Audit log &rarr;</a>");
        reveal_strlit("<tr><td><a href=\"/gui/vaults/");
    }
    assert(no_start("\">"@, audit_log_link())) by {
        reveal_with_fuel(departs_from, 2);
        reveal_strlit("<a href=\"/gui/audit\">Audit log &rarr;</a>");
        reveal_strlit("\">");
    }
    assert(no_start("</a></td><td class=\"muted\">"@, audit_log_link())) by {
        reveal_with_fuel(departs_from, 3);
        reveal_strlit("<a href=\"/gui/audit\">Audit log &rarr;</a>");
        reveal_strlit("</a></td><td class=\"muted\">");
    }
    assert(no_start(""@, audit_log_link())) by {
        reveal_with_fuel(departs_from, 2);
        reveal_strlit("<a href=\"/gui/audit\">Audit log &rarr;</a>");
        reveal_strlit("");
    }
    assert(no_start("</td></tr>"@, audit_log_link())) by {
        reveal_with_fuel(departs_from, 3);
        reveal_strlit("<a href=\"/gui/audit\">Audit log &rarr;</a>");
        reveal_strlit("</td></tr>");
    }
}

proof fn lemma_vault_row_pieces_seal_button()
    ensures
        no_start("<tr><td><a href=\"/gui/vaults/"@, seal_button()),
        no_start("\">"@, seal_button()),
        no_start("</a></td><td class=\"muted\">"@, seal_button()),
        no_start(""@, seal_button()),
        no_start("</td></tr>"@, seal_button()),
{
    assert(no_start("<tr><td><a href=\"/gui/vaults/"@, seal_button())) by {
        reveal_with_fuel(departs_from, 3);
        reveal_strlit("<button type=\"submit\" class=\"btn-danger\">Seal instance</button>");
        reveal_strlit("<tr><td><a href=\"/gui/vaults/");
    }
    assert(no_start("\">"@, seal_button())) by {
        reveal_with_fuel(departs_from, 2);
        reveal_strlit("<button type=\"submit\" class=\"btn-danger\">Seal instance</button>");
        reveal_strlit("\">");
    }
    assert(no_start("</a></td><td class=\"muted\">"@, seal_button())) by {
        reveal_with_fuel(departs_from, 3);
        reveal_strlit("<button type=\"submit\" class=\"btn-danger\">Seal instance</button>");
        reveal_strlit("</a></td><td class=\"muted\">");
    }
    assert(no_start(""@, seal_button())) by {
        reveal_with_fuel(departs_from, 2);
        reveal_strlit("<button type=\"submit\" class=\"btn-danger\">Seal instance</button>");
        reveal_strlit("");
    }
    assert(no_start("</td></tr>"@, seal_button())) by {
        reveal_with_fuel(departs_from, 3);
        reveal_strlit("<button type=\"submit\" class=\"btn-danger\">Seal instance</button>");
        reveal_strlit("</td></tr>");
    }
}

proof fn lemma_vault_row_pieces_new_vault_button()
    ensures
        no_start("<tr><td><a href=\"/gui/vaults/"@, new_vault_button()),
        no_start("\">"@, new_vault_button()),
        no_start("</a></td><td class=\"muted\">"@, new_vault_button()),
        no_start(""@, new_vault_button()),
        no_start("</td></tr>"@, new_vault_button()),
{
    assert(no_start("<tr><td><a href=\"/gui/vaults/"@, new_vault_button())) by {
        reveal_with_fuel(departs_from, 3);
        reveal_strlit("<button type=\"button\">New vault</button>");
        reveal_strlit("<tr><td><a href=\"/gui/vaults/");
    }
    assert(no_start("\">"@, new_vault_button())) by {
        reveal_with_fuel(departs_from, 2);
        reveal_strlit("<button type=\"button\">New vault</button>");
        reveal_strlit("\">");
    }
    assert(no_start("</a></td><td class=\"muted\">"@, new_vault_button())) by {
        reveal_with_fuel(departs_from, 3);
        reveal_strlit("<button type=\"button\">New vault</button>");
        reveal_strlit("</a></td><td class=\"muted\">");
    }
    assert(no_start(""@, new_vault_button())) by {
        reveal_with_fuel(departs_from, 2);
        reveal_strlit("<button type=\"button\">New vault</button>");
        reveal_strlit("");
    }
    assert(no_start("</td></tr>"@, new_vault_button())) by {
        reveal_with_fuel(departs_from, 3);
        reveal_strlit("<button type=\"button\">New vault</button>");
        reveal_strlit("</td></tr>");
    }
}

proof fn lemma_vault_detail_pieces_add_secret_button()
    ensures
        no_start("<p><a href=\"/gui/\">&larr; Dashboard</a></p>"@, add_secret_button()),
        no_start("<div class=\"card\"><div style=\"display:flex;justify-content:space-between;align-items:center\"><h1 style=\"margin:0\">"@, add_secret_button()),
        no_start("</h1>"@, add_secret_button()),
        no_start("<a href=\"/gui/vaults/"@, add_secret_button()),
        no_start("/settings\"><button type=\"button\" class=\"btn-neutral\">Settings</button></a>"@, add_secret_button()),
        no_start("</div>"@, add_secret_button()),
        no_start("<p class=\"muted\">"@, add_secret_button()),
        no_start("</p>"@, add_secret_button()),
        no_start("<div class=\"card\"><div style=\"display:flex;justify-content:space-between;align-items:center\"><h2 style=\"margin:0\">Secrets</h2>"@, add_secret_button()),
        no_start("/approles\"><button type=\"button\" class=\"btn-neutral\">AppRoles</button></a> <a href=\"/gui/vaults/"@, add_secret_button()),
        no_start("/tokens\"><button type=\"button\" class=\"btn-neutral\">Tokens</button></a> <a href=\"/gui/vaults/"@, add_secret_button()),
        no_start("<p class=\"muted\">No secrets yet.</p>"@, add_secret_button()),
        no_start("<table><tr><th>Path</th><th>Version</th><th></th></tr>"@, add_secret_button()),
        no_start("</table>"@, add_secret_button()),
        no_start("<div class=\"card\"><h2>Secrets</h2><p class=\"muted\">You manage access to this vault but cannot read its secret contents.</p></div>"@, add_secret_button()),
{
    assert(no_start("<p><a href=\"/gui/\">&larr; Dashboard</a></p>"@, add_secret_button())) by {
        reveal_with_fuel(departs_from, 3);
        reveal_strlit("<button type=\"button\">Add secret</button>");
        reveal_strlit("<p><a href=\"/gui/\">&larr; Dashboard</a></p>");
    }
    assert(no_start("<div class=\"card\"><div style=\"display:flex;justify-content:space-between;align-items:center\"><h1 style=\"margin:0\">"@, add_secret_button())) by {
        reveal_with_fuel(departs_from, 3);
        reveal_strlit("<button type=\"button\">Add secret</button>");
        reveal_strlit("<div class=\"card\"><div style=\"display:flex;justify-content:space-between;align-items:center\"><h1 style=\"margin:0\">");
    }
    assert(no_start("</h1>"@, add_secret_button())) by {
        reveal_with_fuel(departs_from, 3);
        reveal_strlit("<button type=\"button\">Add secret</button>");
        reveal_strlit("</h1>");
    }
    assert(no_start("<a href=\"/gui/vaults/"@, add_secret_button())) by {
        reveal_with_fuel(departs_from, 3);
        reveal_strlit("<button type=\"button\">Add secret</button>");
        reveal_strlit("<a href=\"/gui/vaults/");
    }
    assert(no_start("/settings\"><button type=\"button\" class=\"btn-neutral\">Settings</button></a>"@, add_secret_button())) by {
        reveal_with_fuel(departs_from, 23);
        reveal_strlit("<button type=\"button\">Add secret</button>");
        reveal_strlit("/settings\"><button type=\"button\" class=\"btn-neutral\">Settings</button></a>");
    }
    assert(no_start("</div>"@, add_secret_button())) by {
        reveal_with_fuel(departs_from, 3);
        reveal_strlit("<button type=\"button\">Add secret</button>");
        reveal_strlit("</div>");
    }
    assert(no_start("<p class=\"muted\">"@, add_secret_button())) by {
        reveal_with_fuel(departs_from, 3);
        reveal_strlit("<button type=\"button\">Add secret</button>");
        reveal_strlit("<p class=\"muted\">");
    }
    assert(no_start("</p>"@, add_secret_button())) by {
        reveal_with_fuel(departs_from, 3);
        reveal_strlit("<button type=\"button\">Add secret</button>");
        reveal_strlit("</p>");
    }
    assert(no_start("<div class=\"card\"><div style=\"display:flex;justify-content:space-between;align-items:center\"><h2 style=\"margin:0\">Secrets</h2>"@, add_secret_button())) by {
        reveal_with_fuel(departs_from, 3);
        reveal_strlit("<button type=\"button\">Add secret</button>");
        reveal_strlit("<div class=\"card\"><div style=\"display:flex;justify-content:space-between;align-items:center\"><h2 style=\"margin:0\">Secrets</h2>");
    }
    assert(no_start("/approles\"><button type=\"button\" class=\"btn-neutral\">AppRoles</button></a> <a href=\"/gui/vaults/"@, add_secret_button())) by {
        reveal_with_fuel(departs_from, 23);
        reveal_strlit("<button type=\"button\">Add secret</button>");
        reveal_strlit("/approles\"><button type=\"button\" class=\"btn-neutral\">AppRoles</button></a> <a href=\"/gui/vaults/");
    }
    assert(no_start("/tokens\"><button type=\"button\" class=\"btn-neutral\">Tokens</button></a> <a href=\"/gui/vaults/"@, add_secret_button())) by {
        reveal_with_fuel(departs_from, 23);
        reveal_strlit("<button type=\"button\">Add secret</button>");
        reveal_strlit("/tokens\"><button type=\"button\" class=\"btn-neutral\">Tokens</button></a> <a href=\"/gui/vaults/");
    }
    assert(no_start("<p class=\"muted\">No secrets yet.</p>"@, add_secret_button())) by {
        reveal_with_fuel(departs_from, 3);
        reveal_strlit("<button type=\"button\">Add secret</button>");
        reveal_strlit("<p class=\"muted\">No secrets yet.</p>");
    }
    assert(no_start("<table><tr><th>Path</th><th>Version</th><th></th></tr>"@, add_secret_button())) by {
        reveal_with_fuel(departs_from, 3);
        reveal_strlit("<button type=\"button\">Add secret</button>");
        reveal_strlit("<table><tr><th>Path</th><th>Version</th><th></th></tr>");
    }
    assert(no_start("</table>"@, add_secret_button())) by {
        reveal_with_fuel(departs_from, 3);
        reveal_strlit("<button type=\"button\">Add secret</button>");
        reveal_strlit("</table>");
    }
    assert(no_start("<div class=\"card\"><h2>Secrets</h2><p class=\"muted\">You manage access to this vault but cannot read its secret contents.</p></div>"@, add_secret_button())) by {
        reveal_with_fuel(departs_from, 3);
        reveal_strlit("<button type=\"button\">Add secret</button>");
        reveal_strlit("<div class=\"card\"><h2>Secrets</h2><p class=\"muted\">You manage access to this vault but cannot read its secret contents.</p></div>");
    }
}

proof fn lemma_vault_detail_pieces_tokens_button()
    ensures
        no_start("<p><a href=\"/gui/\">&larr; Dashboard</a></p>"@, tokens_button()),
        no_start("<div class=\"card\"><div style=\"display:flex;justify-content:space-between;align-items:center\"><h1 style=\"margin:0\">"@, tokens_button()),
        no_start("</h1>"@, tokens_button()),
        no_start("<a href=\"/gui/vaults/"@, tokens_button()),
        no_start("/settings\"><button type=\"button\" class=\"btn-neutral\">Settings</button></a>"@, tokens_button()),
        no_start("</div>"@, tokens_button()),
        no_start("<p class=\"muted\">"@, tokens_button()),
        no_start("</p>"@, tokens_button()),
        no_start("<div class=\"card\"><div style=\"display:flex;justify-content:space-between;align-items:center\"><h2 style=\"margin:0\">Secrets</h2>"@, tokens_button()),
        no_start("/approles\"><button type=\"button\" class=\"btn-neutral\">AppRoles</button></a> <a href=\"/gui/vaults/"@, tokens_button()),
        no_start("/secret/new\"><button type=\"button\">Add secret</button></a>"@, tokens_button()),
        no_start("<p class=\"muted\">No secrets yet.</p>"@, tokens_button()),
        no_start("<table><tr><th>Path</th><th>Version</th><th></th></tr>"@, tokens_button()),
        no_start("</table>"@, tokens_button()),
        no_start("<div class=\"card\"><h2>Secrets</h2><p class=\"muted\">You manage access to this vault but cannot read its secret contents.</p></div>"@, tokens_button()),
{
    assert(no_start("<p><a href=\"/gui/\">&larr; Dashboard</a></p>"@, tokens_button())) by {
        reveal_with_fuel(departs_from, 3);
        reveal_strlit("<button type=\"button\" class=\"btn-neutral\">Tokens</button>");
        reveal_strlit("<p><a href=\"/gui/\">&larr; Dashboard</a></p>");
    }
    assert(no_start("<div class=\"card\"><div style=\"display:flex;justify-content:space-between;align-items:center\"><h1 style=\"margin:0\">"@, tokens_button())) by {
        reveal_with_fuel(departs_from, 3);
        reveal_strlit("<button type=\"button\" class=\"btn-neutral\">Tokens</button>");
        reveal_strlit("<div class=\"card\"><div style=\"display:flex;justify-content:space-between;align-items:center\"><h1 style=\"margin:0\">");
    }
    assert(no_start("</h1>"@, tokens_button())) by {
        reveal_with_fuel(departs_from, 3);
        reveal_strlit("<button type=\"button\" class=\"btn-neutral\">Tokens</button>");
        reveal_strlit("</h1>");
    }
    assert(no_start("<a href=\"/gui/vaults/"@, tokens_button())) by {
        reveal_with_fuel(departs_from, 3);
        reveal_strlit("<button type=\"button\" class=\"btn-neutral\">Tokens</button>");
        reveal_strlit("<a href=\"/gui/vaults/");
    }
    assert(no_start("/settings\"><button type=\"button\" class=\"btn-neutral\">Settings</button></a>"@, tokens_button())) by {
        reveal_with_fuel(departs_from, 44);
        reveal_strlit("<button type=\"button\" class=\"btn-neutral\">Tokens</button>");
        reveal_strlit("/settings\"><button type=\"button\" class=\"btn-neutral\">Settings</button></a>");
    }
    assert(no_start("</div>"@, tokens_button())) by {
        reveal_with_fuel(departs_from, 3);
        reveal_strlit("<button type=\"button\" class=\"btn-neutral\">Tokens</button>");
        reveal_strlit("</div>");
    }
    assert(no_start("<p class=\"muted\">"@, tokens_button())) by {
        reveal_with_fuel(departs_from, 3);
        reveal_strlit("<button type=\"button\" class=\"btn-neutral\">Tokens</button>");
        reveal_strlit("<p class=\"muted\">");
    }
    assert(no_start("</p>"@, tokens_button())) by {
        reveal_with_fuel(departs_from, 3);
        reveal_strlit("<button type=\"button\" class=\"btn-neutral\">Tokens</button>");
        reveal_strlit("</p>");
    }
    assert(no_start("<div class=\"card\"><div style=\"display:flex;justify-content:space-between;align-items:center\"><h2 style=\"margin:0\">Secrets</h2>"@, tokens_button())) by {
        reveal_with_fuel(departs_from, 3);
        reveal_strlit("<button type=\"button\" class=\"btn-neutral\">Tokens</button>");
        reveal_strlit("<div class=\"card\"><div style=\"display:flex;justify-content:space-between;align-items:center\"><h2 style=\"margin:0\">Secrets</h2>");
    }
    assert(no_start("/approles\"><button type=\"button\" class=\"btn-neutral\">AppRoles</button></a> <a href=\"/gui/vaults/"@, tokens_button())) by {
        reveal_with_fuel(departs_from, 44);
        reveal_strlit("<button type=\"button\" class=\"btn-neutral\">Tokens</button>");
        reveal_strlit("/approles\"><button type=\"button\" class=\"btn-neutral\">AppRoles</button></a> <a href=\"/gui/vaults/");
    }
    assert(no_start("/secret/new\"><button type=\"button\">Add secret</button></a>"@, tokens_button())) by {
        reveal_with_fuel(departs_from, 23);
        reveal_strlit("<button type=\"button\" class=\"btn-neutral\">Tokens</button>");
        reveal_strlit("/secret/new\"><button type=\"button\">Add secret</button></a>");
    }
    assert(no_start("<p class=\"muted\">No secrets yet.</p>"@, tokens_button())) by {
        reveal_with_fuel(departs_from, 3);
        reveal_strlit("<button type=\"button\" class=\"btn-neutral\">Tokens</button>");
        reveal_strlit("<p class=\"muted\">No secrets yet.</p>");
    }
    assert(no_start("<table><tr><th>Path</th><th>Version</th><th></th></tr>"@, tokens_button())) by {
        reveal_with_fuel(departs_from, 3);
        reveal_strlit("<button type=\"button\" class=\"btn-neutral\">Tokens</button>");
        reveal_strlit("<table><tr><th>Path</th><th>Version</th><th></th></tr>");
    }
    assert(no_start("</table>"@, tokens_button())) by {
        reveal_with_fuel(departs_from, 3);
        reveal_strlit("<button type=\"button\" class=\"btn-neutral\">Tokens</button>");
        reveal_strlit("</table>");
    }
    assert(no_start("<div class=\"card\"><h2>Secrets</h2><p class=\"muted\">You manage access to this vault but cannot read its secret contents.</p></div>"@, tokens_button())) by {
        reveal_with_fuel(departs_from, 3);
        reveal_strlit("<button type=\"button\" class=\"btn-neutral\">Tokens</button>");
        reveal_strlit("<div class=\"card\"><h2>Secrets</h2><p class=\"muted\">You manage access to this vault but cannot read its secret contents.</p></div>");
    }
}

proof fn lemma_vault_detail_pieces_approles_button()
    ensures
        no_start("<p><a href=\"/gui/\">&larr; Dashboard</a></p>"@, approles_button()),
        no_start("<div class=\"card\"><div style=\"display:flex;justify-content:space-between;align-items:center\"><h1 style=\"margin:0\">"@, approles_button()),
        no_start("</h1>"@, approles_button()),
        no_start("<a href=\"/gui/vaults/"@, approles_button()),
        no_start("/settings\"><button type=\"button\" class=\"btn-neutral\">Settings</button></a>"@, approles_button()),
        no_start("</div>"@, approles_button()),
        no_start("<p class=\"muted\">"@, approles_button()),
        no_start("</p>"@, approles_button()),
        no_start("<div class=\"card\"><div style=\"display:flex;justify-content:space-between;align-items:center\"><h2 style=\"margin:0\">Secrets</h2>"@, approles_button()),
        no_start("/tokens\"><button type=\"button\" class=\"btn-neutral\">Tokens</button></a> <a href=\"/gui/vaults/"@, approles_button()),
        no_start("/secret/new\"><button type=\"button\">Add secret</button></a>"@, approles_button()),
        no_start("<p class=\"muted\">No secrets yet.</p>"@, approles_button()),
        no_start("<table><tr><th>Path</th><th>Version</th><th></th></tr>"@, approles_button()),
        no_start("</table>"@, approles_button()),
        no_start("<div class=\"card\"><h2>Secrets</h2><p class=\"muted\">You manage access to this vault but cannot read its secret contents.</p></div>"@, approles_button()),
{
    assert(no_start("<p><a href=\"/gui/\">&larr; Dashboard</a></p>"@, approles_button())) by {
        reveal_with_fuel(departs_from, 3);
        reveal_strlit("<button type=\"button\" class=\"btn-neutral\">AppRoles</button>");
        reveal_strlit("<p><a href=\"/gui/\">&larr; Dashboard</a></p>");
    }
    assert(no_start("<div class=\"card\"><div style=\"display:flex;justify-content:space-between;align-items:center\"><h1 style=\"margin:0\">"@, approles_button())) by {
        reveal_with_fuel(departs_from, 3);
        reveal_strlit("<button type=\"button\" class=\"btn-neutral\">AppRoles</button>");
        reveal_strlit("<div class=\"card\"><div style=\"display:flex;justify-content:space-between;align-items:center\"><h1 style=\"margin:0\">");
    }
    assert(no_start("</h1>"@, approles_button())) by {
        reveal_with_fuel(departs_from, 3);
        reveal_strlit("<button type=\"button\" class=\"btn-neutral\">AppRoles</button>");
        reveal_strlit("</h1>");
    }
    assert(no_start("<a href=\"/gui/vaults/"@, approles_button())) by {
        reveal_with_fuel(departs_from, 3);
        reveal_strlit("<button type=\"button\" class=\"btn-neutral\">AppRoles</button>");
        reveal_strlit("<a href=\"/gui/vaults/");
    }
    assert(no_start("/settings\"><button type=\"button\" class=\"btn-neutral\">Settings</button></a>"@, approles_button())) by {
        reveal_with_fuel(departs_from, 44);
        reveal_strlit("<button type=\"button\" class=\"btn-neutral\">AppRoles</button>");
        reveal_strlit("/settings\"><button type=\"button\" class=\"btn-neutral\">Settings</button></a>");
    }
    assert(no_start("</div>"@, approles_button())) by {
        reveal_with_fuel(departs_from, 3);
        reveal_strlit("<button type=\"button\" class=\"btn-neutral\">AppRoles</button>");
        reveal_strlit("</div>");
    }
    assert(no_start("<p class=\"muted\">"@, approles_button())) by {
        reveal_with_fuel(departs_from, 3);
        reveal_strlit("<button type=\"button\" class=\"btn-neutral\">AppRoles</button>");
        reveal_strlit("<p class=\"muted\">");
    }
    assert(no_start("</p>"@, approles_button())) by {
        reveal_with_fuel(departs_from, 3);
        reveal_strlit("<button type=\"button\" class=\"btn-neutral\">AppRoles</button>");
        reveal_strlit("</p>");
    }
    assert(no_start("<div class=\"card\"><div style=\"display:flex;justify-content:space-between;align-items:center\"><h2 style=\"margin:0\">Secrets</h2>"@, approles_button())) by {
        reveal_with_fuel(departs_from, 3);
        reveal_strlit("<button type=\"button\" class=\"btn-neutral\">AppRoles</button>");
        reveal_strlit("<div class=\"card\"><div style=\"display:flex;justify-content:space-between;align-items:center\"><h2 style=\"margin:0\">Secrets</h2>");
    }
    assert(no_start("/tokens\"><button type=\"button\" class=\"btn-neutral\">Tokens</button></a> <a href=\"/gui/vaults/"@, approles_button())) by {
        reveal_with_fuel(departs_from, 44);
        reveal_strlit("<button type=\"button\" class=\"btn-neutral\">AppRoles</button>");
        reveal_strlit("/tokens\"><button type=\"button\" class=\"btn-neutral\">Tokens</button></a> <a href=\"/gui/vaults/");
    }
    assert(no_start("/secret/new\"><button type=\"button\">Add secret</button></a>"@, approles_button())) by {
        reveal_with_fuel(departs_from, 23);
        reveal_strlit("<button type=\"button\" class=\"btn-neutral\">AppRoles</button>");
        reveal_strlit("/secret/new\"><button type=\"button\">Add secret</button></a>");
    }
    assert(no_start("<p class=\"muted\">No secrets yet.</p>"@, approles_button())) by {
        reveal_with_fuel(departs_from, 3);
        reveal_strlit("<button type=\"button\" class=\"btn-neutral\">AppRoles</button>");
        reveal_strlit("<p class=\"muted\">No secrets yet.</p>");
    }
    assert(no_start("<table><tr><th>Path</th><th>Version</th><th></th></tr>"@, approles_button())) by {
        reveal_with_fuel(departs_from, 3);
        reveal_strlit("<button type=\"button\" class=\"btn-neutral\">AppRoles</button>");
        reveal_strlit("<table><tr><th>Path</th><th>Version</th><th></th></tr>");
    }
    assert(no_start("</table>"@, approles_button())) by {
        reveal_with_fuel(departs_from, 3);
        reveal_strlit("<button type=\"button\" class=\"btn-neutral\">AppRoles</button>");
        reveal_strlit("</table>");
    }
    assert(no_start("<div class=\"card\"><h2>Secrets</h2><p class=\"muted\">You manage access to this vault but cannot read its secret contents.</p></div>"@, approles_button())) by {
        reveal_with_fuel(departs_from, 3);
        reveal_strlit("<button type=\"button\" class=\"btn-neutral\">AppRoles</button>");
        reveal_strlit("<div class=\"card\"><h2>Secrets</h2><p class=\"muted\">You manage access to this vault but cannot read its secret contents.</p></div>");
    }
}

proof fn lemma_vault_detail_pieces_settings_button()
    ensures
        no_start("<p><a href=\"/gui/\">&larr; Dashboard</a></p>"@, settings_button()),
        no_start("<div class=\"card\"><div style=\"display:flex;justify-content:space-between;align-items:center\"><h1 style=\"margin:0\">"@, settings_button()),
        no_start("</h1>"@, settings_button()),
        no_start("<a href=\"/gui/vaults/"@, settings_button()),
        no_start("</div>"@, settings_button()),
        no_start("<p class=\"muted\">"@, settings_button()),
        no_start("</p>"@, settings_button()),
        no_start("<div class=\"card\"><div style=\"display:flex;justify-content:space-between;align-items:center\"><h2 style=\"margin:0\">Secrets</h2>"@, settings_button()),
        no_start("/approles\"><button type=\"button\" class=\"btn-neutral\">AppRoles</button></a> <a href=\"/gui/vaults/"@, settings_button()),
        no_start("/tokens\"><button type=\"button\" class=\"btn-neutral\">Tokens</button></a> <a href=\"/gui/vaults/"@, settings_button()),
        no_start("/secret/new\"><button type=\"button\">Add secret</button></a>"@, settings_button()),
        no_start("<p class=\"muted\">No secrets yet.</p>"@, settings_button()),
        no_start("<table><tr><th>Path</th><th>Version</th><th></th></tr>"@, settings_button()),
        no_start("</table>"@, settings_button()),
        no_start("<div class=\"card\"><h2>Secrets</h2><p class=\"muted\">You manage access to this vault but cannot read its secret contents.</p></div>"@, settings_button()),
{
    assert(no_start("<p><a href=\"/gui/\">&larr; Dashboard</a></p>"@, settings_button())) by {
        reveal_with_fuel(departs_from, 3);
        reveal_strlit("<button type=\"button\" class=\"btn-neutral\">Settings</button>");
        reveal_strlit("<p><a href=\"/gui/\">&larr; Dashboard</a></p>");
    }
    assert(no_start("<div class=\"card\"><div style=\"display:flex;justify-content:space-between;align-items:center\"><h1 style=\"margin:0\">"@, settings_button())) by {
        reveal_with_fuel(departs_from, 3);
        reveal_strlit("<button type=\"button\" class=\"btn-neutral\">Settings</button>");
        reveal_strlit("<div class=\"card\"><div style=\"display:flex;justify-content:space-between;align-items:center\"><h1 style=\"margin:0\">");
    }
    assert(no_start("</h1>"@, settings_button())) by {
        reveal_with_fuel(departs_from, 3);
        reveal_strlit("<button type=\"button\" class=\"btn-neutral\">Settings</button>");
        reveal_strlit("</h1>");
    }
    assert(no_start("<a href=\"/gui/vaults/"@, settings_button())) by {
        reveal_with_fuel(departs_from, 3);
        reveal_strlit("<button type=\"button\" class=\"btn-neutral\">Settings</button>");
        reveal_strlit("<a href=\"/gui/vaults/");
    }
    assert(no_start("</div>"@, settings_button())) by {
        reveal_with_fuel(departs_from, 3);
        reveal_strlit("<button type=\"button\" class=\"btn-neutral\">Settings</button>");
        reveal_strlit("</div>");
    }
    assert(no_start("<p class=\"muted\">"@, settings_button())) by {
        reveal_with_fuel(departs_from, 3);
        reveal_strlit("<button type=\"button\" class=\"btn-neutral\">Settings</button>");
        reveal_strlit("<p class=\"muted\">");
    }
    assert(no_start("</p>"@, settings_button())) by {
        reveal_with_fuel(departs_from, 3);
        reveal_strlit("<button type=\"button\" class=\"btn-neutral\">Settings</button>");
        reveal_strlit("</p>");
    }
    assert(no_start("<div class=\"card\"><div style=\"display:flex;justify-content:space-between;align-items:center\"><h2 style=\"margin:0\">Secrets</h2>"@, settings_button())) by {
        reveal_with_fuel(departs_from, 3);
        reveal_strlit("<button type=\"button\" class=\"btn-neutral\">Settings</button>");
        reveal_strlit("<div class=\"card\"><div style=\"display:flex;justify-content:space-between;align-items:center\"><h2 style=\"margin:0\">Secrets</h2>");
    }
    assert(no_start("/approles\"><button type=\"button\" class=\"btn-neutral\">AppRoles</button></a> <a href=\"/gui/vaults/"@, settings_button())) by {
        reveal_with_fuel(departs_from, 44);
        reveal_strlit("<button type=\"button\" class=\"btn-neutral\">Settings</button>");
        reveal_strlit("/approles\"><button type=\"button\" class=\"btn-neutral\">AppRoles</button></a> <a href=\"/gui/vaults/");
    }
    assert(no_start("/tokens\"><button type=\"button\" class=\"btn-neutral\">Tokens</button></a> <a href=\"/gui/vaults/"@, settings_button())) by {
        reveal_with_fuel(departs_from, 44);
        reveal_strlit("<button type=\"button\" class=\"btn-neutral\">Settings</button>");
        reveal_strlit("/tokens\"><button type=\"button\" class=\"btn-neutral\">Tokens</button></a> <a href=\"/gui/vaults/");
    }
    assert(no_start("/secret/new\"><button type=\"button\">Add secret</button></a>"@, settings_button())) by {
        reveal_with_fuel(departs_from, 23);
        reveal_strlit("<button type=\"button\" class=\"btn-neutral\">Settings</button>");
        reveal_strlit("/secret/new\"><button type=\"button\">Add secret</button></a>");
    }
    assert(no_start("<p class=\"muted\">No secrets yet.</p>"@, settings_button())) by {
        reveal_with_fuel(departs_from, 3);
        reveal_strlit("<button type=\"button\" class=\"btn-neutral\">Settings</button>");
        reveal_strlit("<p class=\"muted\">No secrets yet.</p>");
    }
    assert(no_start("<table><tr><th>Path</th><th>Version</th><th></th></tr>"@, settings_button())) by {
        reveal_with_fuel(departs_from, 3);
        reveal_strlit("<button type=\"button\" class=\"btn-neutral\">Settings</button>");
        reveal_strlit("<table><tr><th>Path</th><th>Version</th><th></th></tr>");
    }
    assert(no_start("</table>"@, settings_button())) by {
        reveal_with_fuel(departs_from, 3);
        reveal_strlit("<button type=\"button\" class=\"btn-neutral\">Settings</button>");
        reveal_strlit("</table>");
    }
    assert(no_start("<div class=\"card\"><h2>Secrets</h2><p class=\"muted\">You manage access to this vault but cannot read its secret contents.</p></div>"@, settings_button())) by {
        reveal_with_fuel(departs_from, 3);
        reveal_strlit("<button type=\"button\" class=\"btn-neutral\">Settings</button>");
        reveal_strlit("<div class=\"card\"><h2>Secrets</h2><p class=\"muted\">You manage access to this vault but cannot read its secret contents.</p></div>");
    }
}

proof fn lemma_vault_detail_pieces_secret_list_heading()
    ensures
        no_start("<p><a href=\"/gui/\">&larr; Dashboard</a></p>"@, secret_list_heading()),
        no_start("<div class=\"card\"><div style=\"display:flex;justify-content:space-between;align-items:center\"><h1 style=\"margin:0\">"@, secret_list_heading()),
        no_start("</h1>"@, secret_list_heading()),
        no_start("<a href=\"/gui/vaults/"@, secret_list_heading()),
        no_start("/settings\"><button type=\"button\" class=\"btn-neutral\">Settings</button></a>"@, secret_list_heading()),
        no_start("</div>"@, secret_list_heading()),
        no_start("<p class=\"muted\">"@, secret_list_heading()),
        no_start("</p>"@, secret_list_heading()),
        no_start("/approles\"><button type=\"button\" class=\"btn-neutral\">AppRoles</button></a> <a href=\"/gui/vaults/"@, secret_list_heading()),
        no_start("/tokens\"><button type=\"button\" class=\"btn-neutral\">Tokens</button></a> <a href=\"/gui/vaults/"@, secret_list_heading()),
        no_start("/secret/new\"><button type=\"button\">Add secret</button></a>"@, secret_list_heading()),
        no_start("<p class=\"muted\">No secrets yet.</p>"@, secret_list_heading()),
        no_start("<table><tr><th>Path</th><th>Version</th><th></th></tr>"@, secret_list_heading()),
        no_start("</table>"@, secret_list_heading()),
        no_start("<div class=\"card\"><h2>Secrets</h2><p class=\"muted\">You manage access to this vault but cannot read its secret contents.</p></div>"@, secret_list_heading()),
{
    assert(no_start("<p><a href=\"/gui/\">&larr; Dashboard</a></p>"@, secret_list_heading())) by {
        reveal_with_fuel(departs_from, 3);
        reveal_strlit("<h2 style=\"margin:0\">Secrets</h2>");
        reveal_strlit("<p><a href=\"/gui/\">&larr; Dashboard</a></p>");
    }
    assert(no_start("<div class=\"card\"><div style=\"display:flex;justify-content:space-between;align-items:center\"><h1 style=\"margin:0\">"@, secret_list_heading())) by {
        reveal_with_fuel(departs_from, 4);
        reveal_strlit("<h2 style=\"margin:0\">Secrets</h2>");
        reveal_strlit("<div class=\"card\"><div style=\"display:flex;justify-content:space-between;align-items:center\"><h1 style=\"margin:0\">");
    }
    assert(no_start("</h1>"@, secret_list_heading())) by {
        reveal_with_fuel(departs_from, 3);
        reveal_strlit("<h2 style=\"margin:0\">Secrets</h2>");
        reveal_strlit("</h1>");
    }
    assert(no_start("<a href=\"/gui/vaults/"@, secret_list_heading())) by {
        reveal_with_fuel(departs_from, 3);
        reveal_strlit("<h2 style=\"margin:0\">Secrets</h2>");
        reveal_strlit("<a href=\"/gui/vaults/");
    }
    assert(no_start("/settings\"><button type=\"button\" class=\"btn-neutral\">Settings</button></a>"@, secret_list_heading())) by {
        reveal_with_fuel(departs_from, 3);
        reveal_strlit("<h2 style=\"margin:0\">Secrets</h2>");
        reveal_strlit("/settings\"><button type=\"button\" class=\"btn-neutral\">Settings</button></a>");
    }
    assert(no_start("</div>"@, secret_list_heading())) by {
        reveal_with_fuel(departs_from, 3);
        reveal_strlit("<h2 style=\"margin:0\">Secrets</h2>");
        reveal_strlit("</div>");
    }
    assert(no_start("<p class=\"muted\">"@, secret_list_heading())) by {
        reveal_with_fuel(departs_from, 3);
        reveal_strlit("<h2 style=\"margin:0\">Secrets</h2>");
        reveal_strlit("<p class=\"muted\">");
    }
    assert(no_start("</p>"@, secret_list_heading())) by {
        reveal_with_fuel(departs_from, 3);
        reveal_strlit("<h2 style=\"margin:0\">Secrets</h2>");
        reveal_strlit("</p>");
    }
    assert(no_start("/approles\"><button type=\"button\" class=\"btn-neutral\">AppRoles</button></a> <a href=\"/gui/vaults/"@, secret_list_heading())) by {
        reveal_with_fuel(departs_from, 3);
        reveal_strlit("<h2 style=\"margin:0\">Secrets</h2>");
        reveal_strlit("/approles\"><button type=\"button\" class=\"btn-neutral\">AppRoles</button></a> <a href=\"/gui/vaults/");
    }
    assert(no_start("/tokens\"><button type=\"button\" class=\"btn-neutral\">Tokens</button></a> <a href=\"/gui/vaults/"@, secret_list_heading())) by {
        reveal_with_fuel(departs_from, 3);
        reveal_strlit("<h2 style=\"margin:0\">Secrets</h2>");
        reveal_strlit("/tokens\"><button type=\"button\" class=\"btn-neutral\">Tokens</button></a> <a href=\"/gui/vaults/");
    }
    assert(no_start("/secret/new\"><button type=\"button\">Add secret</button></a>"@, secret_list_heading())) by {
        reveal_with_fuel(departs_from, 3);
        reveal_strlit("<h2 style=\"margin:0\">Secrets</h2>");
        reveal_strlit("/secret/new\"><button type=\"button\">Add secret</button></a>");
    }
    assert(no_start("<p class=\"muted\">No secrets yet.</p>"@, secret_list_heading())) by {
        reveal_with_fuel(departs_from, 3);
        reveal_strlit("<h2 style=\"margin:0\">Secrets</h2>");
        reveal_strlit("<p class=\"muted\">No secrets yet.</p>");
    }
    assert(no_start("<table><tr><th>Path</th><th>Version</th><th></th></tr>"@, secret_list_heading())) by {
        reveal_with_fuel(departs_from, 3);
        reveal_strlit("<h2 style=\"margin:0\">Secrets</h2>");
        reveal_strlit("<table><tr><th>Path</th><th>Version</th><th></th></tr>");
    }
    assert(no_start("</table>"@, secret_list_heading())) by {
        reveal_with_fuel(departs_from, 3);
        reveal_strlit("<h2 style=\"margin:0\">Secrets</h2>");
        reveal_strlit("</table>");
    }
    assert(no_start("<div class=\"card\"><h2>Secrets</h2><p class=\"muted\">You manage access to this vault but cannot read its secret contents.</p></div>"@, secret_list_heading())) by {
        reveal_with_fuel(departs_from, 5);
        reveal_strlit("<h2 style=\"margin:0\">Secrets</h2>");
        reveal_strlit("<div class=\"card\"><h2>Secrets</h2><p class=\"muted\">You manage access to this vault but cannot read its secret contents.</p></div>");
    }
}

proof fn lemma_vault_detail_pieces_no_read_note()
    ensures
        no_start("<p><a href=\"/gui/\">&larr; Dashboard</a></p>"@, no_read_note()),
        no_start("<div class=\"card\"><div style=\"display:flex;justify-content:space-between;align-items:center\"><h1 style=\"margin:0\">"@, no_read_note()),
        no_start("</h1>"@, no_read_note()),
        no_start("<a href=\"/gui/vaults/"@, no_read_note()),
        no_start("/settings\"><button type=\"button\" class=\"btn-neutral\">Settings</button></a>"@, no_read_note()),
        no_start("</div>"@, no_read_note()),
        no_start("<p class=\"muted\">"@, no_read_note()),
        no_start("</p>"@, no_read_note()),
        no_start("<div class=\"card\"><div style=\"display:flex;justify-content:space-between;align-items:center\"><h2 style=\"margin:0\">Secrets</h2>"@, no_read_note()),
        no_start("/approles\"><button type=\"button\" class=\"btn-neutral\">AppRoles</button></a> <a href=\"/gui/vaults/"@, no_read_note()),
        no_start("/tokens\"><button type=\"button\" class=\"btn-neutral\">Tokens</button></a> <a href=\"/gui/vaults/"@, no_read_note()),
        no_start("/secret/new\"><button type=\"button\">Add secret</button></a>"@, no_read_note()),
        no_start("<p class=\"muted\">No secrets yet.</p>"@, no_read_note()),
        no_start("<table><tr><th>Path</th><th>Version</th><th></th></tr>"@, no_read_note()),
        no_start("</table>"@, no_read_note()),
{
    assert(no_start("<p><a href=\"/gui/\">&larr; Dashboard</a></p>"@, no_read_note())) by {
        reveal_with_fuel(departs_from, 3);
        reveal_strlit("<h2>Secrets</h2><p class=\"muted\">You manage access to this vault but cannot read its secret contents.</p>");
        reveal_strlit("<p><a href=\"/gui/\">&larr; Dashboard</a></p>");
    }
    assert(no_start("<div class=\"card\"><div style=\"display:flex;justify-content:space-between;align-items:center\"><h1 style=\"margin:0\">"@, no_read_note())) by {
        reveal_with_fuel(departs_from, 4);
        reveal_strlit("<h2>Secrets</h2><p class=\"muted\">You manage access to this vault but cannot read its secret contents.</p>");
        reveal_strlit("<div class=\"card\"><div style=\"display:flex;justify-content:space-between;align-items:center\"><h1 style=\"margin:0\">");
    }
    assert(no_start("</h1>"@, no_read_note())) by {
        reveal_with_fuel(departs_from, 3);
        reveal_strlit("<h2>Secrets</h2><p class=\"muted\">You manage access to this vault but cannot read its secret contents.</p>");
        reveal_strlit("</h1>");
    }
    assert(no_start("<a href=\"/gui/vaults/"@, no_read_note())) by {
        reveal_with_fuel(departs_from, 3);
        reveal_strlit("<h2>Secrets</h2><p class=\"muted\">You manage access to this vault but cannot read its secret contents.</p>");
        reveal_strlit("<a href=\"/gui/vaults/");
    }
    assert(no_start("/settings\"><button type=\"button\" class=\"btn-neutral\">Settings</button></a>"@, no_read_note())) by {
        reveal_with_fuel(departs_from, 3);
        reveal_strlit("<h2>Secrets</h2><p class=\"muted\">You manage access to this vault but cannot read its secret contents.</p>");
        reveal_strlit("/settings\"><button type=\"button\" class=\"btn-neutral\">Settings</button></a>");
    }
    assert(no_start("</div>"@, no_read_note())) by {
        reveal_with_fuel(departs_from, 3);
        reveal_strlit("<h2>Secrets</h2><p class=\"muted\">You manage access to this vault but cannot read its secret contents.</p>");
        reveal_strlit("</div>");
    }
    assert(no_start("<p class=\"muted\">"@, no_read_note())) by {
        reveal_with_fuel(departs_from, 3);
        reveal_strlit("<h2>Secrets</h2><p class=\"muted\">You manage access to this vault but cannot read its secret contents.</p>");
        reveal_strlit("<p class=\"muted\">");
    }
    assert(no_start("</p>"@, no_read_note())) by {
        reveal_with_fuel(departs_from, 3);
        reveal_strlit("<h2>Secrets</h2><p class=\"muted\">You manage access to this vault but cannot read its secret contents.</p>");
        reveal_strlit("</p>");
    }
    assert(no_start("<div class=\"card\"><div style=\"display:flex;justify-content:space-between;align-items:center\"><h2 style=\"margin:0\">Secrets</h2>"@, no_read_note())) by {
        reveal_with_fuel(departs_from, 5);
        reveal_strlit("<h2>Secrets</h2><p class=\"muted\">You manage access to this vault but cannot read its secret contents.</p>");
        reveal_strlit("<div class=\"card\"><div style=\"display:flex;justify-content:space-between;align-items:center\"><h2 style=\"margin:0\">Secrets</h2>");
    }
    assert(no_start("/approles\"><button type=\"button\" class=\"btn-neutral\">AppRoles</button></a> <a href=\"/gui/vaults/"@, no_read_note())) by {
        reveal_with_fuel(departs_from, 3);
        reveal_strlit("<h2>Secrets</h2><p class=\"muted\">You manage access to this vault but cannot read its secret contents.</p>");
        reveal_strlit("/approles\"><button type=\"button\" class=\"btn-neutral\">AppRoles</button></a> <a href=\"/gui/vaults/");
    }
    assert(no_start("/tokens\"><button type=\"button\" class=\"btn-neutral\">Tokens</button></a> <a href=\"/gui/vaults/"@, no_read_note())) by {
        reveal_with_fuel(departs_from, 3);
        reveal_strlit("<h2>Secrets</h2><p class=\"muted\">You manage access to this vault but cannot read its secret contents.</p>");
        reveal_strlit("/tokens\"><button type=\"button\" class=\"btn-neutral\">Tokens</button></a> <a href=\"/gui/vaults/");
    }
    assert(no_start("/secret/new\"><button type=\"button\">Add secret</button></a>"@, no_read_note())) by {
        reveal_with_fuel(departs_from, 3);
        reveal_strlit("<h2>Secrets</h2><p class=\"muted\">You manage access to this vault but cannot read its secret contents.</p>");
        reveal_strlit("/secret/new\"><button type=\"button\">Add secret</button></a>");
    }
    assert(no_start("<p class=\"muted\">No secrets yet.</p>"@, no_read_note())) by {
        reveal_with_fuel(departs_from, 3);
        reveal_strlit("<h2>Secrets</h2><p class=\"muted\">You manage access to this vault but cannot read its secret contents.</p>");
        reveal_strlit("<p class=\"muted\">No secrets yet.</p>");
    }
    assert(no_start("<table><tr><th>Path</th><th>Version</th><th></th></tr>"@, no_read_note())) by {
        reveal_with_fuel(departs_from, 3);
        reveal_strlit("<h2>Secrets</h2><p class=\"muted\">You manage access to this vault but cannot read its secret contents.</p>");
        reveal_strlit("<table><tr><th>Path</th><th>Version</th><th></th></tr>");
    }
    assert(no_start("</table>"@, no_read_note())) by {
        reveal_with_fuel(departs_from, 3);
        reveal_strlit("<h2>Secrets</h2><p class=\"muted\">You manage access to this vault but cannot read its secret contents.</p>");
        reveal_strlit("</table>");
    }
}

proof fn lemma_secret_row_pieces_add_secret_button()
    ensures
        no_start("<tr><td>"@, add_secret_button()),
        no_start("</td><td>v"@, add_secret_button()),
        no_start("</td><td><a href=\""@, add_secret_button()),
        no_start("/gui/vaults/"@, add_secret_button()),
        no_start("/secret?path="@, add_secret_button()),
        no_start("\">view</a></td></tr>"@, add_secret_button()),
{
    assert(no_start("<tr><td>"@, add_secret_button())) by {
        reveal_with_fuel(departs_from, 3);
        reveal_strlit("<button type=\"button\">Add secret</button>");
        reveal_strlit("<tr><td>");
    }
    assert(no_start("</td><td>v"@, add_secret_button())) by {
        reveal_with_fuel(departs_from, 3);
        reveal_strlit("<button type=\"button\">Add secret</button>");
        reveal_strlit("</td><td>v");
    }
    assert(no_start("</td><td><a href=\""@, add_secret_button())) by {
        reveal_with_fuel(departs_from, 3);
        reveal_strlit("<button type=\"button\">Add secret</button>");
        reveal_strlit("</td><td><a href=\"");
    }
    assert(no_start("/gui/vaults/"@, add_secret_button())) by {
        reveal_with_fuel(departs_from, 2);
        reveal_strlit("<button type=\"button\">Add secret</button>");
        reveal_strlit("/gui/vaults/");
    }
    assert(no_start("/secret?path="@, add_secret_button())) by {
        reveal_with_fuel(departs_from, 2);
        reveal_strlit("<button type=\"button\">Add secret</button>");
        reveal_strlit("/secret?path=");
    }
    assert(no_start("\">view</a></td></tr>"@, add_secret_button())) by {
        reveal_with_fuel(departs_from, 3);
        reveal_strlit("<button type=\"button\">Add secret</button>");
        reveal_strlit("\">view</a></td></tr>");
    }
}

proof fn lemma_secret_row_pieces_tokens_button()
    ensures
        no_start("<tr><td>"@, tokens_button()),
        no_start("</td><td>v"@, tokens_button()),
        no_start("</td><td><a href=\""@, tokens_button()),
        no_start("/gui/vaults/"@, tokens_button()),
        no_start("/secret?path="@, tokens_button()),
        no_start("\">view</a></td></tr>"@, tokens_button()),
{
    assert(no_start("<tr><td>"@, tokens_button())) by {
        reveal_with_fuel(departs_from, 3);
        reveal_strlit("<button type=\"button\" class=\"btn-neutral\">Tokens</button>");
        reveal_strlit("<tr><td>");
    }
    assert(no_start("</td><td>v"@, tokens_button())) by {
        reveal_with_fuel(departs_from, 3);
        reveal_strlit("<button type=\"button\" class=\"btn-neutral\">Tokens</button>");
        reveal_strlit("</td><td>v");
    }
    assert(no_start("</td><td><a href=\""@, tokens_button())) by {
        reveal_with_fuel(departs_from, 3);
        reveal_strlit("<button type=\"button\" class=\"btn-neutral\">Tokens</button>");
        reveal_strlit("</td><td><a href=\"");
    }
    assert(no_start("/gui/vaults/"@, tokens_button())) by {
        reveal_with_fuel(departs_from, 2);
        reveal_strlit("<button type=\"button\" class=\"btn-neutral\">Tokens</button>");
        reveal_strlit("/gui/vaults/");
    }
    assert(no_start("/secret?path="@, tokens_button())) by {
        reveal_with_fuel(departs_from, 2);
        reveal_strlit("<button type=\"button\" class=\"btn-neutral\">Tokens</button>");
        reveal_strlit("/secret?path=");
    }
    assert(no_start("\">view</a></td></tr>"@, tokens_button())) by {
        reveal_with_fuel(departs_from, 3);
        reveal_strlit("<button type=\"button\" class=\"btn-neutral\">Tokens</button>");
        reveal_strlit("\">view</a></td></tr>");
    }
}

proof fn lemma_secret_row_pieces_approles_button()
    ensures
        no_start("<tr><td>"@, approles_button()),
        no_start("</td><td>v"@, approles_button()),
        no_start("</td><td><a href=\""@, approles_button()),
        no_start("/gui/vaults/"@, approles_button()),
        no_start("/secret?path="@, approles_button()),
        no_start("\">view</a></td></tr>"@, approles_button()),
{
    assert(no_start("<tr><td>"@, approles_button())) by {
        reveal_with_fuel(departs_from, 3);
        reveal_strlit("<button type=\"button\" class=\"btn-neutral\">AppRoles</button>");
        reveal_strlit("<tr><td>");
    }
    assert(no_start("</td><td>v"@, approles_button())) by {
        reveal_with_fuel(departs_from, 3);
        reveal_strlit("<button type=\"button\" class=\"btn-neutral\">AppRoles</button>");
        reveal_strlit("</td><td>v");
    }
    assert(no_start("</td><td><a href=\""@, approles_button())) by {
        reveal_with_fuel(departs_from, 3);
        reveal_strlit("<button type=\"button\" class=\"btn-neutral\">AppRoles</button>");
        reveal_strlit("</td><td><a href=\"");
    }
    assert(no_start("/gui/vaults/"@, approles_button())) by {
        reveal_with_fuel(departs_from, 2);
        reveal_strlit("<button type=\"button\" class=\"btn-neutral\">AppRoles</button>");
        reveal_strlit("/gui/vaults/");
    }
    assert(no_start("/secret?path="@, approles_button())) by {
        reveal_with_fuel(departs_from, 2);
        reveal_strlit("<button type=\"button\" class=\"btn-neutral\">AppRoles</button>");
        reveal_strlit("/secret?path=");
    }
    assert(no_start("\">view</a></td></tr>"@, approles_button())) by {
        reveal_with_fuel(departs_from, 3);
        reveal_strlit("<button type=\"button\" class=\"btn-neutral\">AppRoles</button>");
        reveal_strlit("\">view</a></td></tr>");
    }
}

proof fn lemma_secret_row_pieces_settings_button()
    ensures
        no_start("<tr><td>"@, settings_button()),
        no_start("</td><td>v"@, settings_button()),
        no_start("</td><td><a href=\""@, settings_button()),
        no_start("/gui/vaults/"@, settings_button()),
        no_start("/secret?path="@, settings_button()),
        no_start("\">view</a></td></tr>"@, settings_button()),
{
    assert(no_start("<tr><td>"@, settings_button())) by {
        reveal_with_fuel(departs_from, 3);
        reveal_strlit("<button type=\"button\" class=\"btn-neutral\">Settings</button>");
        reveal_strlit("<tr><td>");
    }
    assert(no_start("</td><td>v"@, settings_button())) by {
        reveal_with_fuel(departs_from, 3);
        reveal_strlit("<button type=\"button\" class=\"btn-neutral\">Settings</button>");
        reveal_strlit("</td><td>v");
    }
    assert(no_start("</td><td><a href=\""@, settings_button())) by {
        reveal_with_fuel(departs_from, 3);
        reveal_strlit("<button type=\"button\" class=\"btn-neutral\">Settings</button>");
        reveal_strlit("</td><td><a href=\"");
    }
    assert(no_start("/gui/vaults/"@, settings_button())) by {
        reveal_with_fuel(departs_from, 2);
        reveal_strlit("<button type=\"button\" class=\"btn-neutral\">Settings</button>");
        reveal_strlit("/gui/vaults/");
    }
    assert(no_start("/secret?path="@, settings_button())) by {
        reveal_with_fuel(departs_from, 2);
        reveal_strlit("<button type=\"button\" class=\"btn-neutral\">Settings</button>");
        reveal_strlit("/secret?path=");
    }
    assert(no_start("\">view</a></td></tr>"@, settings_button())) by {
        reveal_with_fuel(departs_from, 3);
        reveal_strlit("<button type=\"button\" class=\"btn-neutral\">Settings</button>");
        reveal_strlit("\">view</a></td></tr>");
    }
}

proof fn lemma_secret_row_pieces_secret_list_heading()
    ensures
        no_start("<tr><td>"@, secret_list_heading()),
        no_start("</td><td>v"@, secret_list_heading()),
        no_start("</td><td><a href=\""@, secret_list_heading()),
        no_start("/gui/vaults/"@, secret_list_heading()),
        no_start("/secret?path="@, secret_list_heading()),
        no_start("\">view</a></td></tr>"@, secret_list_heading()),
{
    assert(no_start("<tr><td>"@, secret_list_heading())) by {
        reveal_with_fuel(departs_from, 3);
        reveal_strlit("<h2 style=\"margin:0\">Secrets</h2>");
        reveal_strlit("<tr><td>");
    }
    assert(no_start("</td><td>v"@, secret_list_heading())) by {
        reveal_with_fuel(departs_from, 3);
        reveal_strlit("<h2 style=\"margin:0\">Secrets</h2>");
        reveal_strlit("</td><td>v");
    }
    assert(no_start("</td><td><a href=\""@, secret_list_heading())) by {
        reveal_with_fuel(departs_from, 3);
        reveal_strlit("<h2 style=\"margin:0\">Secrets</h2>");
        reveal_strlit("</td><td><a href=\"");
    }
    assert(no_start("/gui/vaults/"@, secret_list_heading())) by {
        reveal_with_fuel(departs_from, 2);
        reveal_strlit("<h2 style=\"margin:0\">Secrets</h2>");
        reveal_strlit("/gui/vaults/");
    }
    assert(no_start("/secret?path="@, secret_list_heading())) by {
        reveal_with_fuel(departs_from, 2);
        reveal_strlit("<h2 style=\"margin:0\">Secrets</h2>");
        reveal_strlit("/secret?path=");
    }
    assert(no_start("\">view</a></td></tr>"@, secret_list_heading())) by {
        reveal_with_fuel(departs_from, 3);
        reveal_strlit("<h2 style=\"margin:0\">Secrets</h2>");
        reveal_strlit("\">view</a></td></tr>");
    }
}

proof fn lemma_secret_row_pieces_no_read_note()
    ensures
        no_start("<tr><td>"@, no_read_note()),
        no_start("</td><td>v"@, no_read_note()),
        no_start("</td><td><a href=\""@, no_read_note()),
        no_start("/gui/vaults/"@, no_read_note()),
        no_start("/secret?path="@, no_read_note()),
        no_start("\">view</a></td></tr>"@, no_read_note()),
{
    assert(no_start("<tr><td>"@, no_read_note())) by {
        reveal_with_fuel(departs_from, 3);
        reveal_strlit("<h2>Secrets</h2><p class=\"muted\">You manage access to this vault but cannot read its secret contents.</p>");
        reveal_strlit("<tr><td>");
    }
    assert(no_start("</td><td>v"@, no_read_note())) by {
        reveal_with_fuel(departs_from, 3);
        reveal_strlit("<h2>Secrets</h2><p class=\"muted\">You manage access to this vault but cannot read its secret contents.</p>");
        reveal_strlit("</td><td>v");
    }
    assert(no_start("</td><td><a href=\""@, no_read_note())) by {
        reveal_with_fuel(departs_from, 3);
        reveal_strlit("<h2>Secrets</h2><p class=\"muted\">You manage access to this vault but cannot read its secret contents.</p>");
        reveal_strlit("</td><td><a href=\"");
    }
    assert(no_start("/gui/vaults/"@, no_read_note())) by {
        reveal_with_fuel(departs_from, 2);
        reveal_strlit("<h2>Secrets</h2><p class=\"muted\">You manage access to this vault but cannot read its secret contents.</p>");
        reveal_strlit("/gui/vaults/");
    }
    assert(no_start("/secret?path="@, no_read_note())) by {
        reveal_with_fuel(departs_from, 2);
        reveal_strlit("<h2>Secrets</h2><p class=\"muted\">You manage access to this vault but cannot read its secret contents.</p>");
        reveal_strlit("/secret?path=");
    }
    assert(no_start("\">view</a></td></tr>"@, no_read_note())) by {
        reveal_with_fuel(departs_from, 3);
        reveal_strlit("<h2>Secrets</h2><p class=\"muted\">You manage access to this vault but cannot read its secret contents.</p>");
        reveal_strlit("\">view</a></td></tr>");
    }
}

proof fn lemma_tokens_pieces_revoke_button()
    ensures
        no_start("API tokens"@, revoke_button()),
        no_start("<p><a href=\"/gui/vaults/"@, revoke_button()),
        no_start("\">&larr; "@, revoke_button()),
        no_start("</a></p>"@, revoke_button()),
        no_start("<div class=\"card\"><h1>API tokens</h1>"@, revoke_button()),
        no_start("<table><tr><th>Name</th><th>Paths</th><th>IPs</th><th>Expires</th><th>Last used</th><th>State</th><th></th></tr>"@, revoke_button()),
        no_start("<tr><td colspan=\"7\" class=\"muted\">No tokens yet.</td></tr>"@, revoke_button()),
        no_start(""@, revoke_button()),
        no_start("</table>"@, revoke_button()),
        no_start("</div>"@, revoke_button()),
        no_start("<div class=\"card\"><h2>Create token</h2><form method=\"post\" action=\"/gui/vaults/"@, revoke_button()),
        no_start("/tokens\"><label>Name</label><input name=\"display_name\" placeholder=\"ci-deployer\"><label>Allowed paths (one per line, * for all)</label><textarea name=\"allowed_paths\" rows=\"3\" style=\"width:100%;font-family:ui-monospace,monospace;padding:10px;border:1px solid var(--border);border-radius:7px;background:var(--bg);color:var(--fg)\">*</textarea><label>Allowed IPs / CIDRs (one per line, blank = any)</label><textarea name=\"allowed_ips\" rows=\"2\" style=\"width:100%;font-family:ui-monospace,monospace;padding:10px;border:1px solid var(--border);border-radius:7px;background:var(--bg);color:var(--fg)\"></textarea><label>TTL (hours, blank = never expires)</label><input name=\"ttl_hours\" type=\"number\" min=\"1\"><button type=\"submit\">Create token</button></form></div>"@, revoke_button()),
{
    assert(no_start("API tokens"@, revoke_button())) by {
        reveal_with_fuel(departs_from, 2);
        reveal_strlit("<button class=\"link\" type=\"submit\">revoke</button>");
        reveal_strlit("API tokens");
    }
    assert(no_start("<p><a href=\"/gui/vaults/"@, revoke_button())) by {
        reveal_with_fuel(departs_from, 3);
        reveal_strlit("<button class=\"link\" type=\"submit\">revoke</button>");
        reveal_strlit("<p><a href=\"/gui/vaults/");
    }
    assert(no_start("\">&larr; "@, revoke_button())) by {
        reveal_with_fuel(departs_from, 2);
        reveal_strlit("<button class=\"link\" type=\"submit\">revoke</button>");
        reveal_strlit("\">&larr; ");
    }
    assert(no_start("</a></p>"@, revoke_button())) by {
        reveal_with_fuel(departs_from, 3);
        reveal_strlit("<button class=\"link\" type=\"submit\">revoke</button>");
        reveal_strlit("</a></p>");
    }
    assert(no_start("<div class=\"card\"><h1>API tokens</h1>"@, revoke_button())) by {
        reveal_with_fuel(departs_from, 3);
        reveal_strlit("<button class=\"link\" type=\"submit\">revoke</button>");
        reveal_strlit("<div class=\"card\"><h1>API tokens</h1>");
    }
    assert(no_start("<table><tr><th>Name</th><th>Paths</th><th>IPs</th><th>Expires</th><th>Last used</th><th>State</th><th></th></tr>"@, revoke_button())) by {
        reveal_with_fuel(departs_from, 3);
        reveal_strlit("<button class=\"link\" type=\"submit\">revoke</button>");
        reveal_strlit("<table><tr><th>Name</th><th>Paths</th><th>IPs</th><th>Expires</th><th>Last used</th><th>State</th><th></th></tr>");
    }
    assert(no_start("<tr><td colspan=\"7\" class=\"muted\">No tokens yet.</td></tr>"@, revoke_button())) by {
        reveal_with_fuel(departs_from, 3);
        reveal_strlit("<button class=\"link\" type=\"submit\">revoke</button>");
        reveal_strlit("<tr><td colspan=\"7\" class=\"muted\">No tokens yet.</td></tr>");
    }
    assert(no_start(""@, revoke_button())) by {
        reveal_with_fuel(departs_from, 2);
        reveal_strlit("<button class=\"link\" type=\"submit\">revoke</button>");
        reveal_strlit("");
    }
    assert(no_start("</table>"@, revoke_button())) by {
        reveal_with_fuel(departs_from, 3);
        reveal_strlit("<button class=\"link\" type=\"submit\">revoke</button>");
        reveal_strlit("</table>");
    }
    assert(no_start("</div>"@, revoke_button())) by {
        reveal_with_fuel(departs_from, 3);
        reveal_strlit("<button class=\"link\" type=\"submit\">revoke</button>");
        reveal_strlit("</div>");
    }
    assert(no_start("<div class=\"card\"><h2>Create token</h2><form method=\"post\" action=\"/gui/vaults/"@, revoke_button())) by {
        reveal_with_fuel(departs_from, 3);
        reveal_strlit("<button class=\"link\" type=\"submit\">revoke</button>");
        reveal_strlit("<div class=\"card\"><h2>Create token</h2><form method=\"post\" action=\"/gui/vaults/");
    }
    assert(no_start("/tokens\"><label>Name</label><input name=\"display_name\" placeholder=\"ci-deployer\"><label>Allowed paths (one per line, * for all)</label><textarea name=\"allowed_paths\" rows=\"3\" style=\"width:100%;font-family:ui-monospace,monospace;padding:10px;border:1px solid var(--border);border-radius:7px;background:var(--bg);color:var(--fg)\">*</textarea><label>Allowed IPs / CIDRs (one per line, blank = any)</label><textarea name=\"allowed_ips\" rows=\"2\" style=\"width:100%;font-family:ui-monospace,monospace;padding:10px;border:1px solid var(--border);border-radius:7px;background:var(--bg);color:var(--fg)\"></textarea><label>TTL (hours, blank = never expires)</label><input name=\"ttl_hours\" type=\"number\" min=\"1\"><button type=\"submit\">Create token</button></form></div>"@, revoke_button())) by {
        reveal_with_fuel(departs_from, 10);
        reveal_strlit("<button class=\"link\" type=\"submit\">revoke</button>");
        reveal_strlit("/tokens\"><label>Name</label><input name=\"display_name\" placeholder=\"ci-deployer\"><label>Allowed paths (one per line, * for all)</label><textarea name=\"allowed_paths\" rows=\"3\" style=\"width:100%;font-family:ui-monospace,monospace;padding:10px;border:1px solid var(--border);border-radius:7px;background:var(--bg);color:var(--fg)\">*</textarea><label>Allowed IPs / CIDRs (one per line, blank = any)</label><textarea name=\"allowed_ips\" rows=\"2\" style=\"width:100%;font-family:ui-monospace,monospace;padding:10px;border:1px solid var(--border);border-radius:7px;background:var(--bg);color:var(--fg)\"></textarea><label>TTL (hours, blank = never expires)</label><input name=\"ttl_hours\" type=\"number\" min=\"1\"><button type=\"submit\">Create token</button></form></div>");
    }
}

proof fn lemma_tokens_pieces_create_token_heading()
    ensures
        no_start("API tokens"@, create_token_heading()),
        no_start("<p><a href=\"/gui/vaults/"@, create_token_heading()),
        no_start("\">&larr; "@, create_token_heading()),
        no_start("</a></p>"@, create_token_heading()),
        no_start("<div class=\"card\"><h1>API tokens</h1>"@, create_token_heading()),
        no_start("<table><tr><th>Name</th><th>Paths</th><th>IPs</th><th>Expires</th><th>Last used</th><th>State</th><th></th></tr>"@, create_token_heading()),
        no_start("<tr><td colspan=\"7\" class=\"muted\">No tokens yet.</td></tr>"@, create_token_heading()),
        no_start(""@, create_token_heading()),
        no_start("</table>"@, create_token_heading()),
        no_start("</div>"@, create_token_heading()),
        no_start("/tokens\"><label>Name</label><input name=\"display_name\" placeholder=\"ci-deployer\"><label>Allowed paths (one per line, * for all)</label><textarea name=\"allowed_paths\" rows=\"3\" style=\"width:100%;font-family:ui-monospace,monospace;padding:10px;border:1px solid var(--border);border-radius:7px;background:var(--bg);color:var(--fg)\">*</textarea><label>Allowed IPs / CIDRs (one per line, blank = any)</label><textarea name=\"allowed_ips\" rows=\"2\" style=\"width:100%;font-family:ui-monospace,monospace;padding:10px;border:1px solid var(--border);border-radius:7px;background:var(--bg);color:var(--fg)\"></textarea><label>TTL (hours, blank = never expires)</label><input name=\"ttl_hours\" type=\"number\" min=\"1\"><button type=\"submit\">Create token</button></form></div>"@, create_token_heading()),
{
    assert(no_start("API tokens"@, create_token_heading())) by {
        reveal_with_fuel(departs_from, 2);
        reveal_strlit("<h2>Create token</h2>");
        reveal_strlit("API tokens");
    }
    assert(no_start("<p><a href=\"/gui/vaults/"@, create_token_heading())) by {
        reveal_with_fuel(departs_from, 3);
        reveal_strlit("<h2>Create token</h2>");
        reveal_strlit("<p><a href=\"/gui/vaults/");
    }
    assert(no_start("\">&larr; "@, create_token_heading())) by {
        reveal_with_fuel(departs_from, 2);
        reveal_strlit("<h2>Create token</h2>");
        reveal_strlit("\">&larr; ");
    }
    assert(no_start("</a></p>"@, create_token_heading())) by {
        reveal_with_fuel(departs_from, 3);
        reveal_strlit("<h2>Create token</h2>");
        reveal_strlit("</a></p>");
    }
    assert(no_start("<div class=\"card\"><h1>API tokens</h1>"@, create_token_heading())) by {
        reveal_with_fuel(departs_from, 4);
        reveal_strlit("<h2>Create token</h2>");
        reveal_strlit("<div class=\"card\"><h1>API tokens</h1>");
    }
    assert(no_start("<table><tr><th>Name</th><th>Paths</th><th>IPs</th><th>Expires</th><th>Last used</th><th>State</th><th></th></tr>"@, create_token_heading())) by {
        reveal_with_fuel(departs_from, 3);
        reveal_strlit("<h2>Create token</h2>");
        reveal_strlit("<table><tr><th>Name</th><th>Paths</th><th>IPs</th><th>Expires</th><th>Last used</th><th>State</th><th></th></tr>");
    }
    assert(no_start("<tr><td colspan=\"7\" class=\"muted\">No tokens yet.</td></tr>"@, create_token_heading())) by {
        reveal_with_fuel(departs_from, 3);
        reveal_strlit("<h2>Create token</h2>");
        reveal_strlit("<tr><td colspan=\"7\" class=\"muted\">No tokens yet.</td></tr>");
    }
    assert(no_start(""@, create_token_heading())) by {
        reveal_with_fuel(departs_from, 2);
        reveal_strlit("<h2>Create token</h2>");
        reveal_strlit("");
    }
    assert(no_start("</table>"@, create_token_heading())) by {
        reveal_with_fuel(departs_from, 3);
        reveal_strlit("<h2>Create token</h2>");
        reveal_strlit("</table>");
    }
    assert(no_start("</div>"@, create_token_heading())) by {
        reveal_with_fuel(departs_from, 3);
        reveal_strlit("<h2>Create token</h2>");
        reveal_strlit("</div>");
    }
    assert(no_start("/tokens\"><label>Name</label><input name=\"display_name\" placeholder=\"ci-deployer\"><label>Allowed paths (one per line, * for all)</label><textarea name=\"allowed_paths\" rows=\"3\" style=\"width:100%;font-family:ui-monospace,monospace;padding:10px;border:1px solid var(--border);border-radius:7px;background:var(--bg);color:var(--fg)\">*</textarea><label>Allowed IPs / CIDRs (one per line, blank = any)</label><textarea name=\"allowed_ips\" rows=\"2\" style=\"width:100%;font-family:ui-monospace,monospace;padding:10px;border:1px solid var(--border);border-radius:7px;background:var(--bg);color:var(--fg)\"></textarea><label>TTL (hours, blank = never expires)</label><input name=\"ttl_hours\" type=\"number\" min=\"1\"><button type=\"submit\">Create token</button></form></div>"@, create_token_heading())) by {
        reveal_with_fuel(departs_from, 3);
        reveal_strlit("<h2>Create token</h2>");
        reveal_strlit("/tokens\"><label>Name</label><input name=\"display_name\" placeholder=\"ci-deployer\"><label>Allowed paths (one per line, * for all)</label><textarea name=\"allowed_paths\" rows=\"3\" style=\"width:100%;font-family:ui-monospace,monospace;padding:10px;border:1px solid var(--border);border-radius:7px;background:var(--bg);color:var(--fg)\">*</textarea><label>Allowed IPs / CIDRs (one per line, blank = any)</label><textarea name=\"allowed_ips\" rows=\"2\" style=\"width:100%;font-family:ui-monospace,monospace;padding:10px;border:1px solid var(--border);border-radius:7px;background:var(--bg);color:var(--fg)\"></textarea><label>TTL (hours, blank = never expires)</label><input name=\"ttl_hours\" type=\"number\" min=\"1\"><button type=\"submit\">Create token</button></form></div>");
    }
}

proof fn lemma_token_row_pieces_revoke_button()
    ensures
        no_start("<tr><td>"@, revoke_button()),
        no_start("—"@, revoke_button()),
        no_start("</td><td class=\"muted\">"@, revoke_button()),
        no_start("[]"@, revoke_button()),
        no_start("any"@, revoke_button()),
        no_start("never"@, revoke_button()),
        no_start("</td><td>"@, revoke_button()),
        no_start("<span class=\"pill warn\">revoked</span>"@, revoke_button()),
        no_start("<span class=\"pill ok\">active</span>"@, revoke_button()),
        no_start("<form method=\"post\" action=\"/gui/vaults/"@, revoke_button()),
        no_start("/tokens/"@, revoke_button()),
        no_start("</td></tr>"@, revoke_button()),
{
    assert(no_start("<tr><td>"@, revoke_button())) by {
        reveal_with_fuel(departs_from, 3);
        reveal_strlit("<button class=\"link\" type=\"submit\">revoke</button>");
        reveal_strlit("<tr><td>");
    }
    assert(no_start("—"@, revoke_button())) by {
        reveal_with_fuel(departs_from, 2);
        reveal_strlit("<button class=\"link\" type=\"submit\">revoke</button>");
        reveal_strlit("—");
    }
    assert(no_start("</td><td class=\"muted\">"@, revoke_button())) by {
        reveal_with_fuel(departs_from, 3);
        reveal_strlit("<button class=\"link\" type=\"submit\">revoke</button>");
        reveal_strlit("</td><td class=\"muted\">");
    }
    assert(no_start("[]"@, revoke_button())) by {
        reveal_with_fuel(departs_from, 2);
        reveal_strlit("<button class=\"link\" type=\"submit\">revoke</button>");
        reveal_strlit("[]");
    }
    assert(no_start("any"@, revoke_button())) by {
        reveal_with_fuel(departs_from, 2);
        reveal_strlit("<button class=\"link\" type=\"submit\">revoke</button>");
        reveal_strlit("any");
    }
    assert(no_start("never"@, revoke_button())) by {
        reveal_with_fuel(departs_from, 2);
        reveal_strlit("<button class=\"link\" type=\"submit\">revoke</button>");
        reveal_strlit("never");
    }
    assert(no_start("</td><td>"@, revoke_button())) by {
        reveal_with_fuel(departs_from, 3);
        reveal_strlit("<button class=\"link\" type=\"submit\">revoke</button>");
        reveal_strlit("</td><td>");
    }
    assert(no_start("<span class=\"pill warn\">revoked</span>"@, revoke_button())) by {
        reveal_with_fuel(departs_from, 3);
        reveal_strlit("<button class=\"link\" type=\"submit\">revoke</button>");
        reveal_strlit("<span class=\"pill warn\">revoked</span>");
    }
    assert(no_start("<span class=\"pill ok\">active</span>"@, revoke_button())) by {
        reveal_with_fuel(departs_from, 3);
        reveal_strlit("<button class=\"link\" type=\"submit\">revoke</button>");
        reveal_strlit("<span class=\"pill ok\">active</span>");
    }
    assert(no_start("<form method=\"post\" action=\"/gui/vaults/"@, revoke_button())) by {
        reveal_with_fuel(departs_from, 3);
        reveal_strlit("<button class=\"link\" type=\"submit\">revoke</button>");
        reveal_strlit("<form method=\"post\" action=\"/gui/vaults/");
    }
    assert(no_start("/tokens/"@, revoke_button())) by {
        reveal_with_fuel(departs_from, 2);
        reveal_strlit("<button class=\"link\" type=\"submit\">revoke</button>");
        reveal_strlit("/tokens/");
    }
    assert(no_start("</td></tr>"@, revoke_button())) by {
        reveal_with_fuel(departs_from, 3);
        reveal_strlit("<button class=\"link\" type=\"submit\">revoke</button>");
        reveal_strlit("</td></tr>");
    }
}

proof fn lemma_token_row_pieces_create_token_heading()
    ensures
        no_start("<tr><td>"@, create_token_heading()),
        no_start("—"@, create_token_heading()),
        no_start("</td><td class=\"muted\">"@, create_token_heading()),
        no_start("[]"@, create_token_heading()),
        no_start("any"@, create_token_heading()),
        no_start("never"@, create_token_heading()),
        no_start("</td><td>"@, create_token_heading()),
        no_start("<span class=\"pill warn\">revoked</span>"@, create_token_heading()),
        no_start("<span class=\"pill ok\">active</span>"@, create_token_heading()),
        no_start("<form method=\"post\" action=\"/gui/vaults/"@, create_token_heading()),
        no_start("/tokens/"@, create_token_heading()),
        no_start("/revoke\" style=\"margin:0\"><button class=\"link\" type=\"submit\">revoke</button></form>"@, create_token_heading()),
        no_start("</td></tr>"@, create_token_heading()),
{
    assert(no_start("<tr><td>"@, create_token_heading())) by {
        reveal_with_fuel(departs_from, 3);
        reveal_strlit("<h2>Create token</h2>");
        reveal_strlit("<tr><td>");
    }
    assert(no_start("—"@, create_token_heading())) by {
        reveal_with_fuel(departs_from, 2);
        reveal_strlit("<h2>Create token</h2>");
        reveal_strlit("—");
    }
    assert(no_start("</td><td class=\"muted\">"@, create_token_heading())) by {
        reveal_with_fuel(departs_from, 3);
        reveal_strlit("<h2>Create token</h2>");
        reveal_strlit("</td><td class=\"muted\">");
    }
    assert(no_start("[]"@, create_token_heading())) by {
        reveal_with_fuel(departs_from, 2);
        reveal_strlit("<h2>Create token</h2>");
        reveal_strlit("[]");
    }
    assert(no_start("any"@, create_token_heading())) by {
        reveal_with_fuel(departs_from, 2);
        reveal_strlit("<h2>Create token</h2>");
        reveal_strlit("any");
    }
    assert(no_start("never"@, create_token_heading())) by {
        reveal_with_fuel(departs_from, 2);
        reveal_strlit("<h2>Create token</h2>");
        reveal_strlit("never");
    }
    assert(no_start("</td><td>"@, create_token_heading())) by {
        reveal_with_fuel(departs_from, 3);
        reveal_strlit("<h2>Create token</h2>");
        reveal_strlit("</td><td>");
    }
    assert(no_start("<span class=\"pill warn\">revoked</span>"@, create_token_heading())) by {
        reveal_with_fuel(departs_from, 3);
        reveal_strlit("<h2>Create token</h2>");
        reveal_strlit("<span class=\"pill warn\">revoked</span>");
    }
    assert(no_start("<span class=\"pill ok\">active</span>"@, create_token_heading())) by {
        reveal_with_fuel(departs_from, 3);
        reveal_strlit("<h2>Create token</h2>");
        reveal_strlit("<span class=\"pill ok\">active</span>");
    }
    assert(no_start("<form method=\"post\" action=\"/gui/vaults/"@, create_token_heading())) by {
        reveal_with_fuel(departs_from, 3);
        reveal_strlit("<h2>Create token</h2>");
        reveal_strlit("<form method=\"post\" action=\"/gui/vaults/");
    }
    assert(no_start("/tokens/"@, create_token_heading())) by {
        reveal_with_fuel(departs_from, 2);
        reveal_strlit("<h2>Create token</h2>");
        reveal_strlit("/tokens/");
    }
    assert(no_start("/revoke\" style=\"margin:0\"><button class=\"link\" type=\"submit\">revoke</button></form>"@, create_token_heading())) by {
        reveal_with_fuel(departs_from, 3);
        reveal_strlit("<h2>Create token</h2>");
        reveal_strlit("/revoke\" style=\"margin:0\"><button class=\"link\" type=\"submit\">revoke</button></form>");
    }
    assert(no_start("</td></tr>"@, create_token_heading())) by {
        reveal_with_fuel(departs_from, 3);
        reveal_strlit("<h2>Create token</h2>");
        reveal_strlit("</td></tr>");
    }
}

proof fn lemma_audit_pieces_tampered_pill()
    ensures
        no_start("Audit log"@, tampered_pill()),
        no_start("<p><a href=\"/gui/\">&larr; Dashboard</a></p><div class=\"card\"><h1>Audit log</h1><p class=\"muted\">"@, tampered_pill()),
        no_start(" events total — currently "@, tampered_pill()),
        no_start("kept forever"@, tampered_pill()),
        no_start(" days"@, tampered_pill()),
        no_start(". Each row is HMAC-signed with a key derived from the master key.</p><form method=\"post\" action=\"/gui/audit/retention\" style=\"display:flex;gap:8px;align-items:flex-end\"><div><label style=\"margin-top:0\">Retention (days, blank/0 = keep forever)</label><input name=\"days\" type=\"number\" min=\"0\" value=\""@, tampered_pill()),
        no_start("\" placeholder=\"forever\" style=\"width:180px\"></div><button type=\"submit\" style=\"margin:0\">Save</button></form><form method=\"post\" action=\"/gui/audit/prune\" style=\"margin-top:10px\"><button type=\"submit\" class=\"btn-neutral\">Prune now</button><span class=\"muted\"> — delete events older than the retention window.</span></form></div><div class=\"card\"><h2>Most recent 200 events</h2>"@, tampered_pill()),
        no_start("<table><tr><th>Time</th><th>Op</th><th>Vault</th><th>Path</th><th>Actor</th><th>Source IP</th><th>Code</th><th>Integrity</th></tr>"@, tampered_pill()),
        no_start("<tr><td colspan=\"8\" class=\"muted\">No audit events yet.</td></tr>"@, tampered_pill()),
        no_start(""@, tampered_pill()),
        no_start("</table>"@, tampered_pill()),
        no_start("</div>"@, tampered_pill()),
{
    assert(no_start("Audit log"@, tampered_pill())) by {
        reveal_with_fuel(departs_from, 2);
        reveal_strlit("<span class=\"pill warn\">TAMPERED</span>");
        reveal_strlit("Audit log");
    }
    assert(no_start("<p><a href=\"/gui/\">&larr; Dashboard</a></p><div class=\"card\"><h1>Audit log</h1><p class=\"muted\">"@, tampered_pill())) by {
        reveal_with_fuel(departs_from, 3);
        reveal_strlit("<span class=\"pill warn\">TAMPERED</span>");
        reveal_strlit("<p><a href=\"/gui/\">&larr; Dashboard</a></p><div class=\"card\"><h1>Audit log</h1><p class=\"muted\">");
    }
    assert(no_start(" events total — currently "@, tampered_pill())) by {
        reveal_with_fuel(departs_from, 2);
        reveal_strlit("<span class=\"pill warn\">TAMPERED</span>");
        reveal_strlit(" events total — currently ");
    }
    assert(no_start("kept forever"@, tampered_pill())) by {
        reveal_with_fuel(departs_from, 2);
        reveal_strlit("<span class=\"pill warn\">TAMPERED</span>");
        reveal_strlit("kept forever");
    }
    assert(no_start(" days"@, tampered_pill())) by {
        reveal_with_fuel(departs_from, 2);
        reveal_strlit("<span class=\"pill warn\">TAMPERED</span>");
        reveal_strlit(" days");
    }
    assert(no_start(". Each row is HMAC-signed with a key derived from the master key.</p><form method=\"post\" action=\"/gui/audit/retention\" style=\"display:flex;gap:8px;align-items:flex-end\"><div><label style=\"margin-top:0\">Retention (days, blank/0 = keep forever)</label><input name=\"days\" type=\"number\" min=\"0\" value=\""@, tampered_pill())) by {
        reveal_with_fuel(departs_from, 3);
        reveal_strlit("<span class=\"pill warn\">TAMPERED</span>");
        reveal_strlit(". Each row is HMAC-signed with a key derived from the master key.</p><form method=\"post\" action=\"/gui/audit/retention\" style=\"display:flex;gap:8px;align-items:flex-end\"><div><label style=\"margin-top:0\">Retention (days, blank/0 = keep forever)</label><input name=\"days\" type=\"number\" min=\"0\" value=\"");
    }
    assert(no_start("\" placeholder=\"forever\" style=\"width:180px\"></div><button type=\"submit\" style=\"margin:0\">Save</button></form><form method=\"post\" action=\"/gui/audit/prune\" style=\"margin-top:10px\"><button type=\"submit\" class=\"btn-neutral\">Prune now</button><span class=\"muted\"> — delete events older than the retention window.</span></form></div><div class=\"card\"><h2>Most recent 200 events</h2>"@, tampered_pill())) by {
        reveal_with_fuel(departs_from, 15);
        reveal_strlit("<span class=\"pill warn\">TAMPERED</span>");
        reveal_strlit("\" placeholder=\"forever\" style=\"width:180px\"></div><button type=\"submit\" style=\"margin:0\">Save</button></form><form method=\"post\" action=\"/gui/audit/prune\" style=\"margin-top:10px\"><button type=\"submit\" class=\"btn-neutral\">Prune now</button><span class=\"muted\"> — delete events older than the retention window.</span></form></div><div class=\"card\"><h2>Most recent 200 events</h2>");
    }
    assert(no_start("<table><tr><th>Time</th><th>Op</th><th>Vault</th><th>Path</th><th>Actor</th><th>Source IP</th><th>Code</th><th>Integrity</th></tr>"@, tampered_pill())) by {
        reveal_with_fuel(departs_from, 3);
        reveal_strlit("<span class=\"pill warn\">TAMPERED</span>");
        reveal_strlit("<table><tr><th>Time</th><th>Op</th><th>Vault</th><th>Path</th><th>Actor</th><th>Source IP</th><th>Code</th><th>Integrity</th></tr>");
    }
    assert(no_start("<tr><td colspan=\"8\" class=\"muted\">No audit events yet.</td></tr>"@, tampered_pill())) by {
        reveal_with_fuel(departs_from, 3);
        reveal_strlit("<span class=\"pill warn\">TAMPERED</span>");
        reveal_strlit("<tr><td colspan=\"8\" class=\"muted\">No audit events yet.</td></tr>");
    }
    assert(no_start(""@, tampered_pill())) by {
        reveal_with_fuel(departs_from, 2);
        reveal_strlit("<span class=\"pill warn\">TAMPERED</span>");
        reveal_strlit("");
    }
    assert(no_start("</table>"@, tampered_pill())) by {
        reveal_with_fuel(departs_from, 3);
        reveal_strlit("<span class=\"pill warn\">TAMPERED</span>");
        reveal_strlit("</table>");
    }
    assert(no_start("</div>"@, tampered_pill())) by {
        reveal_with_fuel(departs_from, 3);
        reveal_strlit("<span class=\"pill warn\">TAMPERED</span>");
        reveal_strlit("</div>");
    }
}

proof fn lemma_audit_row_pieces_tampered_pill()
    ensures
        no_start("<tr><td class=\"muted\">"@, tampered_pill()),
        no_start("</td><td>"@, tampered_pill()),
        no_start("</td><td class=\"muted\">"@, tampered_pill()),
        no_start("—"@, tampered_pill()),
        no_start("<span class=\"pill ok\">ok</span>"@, tampered_pill()),
        no_start("</td></tr>"@, tampered_pill()),
{
    assert(no_start("<tr><td class=\"muted\">"@, tampered_pill())) by {
        reveal_with_fuel(departs_from, 3);
        reveal_strlit("<span class=\"pill warn\">TAMPERED</span>");
        reveal_strlit("<tr><td class=\"muted\">");
    }
    assert(no_start("</td><td>"@, tampered_pill())) by {
        reveal_with_fuel(departs_from, 3);
        reveal_strlit("<span class=\"pill warn\">TAMPERED</span>");
        reveal_strlit("</td><td>");
    }
    assert(no_start("</td><td class=\"muted\">"@, tampered_pill())) by {
        reveal_with_fuel(departs_from, 3);
        reveal_strlit("<span class=\"pill warn\">TAMPERED</span>");
        reveal_strlit("</td><td class=\"muted\">");
    }
    assert(no_start("—"@, tampered_pill())) by {
        reveal_with_fuel(departs_from, 2);
        reveal_strlit("<span class=\"pill warn\">TAMPERED</span>");
        reveal_strlit("—");
    }
    assert(no_start("<span class=\"pill ok\">ok</span>"@, tampered_pill())) by {
        reveal_with_fuel(departs_from, 20);
        reveal_strlit("<span class=\"pill warn\">TAMPERED</span>");
        reveal_strlit("<span class=\"pill ok\">ok</span>");
    }
    assert(no_start("</td></tr>"@, tampered_pill())) by {
        reveal_with_fuel(departs_from, 3);
        reveal_strlit("<span class=\"pill warn\">TAMPERED</span>");
        reveal_strlit("</td></tr>");
    }
}

proof fn lemma_layout_pieces_member_control(u: Seq<char>)
    ensures
        no_start("<!doctype html><html lang=\"en\"><head><meta charset=\"utf-8\"><meta name=\"viewport\" content=\"width=device-width,initial-scale=1\"><title>"@, member_control(u)),
        no_start(" · EasyVault</title><script>"@, member_control(u)),
        no_start("</script><style>"@, member_control(u)),
        no_start("</style></head><body><header><div class=\"brand\">Easy<span>Vault</span></div><div class=\"right\"><button class=\"link themetoggle\" type=\"button\" onclick=\"evToggleTheme()\" title=\"Toggle light / dark\" aria-label=\"Toggle theme\">◐</button>"@, member_control(u)),
        no_start("</div></header><main>"@, member_control(u)),
        no_start("</main><div class=\"version\">v"@, member_control(u)),
        no_start("</div></body></html>"@, member_control(u)),
        no_start("<a href=\"/gui/account/password\" class=\"muted\" title=\"Account\">"@, member_control(u)),
        no_start("</a> &nbsp;<form method=\"post\" action=\"/gui/logout\" style=\"margin:0;display:inline\"><button class=\"link\" type=\"submit\">Log out</button></form>"@, member_control(u)),
        no_start("<div class=\"err\">"@, member_control(u)),
        no_start("</div>"@, member_control(u)),
        no_start(STYLE@, member_control(u)),
        no_start(THEME_SCRIPT@, member_control(u)),
        no_start(APP_VERSION@, member_control(u)),
{
    lemma_member_control_opening(u);
    assert(no_start("<!doctype html><html lang=\"en\"><head><meta charset=\"utf-8\"><meta name=\"viewport\" content=\"width=device-width,initial-scale=1\"><title>"@, member_control(u))) by {
        reveal_with_fuel(departs_from, 3);
        reveal_strlit("<input type=\"hidden\" name=\"user_id\" value=\"");
        reveal_strlit("<!doctype html><html lang=\"en\"><head><meta charset=\"utf-8\"><meta name=\"viewport\" content=\"width=device-width,initial-scale=1\"><title>");
    }
    assert(no_start(" · EasyVault</title><script>"@, member_control(u))) by {
        reveal_with_fuel(departs_from, 3);
        reveal_strlit("<input type=\"hidden\" name=\"user_id\" value=\"");
        reveal_strlit(" · EasyVault</title><script>");
    }
    assert(no_start("</script><style>"@, member_control(u))) by {
        reveal_with_fuel(departs_from, 3);
        reveal_strlit("<input type=\"hidden\" name=\"user_id\" value=\"");
        reveal_strlit("</script><style>");
    }
    assert(no_start("</style></head><body><header><div class=\"brand\">Easy<span>Vault</span></div><div class=\"right\"><button class=\"link themetoggle\" type=\"button\" onclick=\"evToggleTheme()\" title=\"Toggle light / dark\" aria-label=\"Toggle theme\">◐</button>"@, member_control(u))) by {
        reveal_with_fuel(departs_from, 3);
        reveal_strlit("<input type=\"hidden\" name=\"user_id\" value=\"");
        reveal_strlit("</style></head><body><header><div class=\"brand\">Easy<span>Vault</span></div><div class=\"right\"><button class=\"link themetoggle\" type=\"button\" onclick=\"evToggleTheme()\" title=\"Toggle light / dark\" aria-label=\"Toggle theme\">◐</button>");
    }
    assert(no_start("</div></header><main>"@, member_control(u))) by {
        reveal_with_fuel(departs_from, 3);
        reveal_strlit("<input type=\"hidden\" name=\"user_id\" value=\"");
        reveal_strlit("</div></header><main>");
    }
    assert(no_start("</main><div class=\"version\">v"@, member_control(u))) by {
        reveal_with_fuel(departs_from, 3);
        reveal_strlit("<input type=\"hidden\" name=\"user_id\" value=\"");
        reveal_strlit("</main><div class=\"version\">v");
    }
    assert(no_start("</div></body></html>"@, member_control(u))) by {
        reveal_with_fuel(departs_from, 3);
        reveal_strlit("<input type=\"hidden\" name=\"user_id\" value=\"");
        reveal_strlit("</div></body></html>");
    }
    assert(no_start("<a href=\"/gui/account/password\" class=\"muted\" title=\"Account\">"@, member_control(u))) by {
        reveal_with_fuel(departs_from, 3);
        reveal_strlit("<input type=\"hidden\" name=\"user_id\" value=\"");
        reveal_strlit("<a href=\"/gui/account/password\" class=\"muted\" title=\"Account\">");
    }
    assert(no_start("</a> &nbsp;<form method=\"post\" action=\"/gui/logout\" style=\"margin:0;display:inline\"><button class=\"link\" type=\"submit\">Log out</button></form>"@, member_control(u))) by {
        reveal_with_fuel(departs_from, 3);
        reveal_strlit("<input type=\"hidden\" name=\"user_id\" value=\"");
        reveal_strlit("</a> &nbsp;<form method=\"post\" action=\"/gui/logout\" style=\"margin:0;display:inline\"><button class=\"link\" type=\"submit\">Log out</button></form>");
    }
    assert(no_start("<div class=\"err\">"@, member_control(u))) by {
        reveal_with_fuel(departs_from, 3);
        reveal_strlit("<input type=\"hidden\" name=\"user_id\" value=\"");
        reveal_strlit("<div class=\"err\">");
    }
    assert(no_start("</div>"@, member_control(u))) by {
        reveal_with_fuel(departs_from, 3);
        reveal_strlit("<input type=\"hidden\" name=\"user_id\" value=\"");
        reveal_strlit("</div>");
    }
    reveal_strlit(":root{--bg:#0e1116;--card:#161b22;--border:#30363d;--border-soft:#21262d;--fg:#e6edf3;--muted:#7d8590;--h2:#9da7b3;--link:#58a6ff;--brand:#3fb950;--accent:#238636;--accent-hover:#2ea043;--accent-fg:#fff;--neutral:#30363d;--neutral-fg:#e6edf3;--danger:#b62324;--danger-fg:#fff;--err-bg:#3d1a1d;--err-border:#f85149;--err-fg:#ffa198;--ok-bg:#132e1a;--ok-fg:#3fb950;--ok-border:#238636;--warn-bg:#3d2a12;--warn-fg:#d29922;--warn-border:#9e6a03;color-scheme:dark}[data-theme=light]{--bg:#f6f8fa;--card:#ffffff;--border:#d0d7de;--border-soft:#eaeef2;--fg:#1f2328;--muted:#59636e;--h2:#59636e;--link:#0969da;--brand:#1a7f37;--accent:#1f883d;--accent-hover:#1a7f37;--accent-fg:#fff;--neutral:#eaeef2;--neutral-fg:#1f2328;--danger:#cf222e;--danger-fg:#fff;--err-bg:#ffebe9;--err-border:#cf222e;--err-fg:#82071e;--ok-bg:#dafbe1;--ok-fg:#1a7f37;--ok-border:#1f883d;--warn-bg:#fff8c5;--warn-fg:#9a6700;--warn-border:#d4a72c;color-scheme:light}*{box-sizing:border-box}body{margin:0;font:15px/1.5 system-ui,sans-serif;background:var(--bg);color:var(--fg)}header{display:flex;align-items:center;justify-content:space-between;padding:14px 22px;background:var(--card);border-bottom:1px solid var(--border)}header .brand{font-weight:700;letter-spacing:.3px}header .brand span{color:var(--brand)}header .right{display:flex;align-items:center;gap:14px}main{max-width:880px;margin:40px auto;padding:0 22px}.card{background:var(--card);border:1px solid var(--border);border-radius:10px;padding:24px;margin-bottom:20px}h1{font-size:22px;margin:0 0 6px}h2{font-size:16px;margin:0 0 14px;color:var(--h2)}label{display:block;margin:14px 0 6px;font-size:13px;color:var(--h2)}input,textarea,select{width:100%;padding:10px 12px;border:1px solid var(--border);border-radius:7px;background:var(--bg);color:var(--fg);font-size:14px}textarea{font-family:ui-monospace,monospace}button{margin-top:18px;padding:10px 18px;border:0;border-radius:7px;background:var(--accent);color:var(--accent-fg);font-weight:600;cursor:pointer;font-size:14px}button:hover{filter:brightness(1.08)}button.btn-neutral{background:var(--neutral);color:var(--neutral-fg)}button.btn-danger{background:var(--danger);color:var(--danger-fg)}button.link{background:none;color:var(--link);padding:0;margin:0;font-weight:400}a{color:var(--link);text-decoration:none}a:hover{text-decoration:underline}.err{background:var(--err-bg);border:1px solid var(--err-border);color:var(--err-fg);padding:10px 12px;border-radius:7px;margin-bottom:8px;font-size:14px}.muted{color:var(--muted);font-size:13px}.pill{display:inline-block;padding:2px 10px;border-radius:999px;font-size:12px;font-weight:600}.pill.ok{background:var(--ok-bg);color:var(--ok-fg);border:1px solid var(--ok-border)}.pill.warn{background:var(--warn-bg);color:var(--warn-fg);border:1px solid var(--warn-border)}.grid{display:grid;grid-template-columns:1fr 1fr;gap:14px}.kv{padding:12px 14px;background:var(--bg);border:1px solid var(--border);border-radius:8px}.kv .k{font-size:12px;color:var(--muted)}.kv .v{font-size:15px;margin-top:2px}table{width:100%;border-collapse:collapse;margin-top:10px}th{text-align:left;font-size:12px;color:var(--muted);font-weight:600;padding:8px 10px;border-bottom:1px solid var(--border)}td{padding:9px 10px;border-bottom:1px solid var(--border-soft);font-size:14px;vertical-align:middle}tr:last-child td{border-bottom:0}pre{background:var(--bg);border:1px solid var(--border);border-radius:8px;color:var(--fg)}code{background:var(--bg);border:1px solid var(--border);border-radius:4px;padding:1px 5px;font-size:13px}.themetoggle{font-size:16px;line-height:1;cursor:pointer}.version{position:fixed;bottom:8px;right:12px;font-size:12px;color:var(--muted);opacity:.65}.version a{color:var(--muted)}");
    assert(!STYLE@.contains('<'));
    lemma_plain_no_start(STYLE@, member_control(u));
    reveal_strlit("(function(){try{var t=localStorage.getItem('ev-theme');if(!t){t=window.matchMedia&&window.matchMedia('(prefers-color-scheme: light)').matches?'light':'dark';}document.documentElement.setAttribute('data-theme',t);}catch(e){}})();function evToggleTheme(){var d=document.documentElement;var c=d.getAttribute('data-theme')==='light'?'dark':'light';d.setAttribute('data-theme',c);try{localStorage.setItem('ev-theme',c);}catch(e){}}");
    assert(!THEME_SCRIPT@.contains('<'));
    lemma_plain_no_start(THEME_SCRIPT@, member_control(u));
    reveal_strlit("0.1.5");
    assert(!APP_VERSION@.contains('<'));
    lemma_plain_no_start(APP_VERSION@, member_control(u));
}

proof fn lemma_layout_pieces_user_control(u: Seq<char>, v: Seq<char>)
    ensures
        no_start("<!doctype html><html lang=\"en\"><head><meta charset=\"utf-8\"><meta name=\"viewport\" content=\"width=device-width,initial-scale=1\"><title>"@, user_control(u, v)),
        no_start(" · EasyVault</title><script>"@, user_control(u, v)),
        no_start("</script><style>"@, user_control(u, v)),
        no_start("</style></head><body><header><div class=\"brand\">Easy<span>Vault</span></div><div class=\"right\"><button class=\"link themetoggle\" type=\"button\" onclick=\"evToggleTheme()\" title=\"Toggle light / dark\" aria-label=\"Toggle theme\">◐</button>"@, user_control(u, v)),
        no_start("</div></header><main>"@, user_control(u, v)),
        no_start("</main><div class=\"version\">v"@, user_control(u, v)),
        no_start("</div></body></html>"@, user_control(u, v)),
        no_start("<a href=\"/gui/account/password\" class=\"muted\" title=\"Account\">"@, user_control(u, v)),
        no_start("</a> &nbsp;<form method=\"post\" action=\"/gui/logout\" style=\"margin:0;display:inline\"><button class=\"link\" type=\"submit\">Log out</button></form>"@, user_control(u, v)),
        no_start("<div class=\"err\">"@, user_control(u, v)),
        no_start("</div>"@, user_control(u, v)),
        no_start(STYLE@, user_control(u, v)),
        no_start(THEME_SCRIPT@, user_control(u, v)),
        no_start(APP_VERSION@, user_control(u, v)),
{
    lemma_user_control_opening(u, v);
    assert(no_start("<!doctype html><html lang=\"en\"><head><meta charset=\"utf-8\"><meta name=\"viewport\" content=\"width=device-width,initial-scale=1\"><title>"@, user_control(u, v))) by {
        reveal_with_fuel(departs_from, 3);
        reveal_strlit("<form method=\"post\" action=\"/gui/users/");
        reveal_strlit("<!doctype html><html lang=\"en\"><head><meta charset=\"utf-8\"><meta name=\"viewport\" content=\"width=device-width,initial-scale=1\"><title>");
    }
    assert(no_start(" · EasyVault</title><script>"@, user_control(u, v))) by {
        reveal_with_fuel(departs_from, 3);
        reveal_strlit("<form method=\"post\" action=\"/gui/users/");
        reveal_strlit(" · EasyVault</title><script>");
    }
    assert(no_start("</script><style>"@, user_control(u, v))) by {
        reveal_with_fuel(departs_from, 3);
        reveal_strlit("<form method=\"post\" action=\"/gui/users/");
        reveal_strlit("</script><style>");
    }
    assert(no_start("</style></head><body><header><div class=\"brand\">Easy<span>Vault</span></div><div class=\"right\"><button class=\"link themetoggle\" type=\"button\" onclick=\"evToggleTheme()\" title=\"Toggle light / dark\" aria-label=\"Toggle theme\">◐</button>"@, user_control(u, v))) by {
        reveal_with_fuel(departs_from, 3);
        reveal_strlit("<form method=\"post\" action=\"/gui/users/");
        reveal_strlit("</style></head><body><header><div class=\"brand\">Easy<span>Vault</span></div><div class=\"right\"><button class=\"link themetoggle\" type=\"button\" onclick=\"evToggleTheme()\" title=\"Toggle light / dark\" aria-label=\"Toggle theme\">◐</button>");
    }
    assert(no_start("</div></header><main>"@, user_control(u, v))) by {
        reveal_with_fuel(departs_from, 3);
        reveal_strlit("<form method=\"post\" action=\"/gui/users/");
        reveal_strlit("</div></header><main>");
    }
    assert(no_start("</main><div class=\"version\">v"@, user_control(u, v))) by {
        reveal_with_fuel(departs_from, 3);
        reveal_strlit("<form method=\"post\" action=\"/gui/users/");
        reveal_strlit("</main><div class=\"version\">v");
    }
    assert(no_start("</div></body></html>"@, user_control(u, v))) by {
        reveal_with_fuel(departs_from, 3);
        reveal_strlit("<form method=\"post\" action=\"/gui/users/");
        reveal_strlit("</div></body></html>");
    }
    assert(no_start("<a href=\"/gui/account/password\" class=\"muted\" title=\"Account\">"@, user_control(u, v))) by {
        reveal_with_fuel(departs_from, 3);
        reveal_strlit("<form method=\"post\" action=\"/gui/users/");
        reveal_strlit("<a href=\"/gui/account/password\" class=\"muted\" title=\"Account\">");
    }
    assert(no_start("</a> &nbsp;<form method=\"post\" action=\"/gui/logout\" style=\"margin:0;display:inline\"><button class=\"link\" type=\"submit\">Log out</button></form>"@, user_control(u, v))) by {
        reveal_with_fuel(departs_from, 35);
        reveal_strlit("<form method=\"post\" action=\"/gui/users/");
        reveal_strlit("</a> &nbsp;<form method=\"post\" action=\"/gui/logout\" style=\"margin:0;display:inline\"><button class=\"link\" type=\"submit\">Log out</button></form>");
    }
    assert(no_start("<div class=\"err\">"@, user_control(u, v))) by {
        reveal_with_fuel(departs_from, 3);
        reveal_strlit("<form method=\"post\" action=\"/gui/users/");
        reveal_strlit("<div class=\"err\">");
    }
    assert(no_start("</div>"@, user_control(u, v))) by {
        reveal_with_fuel(departs_from, 3);
        reveal_strlit("<form method=\"post\" action=\"/gui/users/");
        reveal_strlit("</div>");
    }
    reveal_strlit(":root{--bg:#0e1116;--card:#161b22;--border:#30363d;--border-soft:#21262d;--fg:#e6edf3;--muted:#7d8590;--h2:#9da7b3;--link:#58a6ff;--brand:#3fb950;--accent:#238636;--accent-hover:#2ea043;--accent-fg:#fff;--neutral:#30363d;--neutral-fg:#e6edf3;--danger:#b62324;--danger-fg:#fff;--err-bg:#3d1a1d;--err-border:#f85149;--err-fg:#ffa198;--ok-bg:#132e1a;--ok-fg:#3fb950;--ok-border:#238636;--warn-bg:#3d2a12;--warn-fg:#d29922;--warn-border:#9e6a03;color-scheme:dark}[data-theme=light]{--bg:#f6f8fa;--card:#ffffff;--border:#d0d7de;--border-soft:#eaeef2;--fg:#1f2328;--muted:#59636e;--h2:#59636e;--link:#0969da;--brand:#1a7f37;--accent:#1f883d;--accent-hover:#1a7f37;--accent-fg:#fff;--neutral:#eaeef2;--neutral-fg:#1f2328;--danger:#cf222e;--danger-fg:#fff;--err-bg:#ffebe9;--err-border:#cf222e;--err-fg:#82071e;--ok-bg:#dafbe1;--ok-fg:#1a7f37;--ok-border:#1f883d;--warn-bg:#fff8c5;--warn-fg:#9a6700;--warn-border:#d4a72c;color-scheme:light}*{box-sizing:border-box}body{margin:0;font:15px/1.5 system-ui,sans-serif;background:var(--bg);color:var(--fg)}header{display:flex;align-items:center;justify-content:space-between;padding:14px 22px;background:var(--card);border-bottom:1px solid var(--border)}header .brand{font-weight:700;letter-spacing:.3px}header .brand span{color:var(--brand)}header .right{display:flex;align-items:center;gap:14px}main{max-width:880px;margin:40px auto;padding:0 22px}.card{background:var(--card);border:1px solid var(--border);border-radius:10px;padding:24px;margin-bottom:20px}h1{font-size:22px;margin:0 0 6px}h2{font-size:16px;margin:0 0 14px;color:var(--h2)}label{display:block;margin:14px 0 6px;font-size:13px;color:var(--h2)}input,textarea,select{width:100%;padding:10px 12px;border:1px solid var(--border);border-radius:7px;background:var(--bg);color:var(--fg);font-size:14px}textarea{font-family:ui-monospace,monospace}button{margin-top:18px;padding:10px 18px;border:0;border-radius:7px;background:var(--accent);color:var(--accent-fg);font-weight:600;cursor:pointer;font-size:14px}button:hover{filter:brightness(1.08)}button.btn-neutral{background:var(--neutral);color:var(--neutral-fg)}button.btn-danger{background:var(--danger);color:var(--danger-fg)}button.link{background:none;color:var(--link);padding:0;margin:0;font-weight:400}a{color:var(--link);text-decoration:none}a:hover{text-decoration:underline}.err{background:var(--err-bg);border:1px solid var(--err-border);color:var(--err-fg);padding:10px 12px;border-radius:7px;margin-bottom:8px;font-size:14px}.muted{color:var(--muted);font-size:13px}.pill{display:inline-block;padding:2px 10px;border-radius:999px;font-size:12px;font-weight:600}.pill.ok{background:var(--ok-bg);color:var(--ok-fg);border:1px solid var(--ok-border)}.pill.warn{background:var(--warn-bg);color:var(--warn-fg);border:1px solid var(--warn-border)}.grid{display:grid;grid-template-columns:1fr 1fr;gap:14px}.kv{padding:12px 14px;background:var(--bg);border:1px solid var(--border);border-radius:8px}.kv .k{font-size:12px;color:var(--muted)}.kv .v{font-size:15px;margin-top:2px}table{width:100%;border-collapse:collapse;margin-top:10px}th{text-align:left;font-size:12px;color:var(--muted);font-weight:600;padding:8px 10px;border-bottom:1px solid var(--border)}td{padding:9px 10px;border-bottom:1px solid var(--border-soft);font-size:14px;vertical-align:middle}tr:last-child td{border-bottom:0}pre{background:var(--bg);border:1px solid var(--border);border-radius:8px;color:var(--fg)}code{background:var(--bg);border:1px solid var(--border);border-radius:4px;padding:1px 5px;font-size:13px}.themetoggle{font-size:16px;line-height:1;cursor:pointer}.version{position:fixed;bottom:8px;right:12px;font-size:12px;color:var(--muted);opacity:.65}.version a{color:var(--muted)}");
    assert(!STYLE@.contains('<'));
    lemma_plain_no_start(STYLE@, user_control(u, v));
    reveal_strlit("(function(){try{var t=localStorage.getItem('ev-theme');if(!t){t=window.matchMedia&&window.matchMedia('(prefers-color-scheme: light)').matches?'light':'dark';}document.documentElement.setAttribute('data-theme',t);}catch(e){}})();function evToggleTheme(){var d=document.documentElement;var c=d.getAttribute('data-theme')==='light'?'dark':'light';d.setAttribute('data-theme',c);try{localStorage.setItem('ev-theme',c);}catch(e){}}");
    assert(!THEME_SCRIPT@.contains('<'));
    lemma_plain_no_start(THEME_SCRIPT@, user_control(u, v));
    reveal_strlit("0.1.5");
    assert(!APP_VERSION@.contains('<'));
    lemma_plain_no_start(APP_VERSION@, user_control(u, v));
}

proof fn lemma_users_pieces_user_control(u: Seq<char>, v: Seq<char>)
    ensures
        no_start("Users"@, user_control(u, v)),
        no_start("<p><a href=\"/gui/\">&larr; Dashboard</a></p><div class=\"card\"><h1>Users</h1>"@, user_control(u, v)),
        no_start("<table><tr><th>Username</th><th>Role</th><th>State</th><th></th></tr>"@, user_control(u, v)),
        no_start("</table>"@, user_control(u, v)),
        no_start("</div><div class=\"card\"><h2>Add user</h2><form method=\"post\" action=\"/gui/users\"><label>Username</label><input name=\"username\" required><label>Password</label><input name=\"password\" type=\"password\" required><p class=\"muted\">Creates a standard (non-master) user.</p><button type=\"submit\">Create user</button></form></div>"@, user_control(u, v)),
        no_start("<span class=\"pill ok\">master</span>"@, user_control(u, v)),
        no_start("<span class=\"pill warn\">user</span>"@, user_control(u, v)),
{
    lemma_user_control_opening(u, v);
    assert(no_start("Users"@, user_control(u, v))) by {
        reveal_with_fuel(departs_from, 2);
        reveal_strlit("<form method=\"post\" action=\"/gui/users/");
        reveal_strlit("Users");
    }
    assert(no_start("<p><a href=\"/gui/\">&larr; Dashboard</a></p><div class=\"card\"><h1>Users</h1>"@, user_control(u, v))) by {
        reveal_with_fuel(departs_from, 3);
        reveal_strlit("<form method=\"post\" action=\"/gui/users/");
        reveal_strlit("<p><a href=\"/gui/\">&larr; Dashboard</a></p><div class=\"card\"><h1>Users</h1>");
    }
    assert(no_start("<table><tr><th>Username</th><th>Role</th><th>State</th><th></th></tr>"@, user_control(u, v))) by {
        reveal_with_fuel(departs_from, 3);
        reveal_strlit("<form method=\"post\" action=\"/gui/users/");
        reveal_strlit("<table><tr><th>Username</th><th>Role</th><th>State</th><th></th></tr>");
    }
    assert(no_start("</table>"@, user_control(u, v))) by {
        reveal_with_fuel(departs_from, 3);
        reveal_strlit("<form method=\"post\" action=\"/gui/users/");
        reveal_strlit("</table>");
    }
    assert(no_start("</div><div class=\"card\"><h2>Add user</h2><form method=\"post\" action=\"/gui/users\"><label>Username</label><input name=\"username\" required><label>Password</label><input name=\"password\" type=\"password\" required><p class=\"muted\">Creates a standard (non-master) user.</p><button type=\"submit\">Create user</button></form></div>"@, user_control(u, v))) by {
        reveal_with_fuel(departs_from, 40);
        reveal_strlit("<form method=\"post\" action=\"/gui/users/");
        reveal_strlit("</div><div class=\"card\"><h2>Add user</h2><form method=\"post\" action=\"/gui/users\"><label>Username</label><input name=\"username\" required><label>Password</label><input name=\"password\" type=\"password\" required><p class=\"muted\">Creates a standard (non-master) user.</p><button type=\"submit\">Create user</button></form></div>");
    }
    assert(no_start("<span class=\"pill ok\">master</span>"@, user_control(u, v))) by {
        reveal_with_fuel(departs_from, 3);
        reveal_strlit("<form method=\"post\" action=\"/gui/users/");
        reveal_strlit("<span class=\"pill ok\">master</span>");
    }
    assert(no_start("<span class=\"pill warn\">user</span>"@, user_control(u, v))) by {
        reveal_with_fuel(departs_from, 3);
        reveal_strlit("<form method=\"post\" action=\"/gui/users/");
        reveal_strlit("<span class=\"pill warn\">user</span>");
    }
}

proof fn lemma_user_row_pieces_user_control(u: Seq<char>, v: Seq<char>)
    ensures
        no_start("<tr><td>"@, user_control(u, v)),
        no_start("</td><td>"@, user_control(u, v)),
        no_start("<span class=\"pill ok\">active</span>"@, user_control(u, v)),
        no_start("<span class=\"pill warn\">disabled</span>"@, user_control(u, v)),
        no_start("/disable\" style=\"margin:0\"><button class=\"link\" type=\"submit\">disable</button></form>"@, user_control(u, v)),
        no_start("/enable\" style=\"margin:0\"><button class=\"link\" type=\"submit\">enable</button></form>"@, user_control(u, v)),
        no_start("</td></tr>"@, user_control(u, v)),
        no_start("<span class=\"pill ok\">master</span>"@, user_control(u, v)),
        no_start("<span class=\"pill warn\">user</span>"@, user_control(u, v)),
{
    lemma_user_control_opening(u, v);
    assert(no_start("<tr><td>"@, user_control(u, v))) by {
        reveal_with_fuel(departs_from, 3);
        reveal_strlit("<form method=\"post\" action=\"/gui/users/");
        reveal_strlit("<tr><td>");
    }
    assert(no_start("</td><td>"@, user_control(u, v))) by {
        reveal_with_fuel(departs_from, 3);
        reveal_strlit("<form method=\"post\" action=\"/gui/users/");
        reveal_strlit("</td><td>");
    }
    assert(no_start("<span class=\"pill ok\">active</span>"@, user_control(u, v))) by {
        reveal_with_fuel(departs_from, 3);
        reveal_strlit("<form method=\"post\" action=\"/gui/users/");
        reveal_strlit("<span class=\"pill ok\">active</span>");
    }
    assert(no_start("<span class=\"pill warn\">disabled</span>"@, user_control(u, v))) by {
        reveal_with_fuel(departs_from, 3);
        reveal_strlit("<form method=\"post\" action=\"/gui/users/");
        reveal_strlit("<span class=\"pill warn\">disabled</span>");
    }
    assert(no_start("/disable\" style=\"margin:0\"><button class=\"link\" type=\"submit\">disable</button></form>"@, user_control(u, v))) by {
        reveal_with_fuel(departs_from, 3);
        reveal_strlit("<form method=\"post\" action=\"/gui/users/");
        reveal_strlit("/disable\" style=\"margin:0\"><button class=\"link\" type=\"submit\">disable</button></form>");
    }
    assert(no_start("/enable\" style=\"margin:0\"><button class=\"link\" type=\"submit\">enable</button></form>"@, user_control(u, v))) by {
        reveal_with_fuel(departs_from, 3);
        reveal_strlit("<form method=\"post\" action=\"/gui/users/");
        reveal_strlit("/enable\" style=\"margin:0\"><button class=\"link\" type=\"submit\">enable</button></form>");
    }
    assert(no_start("</td></tr>"@, user_control(u, v))) by {
        reveal_with_fuel(departs_from, 3);
        reveal_strlit("<form method=\"post\" action=\"/gui/users/");
        reveal_strlit("</td></tr>");
    }
    assert(no_start("<span class=\"pill ok\">master</span>"@, user_control(u, v))) by {
        reveal_with_fuel(departs_from, 3);
        reveal_strlit("<form method=\"post\" action=\"/gui/users/");
        reveal_strlit("<span class=\"pill ok\">master</span>");
    }
    assert(no_start("<span class=\"pill warn\">user</span>"@, user_control(u, v))) by {
        reveal_with_fuel(departs_from, 3);
        reveal_strlit("<form method=\"post\" action=\"/gui/users/");
        reveal_strlit("<span class=\"pill warn\">user</span>");
    }
}

proof fn lemma_settings_pieces_member_control(u: Seq<char>)
    ensures
        no_start("<p><a href=\"/gui/vaults/"@, member_control(u)),
        no_start("\">&larr; "@, member_control(u)),
        no_start("</a></p>"@, member_control(u)),
        no_start("<div class=\"card\"><h1>"@, member_control(u)),
        no_start(" — settings</h1></div><div class=\"card\"><h2>Access</h2>"@, member_control(u)),
        no_start("<table><tr><th>User</th><th>Role</th><th>Granted</th><th></th></tr>"@, member_control(u)),
        no_start("</table>"@, member_control(u)),
        no_start("<form method=\"post\" action=\"/gui/vaults/"@, member_control(u)),
        no_start("/assign\" style=\"display:flex;gap:8px;align-items:flex-end;margin-top:8px\"><div style=\"flex:1\"><label style=\"margin-top:0\">Assign username</label><input name=\"username\" required></div><div><label style=\"margin-top:0\">Role</label><select name=\"role\" style=\"padding:10px 12px;border:1px solid var(--border);border-radius:7px;background:var(--bg);color:var(--fg)\"><option value=\"viewer\">viewer</option><option value=\"editor\">editor</option><option value=\"admin\">admin</option></select></div><button type=\"submit\" style=\"margin:0\">Assign</button></form>"@, member_control(u)),
        no_start("</div><div class=\"card\"><h2>Key rotation</h2><p class=\"muted\">Generate a new vault key, re-encrypt every secret, and re-wrap the key for all members and live tokens.</p><form method=\"post\" action=\"/gui/vaults/"@, member_control(u)),
        no_start("/rotate\"><button type=\"submit\" class=\"btn-neutral\">Rotate vault key</button></form></div>"@, member_control(u)),
        no_start("<span class=\"pill "@, member_control(u)),
        no_start("viewer"@, member_control(u)),
        no_start("warn"@, member_control(u)),
        no_start("ok"@, member_control(u)),
        no_start("\">"@, member_control(u)),
        no_start("</span>"@, member_control(u)),
{
    lemma_member_control_opening(u);
    assert(no_start("<p><a href=\"/gui/vaults/"@, member_control(u))) by {
        reveal_with_fuel(departs_from, 3);
        reveal_strlit("<input type=\"hidden\" name=\"user_id\" value=\"");
        reveal_strlit("<p><a href=\"/gui/vaults/");
    }
    assert(no_start("\">&larr; "@, member_control(u))) by {
        reveal_with_fuel(departs_from, 2);
        reveal_strlit("<input type=\"hidden\" name=\"user_id\" value=\"");
        reveal_strlit("\">&larr; ");
    }
    assert(no_start("</a></p>"@, member_control(u))) by {
        reveal_with_fuel(departs_from, 3);
        reveal_strlit("<input type=\"hidden\" name=\"user_id\" value=\"");
        reveal_strlit("</a></p>");
    }
    assert(no_start("<div class=\"card\"><h1>"@, member_control(u))) by {
        reveal_with_fuel(departs_from, 3);
        reveal_strlit("<input type=\"hidden\" name=\"user_id\" value=\"");
        reveal_strlit("<div class=\"card\"><h1>");
    }
    assert(no_start(" — settings</h1></div><div class=\"card\"><h2>Access</h2>"@, member_control(u))) by {
        reveal_with_fuel(departs_from, 3);
        reveal_strlit("<input type=\"hidden\" name=\"user_id\" value=\"");
        reveal_strlit(" — settings</h1></div><div class=\"card\"><h2>Access</h2>");
    }
    assert(no_start("<table><tr><th>User</th><th>Role</th><th>Granted</th><th></th></tr>"@, member_control(u))) by {
        reveal_with_fuel(departs_from, 3);
        reveal_strlit("<input type=\"hidden\" name=\"user_id\" value=\"");
        reveal_strlit("<table><tr><th>User</th><th>Role</th><th>Granted</th><th></th></tr>");
    }
    assert(no_start("</table>"@, member_control(u))) by {
        reveal_with_fuel(departs_from, 3);
        reveal_strlit("<input type=\"hidden\" name=\"user_id\" value=\"");
        reveal_strlit("</table>");
    }
    assert(no_start("<form method=\"post\" action=\"/gui/vaults/"@, member_control(u))) by {
        reveal_with_fuel(departs_from, 3);
        reveal_strlit("<input type=\"hidden\" name=\"user_id\" value=\"");
        reveal_strlit("<form method=\"post\" action=\"/gui/vaults/");
    }
    assert(no_start("/assign\" style=\"display:flex;gap:8px;align-items:flex-end;margin-top:8px\"><div style=\"flex:1\"><label style=\"margin-top:0\">Assign username</label><input name=\"username\" required></div><div><label style=\"margin-top:0\">Role</label><select name=\"role\" style=\"padding:10px 12px;border:1px solid var(--border);border-radius:7px;background:var(--bg);color:var(--fg)\"><option value=\"viewer\">viewer</option><option value=\"editor\">editor</option><option value=\"admin\">admin</option></select></div><button type=\"submit\" style=\"margin:0\">Assign</button></form>"@, member_control(u))) by {
        reveal_with_fuel(departs_from, 9);
        reveal_strlit("<input type=\"hidden\" name=\"user_id\" value=\"");
        reveal_strlit("/assign\" style=\"display:flex;gap:8px;align-items:flex-end;margin-top:8px\"><div style=\"flex:1\"><label style=\"margin-top:0\">Assign username</label><input name=\"username\" required></div><div><label style=\"margin-top:0\">Role</label><select name=\"role\" style=\"padding:10px 12px;border:1px solid var(--border);border-radius:7px;background:var(--bg);color:var(--fg)\"><option value=\"viewer\">viewer</option><option value=\"editor\">editor</option><option value=\"admin\">admin</option></select></div><button type=\"submit\" style=\"margin:0\">Assign</button></form>");
    }
    assert(no_start("</div><div class=\"card\"><h2>Key rotation</h2><p class=\"muted\">Generate a new vault key, re-encrypt every secret, and re-wrap the key for all members and live tokens.</p><form method=\"post\" action=\"/gui/vaults/"@, member_control(u))) by {
        reveal_with_fuel(departs_from, 3);
        reveal_strlit("<input type=\"hidden\" name=\"user_id\" value=\"");
        reveal_strlit("</div><div class=\"card\"><h2>Key rotation</h2><p class=\"muted\">Generate a new vault key, re-encrypt every secret, and re-wrap the key for all members and live tokens.</p><form method=\"post\" action=\"/gui/vaults/");
    }
    assert(no_start("/rotate\"><button type=\"submit\" class=\"btn-neutral\">Rotate vault key</button></form></div>"@, member_control(u))) by {
        reveal_with_fuel(departs_from, 3);
        reveal_strlit("<input type=\"hidden\" name=\"user_id\" value=\"");
        reveal_strlit("/rotate\"><button type=\"submit\" class=\"btn-neutral\">Rotate vault key</button></form></div>");
    }
    assert(no_start("<span class=\"pill "@, member_control(u))) by {
        reveal_with_fuel(departs_from, 3);
        reveal_strlit("<input type=\"hidden\" name=\"user_id\" value=\"");
        reveal_strlit("<span class=\"pill ");
    }
    assert(no_start("viewer"@, member_control(u))) by {
        reveal_with_fuel(departs_from, 2);
        reveal_strlit("<input type=\"hidden\" name=\"user_id\" value=\"");
        reveal_strlit("viewer");
    }
    assert(no_start("warn"@, member_control(u))) by {
        reveal_with_fuel(departs_from, 2);
        reveal_strlit("<input type=\"hidden\" name=\"user_id\" value=\"");
        reveal_strlit("warn");
    }
    assert(no_start("ok"@, member_control(u))) by {
        reveal_with_fuel(departs_from, 2);
        reveal_strlit("<input type=\"hidden\" name=\"user_id\" value=\"");
        reveal_strlit("ok");
    }
    assert(no_start("\">"@, member_control(u))) by {
        reveal_with_fuel(departs_from, 2);
        reveal_strlit("<input type=\"hidden\" name=\"user_id\" value=\"");
        reveal_strlit("\">");
    }
    assert(no_start("</span>"@, member_control(u))) by {
        reveal_with_fuel(departs_from, 3);
        reveal_strlit("<input type=\"hidden\" name=\"user_id\" value=\"");
        reveal_strlit("</span>");
    }
}

proof fn lemma_member_row_pieces_member_control(u: Seq<char>)
    ensures
        no_start("<tr><td>"@, member_control(u)),
        no_start("</td><td>"@, member_control(u)),
        no_start("</td><td class=\"muted\">"@, member_control(u)),
        no_start("<form method=\"post\" action=\"/gui/vaults/"@, member_control(u)),
        no_start("\"><button class=\"link\" type=\"submit\">revoke</button></form>"@, member_control(u)),
        no_start("</td></tr>"@, member_control(u)),
{
    lemma_member_control_opening(u);
    assert(no_start("<tr><td>"@, member_control(u))) by {
        reveal_with_fuel(departs_from, 3);
        reveal_strlit("<input type=\"hidden\" name=\"user_id\" value=\"");
        reveal_strlit("<tr><td>");
    }
    assert(no_start("</td><td>"@, member_control(u))) by {
        reveal_with_fuel(departs_from, 3);
        reveal_strlit("<input type=\"hidden\" name=\"user_id\" value=\"");
        reveal_strlit("</td><td>");
    }
    assert(no_start("</td><td class=\"muted\">"@, member_control(u))) by {
        reveal_with_fuel(departs_from, 3);
        reveal_strlit("<input type=\"hidden\" name=\"user_id\" value=\"");
        reveal_strlit("</td><td class=\"muted\">");
    }
    assert(no_start("<form method=\"post\" action=\"/gui/vaults/"@, member_control(u))) by {
        reveal_with_fuel(departs_from, 3);
        reveal_strlit("<input type=\"hidden\" name=\"user_id\" value=\"");
        reveal_strlit("<form method=\"post\" action=\"/gui/vaults/");
    }
    assert(no_start("\"><button class=\"link\" type=\"submit\">revoke</button></form>"@, member_control(u))) by {
        reveal_with_fuel(departs_from, 3);
        reveal_strlit("<input type=\"hidden\" name=\"user_id\" value=\"");
        reveal_strlit("\"><button class=\"link\" type=\"submit\">revoke</button></form>");
    }
    assert(no_start("</td></tr>"@, member_control(u))) by {
        reveal_with_fuel(departs_from, 3);
        reveal_strlit("<input type=\"hidden\" name=\"user_id\" value=\"");
        reveal_strlit("</td></tr>");
    }
}

// ─────────────────────────────────────────────────────────────────────────────
// The fixed fragments that show a control or note whole
// ─────────────────────────────────────────────────────────────────────────────

proof fn lemma_dashboard_holds_sealed_note()
    ensures
        contains_text("<p class=\"muted\">The instance is sealed — vault and secret operations are blocked until it is unsealed via <code>/v1/sys/unseal</code>.</p>"@, sealed_note()),
{
    let pre = ""@;
    let post = ""@;
    assert("<p class=\"muted\">The instance is sealed — vault and secret operations are blocked until it is unsealed via <code>/v1/sys/unseal</code>.</p>"@ =~= pre + sealed_note() + post) by {
        reveal_strlit("<p class=\"muted\">The instance is sealed — vault and secret operations are blocked until it is unsealed via <code>/v1/sys/unseal</code>.</p>");
        reveal_strlit("");
        reveal_strlit("");
        reveal_strlit("<p class=\"muted\">The instance is sealed — vault and secret operations are blocked until it is unsealed via <code>/v1/sys/unseal</code>.</p>");
    }
    lemma_contains_self(sealed_note());
    lemma_contains_after(pre, sealed_note(), sealed_note());
    lemma_contains_before(pre + sealed_note(), post, sealed_note());
}

proof fn lemma_dashboard_holds_manage_users_link()
    ensures
        contains_text("<p style=\"margin-top:14px\"><a href=\"/gui/users\">Manage users &rarr;</a> &nbsp;·&nbsp; <a href=\"/gui/audit\">Audit log &rarr;</a></p>"@, manage_users_link()),
{
    let pre = "<p style=\"margin-top:14px\">"@;
    let post = " &nbsp;·&nbsp; <a href=\"/gui/audit\">Audit log &rarr;</a></p>"@;
    assert("<p style=\"margin-top:14px\"><a href=\"/gui/users\">Manage users &rarr;</a> &nbsp;·&nbsp; <a href=\"/gui/audit\">Audit log &rarr;</a></p>"@ =~= pre + manage_users_link() + post) by {
        reveal_strlit("<p style=\"margin-top:14px\"><a href=\"/gui/users\">Manage users &rarr;</a> &nbsp;·&nbsp; <a href=\"/gui/audit\">Audit log &rarr;</a></p>");
        reveal_strlit("<p style=\"margin-top:14px\">");
        reveal_strlit(" &nbsp;·&nbsp; <a href=\"/gui/audit\">Audit log &rarr;</a></p>");
        reveal_strlit("<a href=\"/gui/users\">Manage users &rarr;</a>");
    }
    lemma_contains_self(manage_users_link());
    lemma_contains_after(pre, manage_users_link(), manage_users_link());
    lemma_contains_before(pre + manage_users_link(), post, manage_users_link());
}

proof fn lemma_dashboard_holds_audit_log_link()
    ensures
        contains_text("<p style=\"margin-top:14px\"><a href=\"/gui/users\">Manage users &rarr;</a> &nbsp;·&nbsp; <a href=\"/gui/audit\">Audit log &rarr;</a></p>"@, audit_log_link()),
{
    let pre = "<p style=\"margin-top:14px\"><a href=\"/gui/users\">Manage users &rarr;</a> &nbsp;·&nbsp; "@;
    let post = "</p>"@;
    assert("<p style=\"margin-top:14px\"><a href=\"/gui/users\">Manage users &rarr;</a> &nbsp;·&nbsp; <a href=\"/gui/audit\">Audit log &rarr;</a></p>"@ =~= pre + audit_log_link() + post) by {
        reveal_strlit("<p style=\"margin-top:14px\"><a href=\"/gui/users\">Manage users &rarr;</a> &nbsp;·&nbsp; <a href=\"/gui/audit\">Audit log &rarr;</a></p>");
        reveal_strlit("<p style=\"margin-top:14px\"><a href=\"/gui/users\">Manage users &rarr;</a> &nbsp;·&nbsp; ");
        reveal_strlit("</p>");
        reveal_strlit("<a href=\"/gui/audit\">Audit log &rarr;</a>");
    }
    lemma_contains_self(audit_log_link());
    lemma_contains_after(pre, audit_log_link(), audit_log_link());
    lemma_contains_before(pre + audit_log_link(), post, audit_log_link());
}

proof fn lemma_dashboard_holds_seal_button()
    ensures
        contains_text("<form method=\"post\" action=\"/gui/seal\" style=\"margin-top:10px\" onsubmit=\"return confirm('Seal the instance? All secret access stops until it is unsealed again.');\"><button type=\"submit\" class=\"btn-danger\">Seal instance</button><span class=\"muted\"> — drops the master key from memory.</span></form>"@, seal_button()),
{
    let pre = "<form method=\"post\" action=\"/gui/seal\" style=\"margin-top:10px\" onsubmit=\"return confirm('Seal the instance? All secret access stops until it is unsealed again.');\">"@;
    let post = "<span class=\"muted\"> — drops the master key from memory.</span></form>"@;
    assert("<form method=\"post\" action=\"/gui/seal\" style=\"margin-top:10px\" onsubmit=\"return confirm('Seal the instance? All secret access stops until it is unsealed again.');\"><button type=\"submit\" class=\"btn-danger\">Seal instance</button><span class=\"muted\"> — drops the master key from memory.</span></form>"@ =~= pre + seal_button() + post) by {
        reveal_strlit("<form method=\"post\" action=\"/gui/seal\" style=\"margin-top:10px\" onsubmit=\"return confirm('Seal the instance? All secret access stops until it is unsealed again.');\"><button type=\"submit\" class=\"btn-danger\">Seal instance</button><span class=\"muted\"> — drops the master key from memory.</span></form>");
        reveal_strlit("<form method=\"post\" action=\"/gui/seal\" style=\"margin-top:10px\" onsubmit=\"return confirm('Seal the instance? All secret access stops until it is unsealed again.');\">");
        reveal_strlit("<span class=\"muted\"> — drops the master key from memory.</span></form>");
        reveal_strlit("<button type=\"submit\" class=\"btn-danger\">Seal instance</button>");
    }
    lemma_contains_self(seal_button());
    lemma_contains_after(pre, seal_button(), seal_button());
    lemma_contains_before(pre + seal_button(), post, seal_button());
}

proof fn lemma_dashboard_holds_new_vault_button()
    ensures
        contains_text("<a href=\"/gui/vaults/new\"><button type=\"button\">New vault</button></a>"@, new_vault_button()),
{
    let pre = "<a href=\"/gui/vaults/new\">"@;
    let post = "</a>"@;
    assert("<a href=\"/gui/vaults/new\"><button type=\"button\">New vault</button></a>"@ =~= pre + new_vault_button() + post) by {
        reveal_strlit("<a href=\"/gui/vaults/new\"><button type=\"button\">New vault</button></a>");
        reveal_strlit("<a href=\"/gui/vaults/new\">");
        reveal_strlit("</a>");
        reveal_strlit("<button type=\"button\">New vault</button>");
    }
    lemma_contains_self(new_vault_button());
    lemma_contains_after(pre, new_vault_button(), new_vault_button());
    lemma_contains_before(pre + new_vault_button(), post, new_vault_button());
}

proof fn lemma_vault_detail_holds_add_secret_button()
    ensures
        contains_text("/secret/new\"><button type=\"button\">Add secret</button></a>"@, add_secret_button()),
{
    let pre = "/secret/new\">"@;
    let post = "</a>"@;
    assert("/secret/new\"><button type=\"button\">Add secret</button></a>"@ =~= pre + add_secret_button() + post) by {
        reveal_strlit("/secret/new\"><button type=\"button\">Add secret</button></a>");
        reveal_strlit("/secret/new\">");
        reveal_strlit("</a>");
        reveal_strlit("<button type=\"button\">Add secret</button>");
    }
    lemma_contains_self(add_secret_button());
    lemma_contains_after(pre, add_secret_button(), add_secret_button());
    lemma_contains_before(pre + add_secret_button(), post, add_secret_button());
}

proof fn lemma_vault_detail_holds_tokens_button()
    ensures
        contains_text("/tokens\"><button type=\"button\" class=\"btn-neutral\">Tokens</button></a> <a href=\"/gui/vaults/"@, tokens_button()),
{
    let pre = "/tokens\">"@;
    let post = "</a> <a href=\"/gui/vaults/"@;
    assert("/tokens\"><button type=\"button\" class=\"btn-neutral\">Tokens</button></a> <a href=\"/gui/vaults/"@ =~= pre + tokens_button() + post) by {
        reveal_strlit("/tokens\"><button type=\"button\" class=\"btn-neutral\">Tokens</button></a> <a href=\"/gui/vaults/");
        reveal_strlit("/tokens\">");
        reveal_strlit("</a> <a href=\"/gui/vaults/");
        reveal_strlit("<button type=\"button\" class=\"btn-neutral\">Tokens</button>");
    }
    lemma_contains_self(tokens_button());
    lemma_contains_after(pre, tokens_button(), tokens_button());
    lemma_contains_before(pre + tokens_button(), post, tokens_button());
}

proof fn lemma_vault_detail_holds_approles_button()
    ensures
        contains_text("/approles\"><button type=\"button\" class=\"btn-neutral\">AppRoles</button></a> <a href=\"/gui/vaults/"@, approles_button()),
{
    let pre = "/approles\">"@;
    let post = "</a> <a href=\"/gui/vaults/"@;
    assert("/approles\"><button type=\"button\" class=\"btn-neutral\">AppRoles</button></a> <a href=\"/gui/vaults/"@ =~= pre + approles_button() + post) by {
        reveal_strlit("/approles\"><button type=\"button\" class=\"btn-neutral\">AppRoles</button></a> <a href=\"/gui/vaults/");
        reveal_strlit("/approles\">");
        reveal_strlit("</a> <a href=\"/gui/vaults/");
        reveal_strlit("<button type=\"button\" class=\"btn-neutral\">AppRoles</button>");
    }
    lemma_contains_self(approles_button());
    lemma_contains_after(pre, approles_button(), approles_button());
    lemma_contains_before(pre + approles_button(), post, approles_button());
}

proof fn lemma_vault_detail_holds_settings_button()
    ensures
        contains_text("/settings\"><button type=\"button\" class=\"btn-neutral\">Settings</button></a>"@, settings_button()),
{
    let pre = "/settings\">"@;
    let post = "</a>"@;
    assert("/settings\"><button type=\"button\" class=\"btn-neutral\">Settings</button></a>"@ =~= pre + settings_button() + post) by {
        reveal_strlit("/settings\"><button type=\"button\" class=\"btn-neutral\">Settings</button></a>");
        reveal_strlit("/settings\">");
        reveal_strlit("</a>");
        reveal_strlit("<button type=\"button\" class=\"btn-neutral\">Settings</button>");
    }
    lemma_contains_self(settings_button());
    lemma_contains_after(pre, settings_button(), settings_button());
    lemma_contains_before(pre + settings_button(), post, settings_button());
}

proof fn lemma_vault_detail_holds_secret_list_heading()
    ensures
        contains_text("<div class=\"card\"><div style=\"display:flex;justify-content:space-between;align-items:center\"><h2 style=\"margin:0\">Secrets</h2>"@, secret_list_heading()),
{
    let pre = "<div class=\"card\"><div style=\"display:flex;justify-content:space-between;align-items:center\">"@;
    let post = ""@;
    assert("<div class=\"card\"><div style=\"display:flex;justify-content:space-between;align-items:center\"><h2 style=\"margin:0\">Secrets</h2>"@ =~= pre + secret_list_heading() + post) by {
        reveal_strlit("<div class=\"card\"><div style=\"display:flex;justify-content:space-between;align-items:center\"><h2 style=\"margin:0\">Secrets</h2>");
        reveal_strlit("<div class=\"card\"><div style=\"display:flex;justify-content:space-between;align-items:center\">");
        reveal_strlit("");
        reveal_strlit("<h2 style=\"margin:0\">Secrets</h2>");
    }
    lemma_contains_self(secret_list_heading());
    lemma_contains_after(pre, secret_list_heading(), secret_list_heading());
    lemma_contains_before(pre + secret_list_heading(), post, secret_list_heading());
}

proof fn lemma_vault_detail_holds_no_read_note()
    ensures
        contains_text("<div class=\"card\"><h2>Secrets</h2><p class=\"muted\">You manage access to this vault but cannot read its secret contents.</p></div>"@, no_read_note()),
{
    let pre = "<div class=\"card\">"@;
    let post = "</div>"@;
    assert("<div class=\"card\"><h2>Secrets</h2><p class=\"muted\">You manage access to this vault but cannot read its secret contents.</p></div>"@ =~= pre + no_read_note() + post) by {
        reveal_strlit("<div class=\"card\"><h2>Secrets</h2><p class=\"muted\">You manage access to this vault but cannot read its secret contents.</p></div>");
        reveal_strlit("<div class=\"card\">");
        reveal_strlit("</div>");
        reveal_strlit("<h2>Secrets</h2><p class=\"muted\">You manage access to this vault but cannot read its secret contents.</p>");
    }
    lemma_contains_self(no_read_note());
    lemma_contains_after(pre, no_read_note(), no_read_note());
    lemma_contains_before(pre + no_read_note(), post, no_read_note());
}

proof fn lemma_tokens_holds_create_token_heading()
    ensures
        contains_text("<div class=\"card\"><h2>Create token</h2><form method=\"post\" action=\"/gui/vaults/"@, create_token_heading()),
{
    let pre = "<div class=\"card\">"@;
    let post = "<form method=\"post\" action=\"/gui/vaults/"@;
    assert("<div class=\"card\"><h2>Create token</h2><form method=\"post\" action=\"/gui/vaults/"@ =~= pre + create_token_heading() + post) by {
        reveal_strlit("<div class=\"card\"><h2>Create token</h2><form method=\"post\" action=\"/gui/vaults/");
        reveal_strlit("<div class=\"card\">");
        reveal_strlit("<form method=\"post\" action=\"/gui/vaults/");
        reveal_strlit("<h2>Create token</h2>");
    }
    lemma_contains_self(create_token_heading());
    lemma_contains_after(pre, create_token_heading(), create_token_heading());
    lemma_contains_before(pre + create_token_heading(), post, create_token_heading());
}

proof fn lemma_token_row_holds_revoke_button()
    ensures
        contains_text("/revoke\" style=\"margin:0\"><button class=\"link\" type=\"submit\">revoke</button></form>"@, revoke_button()),
{
    let pre = "/revoke\" style=\"margin:0\">"@;
    let post = "</form>"@;
    assert("/revoke\" style=\"margin:0\"><button class=\"link\" type=\"submit\">revoke</button></form>"@ =~= pre + revoke_button() + post) by {
        reveal_strlit("/revoke\" style=\"margin:0\"><button class=\"link\" type=\"submit\">revoke</button></form>");
        reveal_strlit("/revoke\" style=\"margin:0\">");
        reveal_strlit("</form>");
        reveal_strlit("<button class=\"link\" type=\"submit\">revoke</button>");
    }
    lemma_contains_self(revoke_button());
    lemma_contains_after(pre, revoke_button(), revoke_button());
    lemma_contains_before(pre + revoke_button(), post, revoke_button());
}

proof fn lemma_audit_row_holds_tampered_pill()
    ensures
        contains_text("<span class=\"pill warn\">TAMPERED</span>"@, tampered_pill()),
{
    let pre = ""@;
    let post = ""@;
    assert("<span class=\"pill warn\">TAMPERED</span>"@ =~= pre + tampered_pill() + post) by {
        reveal_strlit("<span class=\"pill warn\">TAMPERED</span>");
        reveal_strlit("");
        reveal_strlit("");
        reveal_strlit("<span class=\"pill warn\">TAMPERED</span>");
    }
    lemma_contains_self(tampered_pill());
    lemma_contains_after(pre, tampered_pill(), tampered_pill());
    lemma_contains_before(pre + tampered_pill(), post, tampered_pill());
}

/// Every marker above opens with `<`.
#[verifier::rlimit(50)]
proof fn lemma_markers()
    ensures
        sealed_note().len() > 0 && sealed_note()[0] == '<',
        add_secret_button().len() > 0 && add_secret_button()[0] == '<',
        tokens_button().len() > 0 && tokens_button()[0] == '<',
        approles_button().len() > 0 && approles_button()[0] == '<',
        revoke_button().len() > 0 && revoke_button()[0] == '<',
        tampered_pill().len() > 0 && tampered_pill()[0] == '<',
        manage_users_link().len() > 0 && manage_users_link()[0] == '<',
        audit_log_link().len() > 0 && audit_log_link()[0] == '<',
        seal_button().len() > 0 && seal_button()[0] == '<',
        new_vault_button().len() > 0 && new_vault_button()[0] == '<',
        settings_button().len() > 0 && settings_button()[0] == '<',
        secret_list_heading().len() > 0 && secret_list_heading()[0] == '<',
        no_read_note().len() > 0 && no_read_note()[0] == '<',
        create_token_heading().len() > 0 && create_token_heading()[0] == '<',
        sealed_note() != manage_users_link(),
        sealed_note() != audit_log_link(),
        sealed_note() != seal_button(),
        sealed_note() != new_vault_button(),
        manage_users_link() != audit_log_link(),
        manage_users_link() != seal_button(),
        manage_users_link() != new_vault_button(),
        audit_log_link() != seal_button(),
        audit_log_link() != new_vault_button(),
        seal_button() != new_vault_button(),
        add_secret_button() != tokens_button(),
        add_secret_button() != approles_button(),
        add_secret_button() != settings_button(),
        add_secret_button() != secret_list_heading(),
        add_secret_button() != no_read_note(),
        tokens_button() != approles_button(),
        tokens_button() != settings_button(),
        tokens_button() != secret_list_heading(),
        tokens_button() != no_read_note(),
        approles_button() != settings_button(),
        approles_button() != secret_list_heading(),
        approles_button() != no_read_note(),
        settings_button() != secret_list_heading(),
        settings_button() != no_read_note(),
        secret_list_heading() != no_read_note(),
{
    reveal_strlit("<p class=\"muted\">The instance is sealed — vault and secret operations are blocked until it is unsealed via <code>/v1/sys/unseal</code>.</p>");
    reveal_strlit("<button type=\"button\">Add secret</button>");
    reveal_strlit("<button type=\"button\" class=\"btn-neutral\">Tokens</button>");
    reveal_strlit("<button type=\"button\" class=\"btn-neutral\">AppRoles</button>");
    reveal_strlit("<button class=\"link\" type=\"submit\">revoke</button>");
    reveal_strlit("<span class=\"pill warn\">TAMPERED</span>");
    reveal_strlit("<a href=\"/gui/users\">Manage users &rarr;</a>");
    reveal_strlit("<a href=\"/gui/audit\">Audit log &rarr;</a>");
    reveal_strlit("<button type=\"submit\" class=\"btn-danger\">Seal instance</button>");
    reveal_strlit("<button type=\"button\">New vault</button>");
    reveal_strlit("<button type=\"button\" class=\"btn-neutral\">Settings</button>");
    reveal_strlit("<h2 style=\"margin:0\">Secrets</h2>");
    reveal_strlit("<h2>Secrets</h2><p class=\"muted\">You manage access to this vault but cannot read its secret contents.</p>");
    reveal_strlit("<h2>Create token</h2>");
    assert(sealed_note().len() != manage_users_link().len());
    assert(sealed_note().len() != audit_log_link().len());
    assert(sealed_note().len() != seal_button().len());
    assert(sealed_note().len() != new_vault_button().len());
    assert(manage_users_link().len() != audit_log_link().len());
    assert(manage_users_link().len() != seal_button().len());
    assert(manage_users_link().len() != new_vault_button().len());
    assert(audit_log_link().len() != seal_button().len());
    assert(audit_log_link().len() != new_vault_button().len());
    assert(seal_button().len() != new_vault_button().len());
    assert(add_secret_button().len() != tokens_button().len());
    assert(add_secret_button().len() != approles_button().len());
    assert(add_secret_button().len() != settings_button().len());
    assert(add_secret_button().len() != secret_list_heading().len());
    assert(add_secret_button().len() != no_read_note().len());
    assert(tokens_button().len() != approles_button().len());
    assert(tokens_button().len() != settings_button().len());
    assert(tokens_button().len() != secret_list_heading().len());
    assert(tokens_button().len() != no_read_note().len());
    assert(approles_button()[42] != settings_button()[42]);
    assert(approles_button().len() != secret_list_heading().len());
    assert(approles_button().len() != no_read_note().len());
    assert(settings_button().len() != secret_list_heading().len());
    assert(settings_button().len() != no_read_note().len());
    assert(secret_list_heading().len() != no_read_note().len());
}

// ─────────────────────────────────────────────────────────────────────────────
// Dashboard
// ─────────────────────────────────────────────────────────────────────────────

/// A text that only the dashboard's own controls and notes hold.
pub open spec fn is_dashboard_marker(t: Seq<char>) -> bool {
    t == sealed_note() || t == manage_users_link() || t == audit_log_link() || t == seal_button() || t == new_vault_button()
}

#[verifier::rlimit(50)]
proof fn lemma_vault_rows_no_marker(xs: Seq<VaultListItem>, n: int, t: Seq<char>)
    requires
        is_dashboard_marker(t),
    ensures
        no_start(vault_rows_html(xs, n), t),
    decreases n,
{
    broadcast use lemma_no_start_concat, lemma_escaped_no_start, lemma_empty_no_start;
    lemma_markers();
    if t == sealed_note() {
        lemma_vault_row_pieces_sealed_note();
    } else if t == manage_users_link() {
        lemma_vault_row_pieces_manage_users_link();
    } else if t == audit_log_link() {
        lemma_vault_row_pieces_audit_log_link();
    } else if t == seal_button() {
        lemma_vault_row_pieces_seal_button();
    } else {
        lemma_vault_row_pieces_new_vault_button();
    }
    if n > 0 {
        lemma_vault_rows_no_marker(xs, n - 1, t);
    }
}

/// The dashboard carries the note that the instance is sealed exactly when
/// it is sealed, whatever the signed-in user's global role.
#[verifier::rlimit(50)]
pub proof fn lemma_dashboard_sealed_note(username: Seq<char>, is_master: bool, sealed: bool, vaults: Seq<VaultListItem>)
    ensures
        contains_text(dashboard_page_html(username, is_master, sealed, vaults), sealed_note()) <==> sealed,
{
    lemma_markers();
    if sealed {
        lemma_dashboard_present(username, is_master, sealed, vaults, sealed_note());
    } else {
        lemma_dashboard_absent(username, is_master, sealed, vaults, sealed_note());
    }
}

// ─────────────────────────────────────────────────────────────────────────────
// Vault page
// ─────────────────────────────────────────────────────────────────────────────

/// A link to the vault page path `/gui/vaults/{vault_id}{rest}` around `button`.
pub open spec fn vault_link(vault_id: Seq<char>, rest: Seq<char>, button: Seq<char>) -> Seq<char> {
    "<a href=\"/gui/vaults/"@ + escaped(vault_id) + rest + "\">"@ + button + "</a>"@
}

/// One of the three buttons that lead to writing in a vault.
pub open spec fn is_write_button(t: Seq<char>) -> bool {
    t == add_secret_button() || t == tokens_button() || t == approles_button()
}

/// A text that only the vault page's own controls and headings hold.
pub open spec fn is_vault_marker(t: Seq<char>) -> bool {
    is_write_button(t) || t == settings_button() || t == secret_list_heading() || t == no_read_note()
}

#[verifier::rlimit(50)]
proof fn lemma_secret_rows_no_marker(xs: Seq<SecretListing>, vault_id: Seq<char>, n: int, t: Seq<char>)
    requires
        is_vault_marker(t),
    ensures
        no_start(secret_rows_html(xs, vault_id, n), t),
    decreases n,
{
    broadcast use lemma_no_start_concat, lemma_escaped_no_start, lemma_int_text_no_start, lemma_url_encoded_no_start,
        lemma_empty_no_start;
    lemma_markers();
    if t == add_secret_button() {
        lemma_secret_row_pieces_add_secret_button();
    } else if t == tokens_button() {
        lemma_secret_row_pieces_tokens_button();
    } else if t == approles_button() {
        lemma_secret_row_pieces_approles_button();
    } else if t == settings_button() {
        lemma_secret_row_pieces_settings_button();
    } else if t == secret_list_heading() {
        lemma_secret_row_pieces_secret_list_heading();
    } else {
        lemma_secret_row_pieces_no_read_note();
    }
    if n > 0 {
        lemma_secret_rows_no_marker(xs, vault_id, n - 1, t);
    }
}

/// The write controls of the vault page, as the page writes them.
spec fn write_controls(vault_id: Seq<char>) -> Seq<char> {
    Seq::<char>::empty() + "<a href=\"/gui/vaults/"@ + escaped(vault_id) + "/approles\"><button type=\"button\" class=\"btn-neutral\">AppRoles</button></a> <a href=\"/gui/vaults/"@ + escaped(vault_id) + "/tokens\"><button type=\"button\" class=\"btn-neutral\">Tokens</button></a> <a href=\"/gui/vaults/"@ + escaped(vault_id) + "/secret/new\"><button type=\"button\">Add secret</button></a>"@
}

#[verifier::rlimit(50)]
proof fn lemma_write_controls_links(vault_id: Seq<char>)
    ensures
        contains_text(write_controls(vault_id), vault_link(vault_id, "/secret/new"@, add_secret_button())),
        contains_text(write_controls(vault_id), vault_link(vault_id, "/tokens"@, tokens_button())),
        contains_text(write_controls(vault_id), vault_link(vault_id, "/approles"@, approles_button())),
{
    let ar = vault_link(vault_id, "/approles"@, approles_button());
    let tk = vault_link(vault_id, "/tokens"@, tokens_button());
    let sn = vault_link(vault_id, "/secret/new"@, add_secret_button());
    assert(write_controls(vault_id) =~= ar + " "@ + tk + " "@ + sn) by {
        reveal_strlit("<a href=\"/gui/vaults/");
        reveal_strlit("/approles\"><button type=\"button\" class=\"btn-neutral\">AppRoles</button></a> <a href=\"/gui/vaults/");
        reveal_strlit("/tokens\"><button type=\"button\" class=\"btn-neutral\">Tokens</button></a> <a href=\"/gui/vaults/");
        reveal_strlit("/secret/new\"><button type=\"button\">Add secret</button></a>");
        reveal_strlit("/approles");
        reveal_strlit("/tokens");
        reveal_strlit("/secret/new");
        reveal_strlit("\">");
        reveal_strlit("</a>");
        reveal_strlit(" ");
        reveal_strlit("<button type=\"button\">Add secret</button>");
        reveal_strlit("<button type=\"button\" class=\"btn-neutral\">Tokens</button>");
        reveal_strlit("<button type=\"button\" class=\"btn-neutral\">AppRoles</button>");
    }
    lemma_contains_self(ar);
    lemma_contains_self(tk);
    lemma_contains_self(sn);
    lemma_contains_before(ar, " "@ + tk + " "@ + sn, ar);
    assert(ar + " "@ + tk + " "@ + sn =~= ar + (" "@ + tk + " "@ + sn));
    lemma_contains_before(tk, " "@ + sn, tk);
    lemma_contains_after(ar + " "@, tk + (" "@ + sn), tk);
    assert(ar + " "@ + tk + " "@ + sn =~= (ar + " "@) + (tk + (" "@ + sn)));
    lemma_contains_after(ar + " "@ + tk + " "@, sn, sn);
}

#[verifier::rlimit(50)]
proof fn lemma_vault_page_links(d: VaultDetail)
    requires
        d.can_read && d.can_write,
    ensures
        contains_text(vault_detail_page_html(d), vault_link(d.vault_id@, "/secret/new"@, add_secret_button())),
        contains_text(vault_detail_page_html(d), vault_link(d.vault_id@, "/tokens"@, tokens_button())),
        contains_text(vault_detail_page_html(d), vault_link(d.vault_id@, "/approles"@, approles_button())),
{
    lemma_write_controls_links(d.vault_id@);
    let w = write_controls(d.vault_id@);
    assert forall|t: Seq<char>| contains_text(w, t) implies contains_text(vault_detail_page_html(d), t) by {
        broadcast use lemma_contains_before, lemma_contains_after;
        assert(contains_text(vault_detail_page_html(d), t));
    }
}

/// On a vault page the buttons to add a secret, to manage tokens and to
/// manage AppRoles appear exactly when the caller may both read and write
/// the vault's secrets, whatever their right to assign roles; when they
/// appear, each links to its page under the vault's path.
#[verifier::rlimit(50)]
pub proof fn lemma_vault_page_write_controls(d: VaultDetail)
    ensures
        contains_text(vault_detail_page_html(d), add_secret_button()) <==> d.can_read && d.can_write,
        contains_text(vault_detail_page_html(d), tokens_button()) <==> d.can_read && d.can_write,
        contains_text(vault_detail_page_html(d), approles_button()) <==> d.can_read && d.can_write,
        d.can_read && d.can_write ==> contains_text(vault_detail_page_html(d), vault_link(d.vault_id@, "/secret/new"@, add_secret_button())),
        d.can_read && d.can_write ==> contains_text(vault_detail_page_html(d), vault_link(d.vault_id@, "/tokens"@, tokens_button())),
        d.can_read && d.can_write ==> contains_text(vault_detail_page_html(d), vault_link(d.vault_id@, "/approles"@, approles_button())),
{
    let page = vault_detail_page_html(d);
    lemma_markers();
    if d.can_read && d.can_write {
        lemma_vault_page_links(d);
        let e = escaped(d.vault_id@);
        lemma_contains_part(page, "<a href=\"/gui/vaults/"@ + e + "/secret/new"@ + "\">"@, add_secret_button(), "</a>"@);
        lemma_contains_part(page, "<a href=\"/gui/vaults/"@ + e + "/tokens"@ + "\">"@, tokens_button(), "</a>"@);
        lemma_contains_part(page, "<a href=\"/gui/vaults/"@ + e + "/approles"@ + "\">"@, approles_button(), "</a>"@);
    } else {
        lemma_vault_page_absent(d, add_secret_button());
        lemma_vault_page_absent(d, tokens_button());
        lemma_vault_page_absent(d, approles_button());
    }
}

// ─────────────────────────────────────────────────────────────────────────────
// Token page
// ─────────────────────────────────────────────────────────────────────────────

/// The form that revokes token `id` of vault `vault_id`.
pub open spec fn revoke_form(vault_id: Seq<char>, id: Seq<char>) -> Seq<char> {
    "<form method=\"post\" action=\"/gui/vaults/"@ + escaped(vault_id) + "/tokens/"@ + escaped(id)
        + "/revoke\" style=\"margin:0\">"@ + revoke_button() + "</form>"@
}

#[verifier::rlimit(50)]
proof fn lemma_token_row_form(x: TokenListing, vault_id: Seq<char>)
    requires
        !x.revoked,
    ensures
        contains_text(token_row_html(x, vault_id, true), revoke_form(vault_id, x.id@)),
{
    broadcast use lemma_contains_before, lemma_contains_after;
    let f = Seq::<char>::empty() + "<form method=\"post\" action=\"/gui/vaults/"@ + escaped(vault_id) + "/tokens/"@
        + escaped(x.id@) + "/revoke\" style=\"margin:0\"><button class=\"link\" type=\"submit\">revoke</button></form>"@;
    assert(f =~= revoke_form(vault_id, x.id@)) by {
        reveal_strlit("/revoke\" style=\"margin:0\"><button class=\"link\" type=\"submit\">revoke</button></form>");
        reveal_strlit("/revoke\" style=\"margin:0\">");
        reveal_strlit("<button class=\"link\" type=\"submit\">revoke</button>");
        reveal_strlit("</form>");
    }
    lemma_contains_self(f);
    assert(contains_text(token_row_html(x, vault_id, true), f));
}

#[verifier::rlimit(50)]
proof fn lemma_token_rows_forms(xs: Seq<TokenListing>, vault_id: Seq<char>, n: int, i: int)
    requires
        0 <= i < n <= xs.len(),
        !xs[i].revoked,
    ensures
        contains_text(token_rows_html(xs, vault_id, true, n), revoke_form(vault_id, xs[i].id@)),
    decreases n,
{
    broadcast use lemma_contains_before, lemma_contains_after;
    if i == n - 1 {
        lemma_token_row_form(xs[i], vault_id);
    } else {
        lemma_token_rows_forms(xs, vault_id, n - 1, i);
    }
    assert(token_rows_html(xs, vault_id, true, n) == token_rows_html(xs, vault_id, true, n - 1) + token_row_html(
        xs[n - 1],
        vault_id,
        true,
    ));
}

#[verifier::rlimit(50)]
proof fn lemma_token_rows_no_revoke(xs: Seq<TokenListing>, vault_id: Seq<char>, can_create: bool, n: int)
    requires
        n <= xs.len(),
        !can_create || forall|i: int| 0 <= i < n ==> #[trigger] xs[i].revoked,
    ensures
        no_start(token_rows_html(xs, vault_id, can_create, n), revoke_button()),
    decreases n,
{
    broadcast use lemma_no_start_concat, lemma_escaped_no_start, lemma_empty_no_start;
    lemma_markers();
    lemma_token_row_pieces_revoke_button();
    if n > 0 {
        assert(!can_create || xs[n - 1].revoked);
        lemma_token_rows_no_revoke(xs, vault_id, can_create, n - 1);
    }
}

#[verifier::rlimit(50)]
proof fn lemma_tokens_page_no_revoke(
    username: Seq<char>,
    vault_id: Seq<char>,
    vault_name: Seq<char>,
    tokens: Seq<TokenListing>,
    can_create: bool,
    error: Option<Seq<char>>,
)
    requires
        !can_create || forall|i: int| 0 <= i < tokens.len() ==> #[trigger] tokens[i].revoked,
    ensures
        !contains_text(tokens_page_html(username, vault_id, vault_name, tokens, can_create, error), revoke_button()),
{
    broadcast use lemma_no_start_concat, lemma_escaped_no_start, lemma_empty_no_start;
    lemma_markers();
    let page = tokens_page_html(username, vault_id, vault_name, tokens, can_create, error);
    lemma_layout_pieces_revoke_button();
    lemma_tokens_pieces_revoke_button();
    lemma_token_rows_no_revoke(tokens, vault_id, can_create, tokens.len() as int);
    assert(no_start(page, revoke_button()));
    lemma_no_start_absent(page, revoke_button());
}

/// A token page offers revoke controls only to a user who may manage the
/// vault's tokens, and then one for each token not yet revoked, naming that
/// token: with no such user or no such token the page has no revoke button.
#[verifier::rlimit(50)]
pub proof fn lemma_tokens_page_revoke(
    username: Seq<char>,
    vault_id: Seq<char>,
    vault_name: Seq<char>,
    tokens: Seq<TokenListing>,
    can_create: bool,
    error: Option<Seq<char>>,
)
    ensures
        contains_text(tokens_page_html(username, vault_id, vault_name, tokens, can_create, error), revoke_button())
            <==> (can_create && exists|i: int| 0 <= i < tokens.len() && !(#[trigger] tokens[i]).revoked),
        forall|i: int|
            0 <= i < tokens.len() && can_create && !(#[trigger] tokens[i]).revoked ==> contains_text(
                tokens_page_html(username, vault_id, vault_name, tokens, can_create, error),
                revoke_form(vault_id, tokens[i].id@),
            ),
{
    let page = tokens_page_html(username, vault_id, vault_name, tokens, can_create, error);
    assert forall|i: int|
        0 <= i < tokens.len() && can_create && !(#[trigger] tokens[i]).revoked implies contains_text(
            page,
            revoke_form(vault_id, tokens[i].id@),
        ) by {
        broadcast use lemma_contains_before, lemma_contains_after;
        lemma_token_rows_forms(tokens, vault_id, tokens.len() as int, i);
        assert(contains_text(page, revoke_form(vault_id, tokens[i].id@)));
    }
    if can_create && exists|i: int| 0 <= i < tokens.len() && !(#[trigger] tokens[i]).revoked {
        let i = choose|i: int| 0 <= i < tokens.len() && !(#[trigger] tokens[i]).revoked;
        let e = "<form method=\"post\" action=\"/gui/vaults/"@ + escaped(vault_id) + "/tokens/"@ + escaped(tokens[i].id@)
            + "/revoke\" style=\"margin:0\">"@;
        lemma_contains_part(page, e, revoke_button(), "</form>"@);
    } else {
        lemma_tokens_page_no_revoke(username, vault_id, vault_name, tokens, can_create, error);
    }
}

// ─────────────────────────────────────────────────────────────────────────────
// Audit page
// ─────────────────────────────────────────────────────────────────────────────

/// The integrity verdict shown for a row: ok, or TAMPERED.
pub open spec fn verdict_pill(ok: bool) -> Seq<char> {
    if ok {
        "<span class=\"pill ok\">ok</span>"@
    } else {
        tampered_pill()
    }
}

/// The table line of audit row `r` with verdict `ok`: time, operation,
/// vault, path, shortened actor, source address, response code, verdict.
pub open spec fn audit_line(r: AuditRow, ok: bool) -> Seq<char> {
    "<tr><td class=\"muted\">"@ + escaped(r.timestamp@) + "</td><td>"@ + escaped(r.operation@) + "</td><td class=\"muted\">"@
        + escaped(or_text(r.vault_id, "—"@)) + "</td><td>"@ + escaped(or_text(r.path, "—"@)) + "</td><td class=\"muted\">"@
        + escaped(actor_short(actor_text(r))) + "</td><td class=\"muted\">"@ + escaped(or_text(r.source_ip, "—"@))
        + "</td><td>"@ + int_text(code_or_zero(r.response_code) as int) + "</td><td>"@ + verdict_pill(ok) + "</td></tr>"@
}

#[verifier::rlimit(50)]
proof fn lemma_audit_rows_lines(rows: Seq<AuditRow>, verified: Seq<bool>, n: int, i: int)
    requires
        0 <= i < n,
    ensures
        contains_text(audit_rows_html(rows, verified, n), audit_line(rows[i], verified[i])),
    decreases n,
{
    broadcast use lemma_contains_before, lemma_contains_after;
    if i == n - 1 {
        let r = rows[i];
        let ok = verified[i];
        assert(audit_row_html(r, ok) =~= audit_line(r, ok)) by {
            reveal_strlit("<span class=\"pill warn\">TAMPERED</span>");
        }
        lemma_contains_self(audit_line(r, ok));
    } else {
        lemma_audit_rows_lines(rows, verified, n - 1, i);
    }
    assert(audit_rows_html(rows, verified, n) == audit_rows_html(rows, verified, n - 1) + audit_row_html(
        rows[n - 1],
        verified[n - 1],
    ));
}

#[verifier::rlimit(50)]
proof fn lemma_audit_rows_no_tampered(rows: Seq<AuditRow>, verified: Seq<bool>, n: int)
    requires
        forall|i: int| 0 <= i < n ==> #[trigger] verified[i],
    ensures
        no_start(audit_rows_html(rows, verified, n), tampered_pill()),
    decreases n,
{
    broadcast use lemma_no_start_concat, lemma_escaped_no_start, lemma_int_text_no_start, lemma_empty_no_start;
    lemma_markers();
    lemma_audit_row_pieces_tampered_pill();
    if n > 0 {
        assert(verified[n - 1]);
        lemma_audit_rows_no_tampered(rows, verified, n - 1);
    }
}

#[verifier::rlimit(50)]
proof fn lemma_audit_page_no_tampered(
    username: Seq<char>,
    rows: Seq<AuditRow>,
    verified: Seq<bool>,
    total: i64,
    retention_days: i64,
)
    requires
        forall|i: int| 0 <= i < paired_len(rows, verified) ==> #[trigger] verified[i],
    ensures
        !contains_text(audit_page_html(username, rows, verified, total, retention_days), tampered_pill()),
{
    broadcast use lemma_no_start_concat, lemma_escaped_no_start, lemma_int_text_no_start, lemma_empty_no_start;
    lemma_markers();
    let page = audit_page_html(username, rows, verified, total, retention_days);
    lemma_layout_pieces_tampered_pill();
    lemma_audit_pieces_tampered_pill();
    lemma_audit_rows_no_tampered(rows, verified, paired_len(rows, verified));
    assert(no_start(page, tampered_pill()));
    lemma_no_start_absent(page, tampered_pill());
}

/// In the audit table each listed row carries its own integrity result. The
/// table row showing `rows[i]` ends in the ok pill when `verified[i]` holds
/// and in the TAMPERED pill when it does not; and the page shows TAMPERED
/// only when some listed row did not verify.
#[verifier::rlimit(50)]
pub proof fn lemma_audit_verdicts(
    username: Seq<char>,
    rows: Seq<AuditRow>,
    verified: Seq<bool>,
    total: i64,
    retention_days: i64,
)
    ensures
        forall|i: int|
            0 <= i < paired_len(rows, verified) ==> contains_text(
                audit_page_html(username, rows, verified, total, retention_days),
                audit_line(rows[i], #[trigger] verified[i]),
            ),
        contains_text(audit_page_html(username, rows, verified, total, retention_days), tampered_pill())
            <==> exists|i: int| 0 <= i < paired_len(rows, verified) && !(#[trigger] verified[i]),
{
    let page = audit_page_html(username, rows, verified, total, retention_days);
    let n = paired_len(rows, verified);
    assert forall|i: int| 0 <= i < n implies contains_text(page, audit_line(rows[i], #[trigger] verified[i])) by {
        broadcast use lemma_contains_before, lemma_contains_after;
        lemma_audit_rows_lines(rows, verified, n, i);
        assert(contains_text(page, audit_line(rows[i], verified[i])));
    }
    if exists|i: int| 0 <= i < n && !(#[trigger] verified[i]) {
        let i = choose|i: int| 0 <= i < n && !(#[trigger] verified[i]);
        let r = rows[i];
        let pre = "<tr><td class=\"muted\">"@ + escaped(r.timestamp@) + "</td><td>"@ + escaped(r.operation@)
            + "</td><td class=\"muted\">"@ + escaped(or_text(r.vault_id, "—"@)) + "</td><td>"@ + escaped(
            or_text(r.path, "—"@),
        ) + "</td><td class=\"muted\">"@ + escaped(actor_short(actor_text(r))) + "</td><td class=\"muted\">"@
            + escaped(or_text(r.source_ip, "—"@)) + "</td><td>"@ + int_text(code_or_zero(r.response_code) as int)
            + "</td><td>"@;
        lemma_contains_part(page, pre, tampered_pill(), "</td></tr>"@);
    } else {
        lemma_audit_page_no_tampered(username, rows, verified, total, retention_days);
    }
}

// ─────────────────────────────────────────────────────────────────────────────
// Unseal shares page
// ─────────────────────────────────────────────────────────────────────────────

/// The labelled cell that shows share number `number` with text `k`.
pub open spec fn share_cell(number: int, k: Seq<char>) -> Seq<char> {
    "<div class=\"k\">Share "@ + int_text(number) + "</div><div class=\"v\" style=\"font-family:ui-monospace,monospace;word-break:break-all\">"@
        + escaped(k) + "</div>"@
}

#[verifier::rlimit(50)]
proof fn lemma_share_rows_cells(keys: Seq<String>, n: int, i: int)
    requires
        0 <= i < n,
    ensures
        contains_text(share_rows_html(keys, n), share_cell(i + 1, keys[i]@)),
    decreases n,
{
    broadcast use lemma_contains_before, lemma_contains_after;
    if i == n - 1 {
        let c = share_cell(i + 1, keys[i]@);
        assert(share_row_html(n as nat, keys[i]@) =~= "<div class=\"kv\" style=\"margin-bottom:8px\">"@ + c
            + "</div>"@) by {
            reveal_strlit("<div class=\"kv\" style=\"margin-bottom:8px\"><div class=\"k\">Share ");
            reveal_strlit("<div class=\"kv\" style=\"margin-bottom:8px\">");
            reveal_strlit("<div class=\"k\">Share ");
            reveal_strlit("</div></div>");
            reveal_strlit("</div>");
        }
        lemma_contains_self(c);
        assert(contains_text("<div class=\"kv\" style=\"margin-bottom:8px\">"@ + c + "</div>"@, c));
    } else {
        lemma_share_rows_cells(keys, n - 1, i);
    }
    assert(share_rows_html(keys, n) == share_rows_html(keys, n - 1) + share_row_html(n as nat, keys[n - 1]@));
}

/// The page that hands out the unseal shares shows every one of them: for
/// each `i`, the cell labelled `Share i+1` holds the text of `keys[i]`.
#[verifier::rlimit(50)]
pub proof fn lemma_every_share_shown(keys: Seq<String>, threshold: usize)
    ensures
        forall|i: int|
            0 <= i < keys.len() ==> contains_text(
                unseal_shares_page_html(keys, threshold),
                share_cell(i + 1, (#[trigger] keys[i])@),
            ),
{
    assert forall|i: int| 0 <= i < keys.len() implies contains_text(
        unseal_shares_page_html(keys, threshold),
        share_cell(i + 1, (#[trigger] keys[i])@),
    ) by {
        broadcast use lemma_contains_before, lemma_contains_after;
        lemma_share_rows_cells(keys, keys.len() as int, i);
        assert(contains_text(unseal_shares_page_html(keys, threshold), share_cell(i + 1, keys[i]@)));
    }
}

// ─────────────────────────────────────────────────────────────────────────────
// Dashboard controls
// ─────────────────────────────────────────────────────────────────────────────

#[verifier::rlimit(50)]
proof fn lemma_dashboard_absent(username: Seq<char>, is_master: bool, sealed: bool, vaults: Seq<VaultListItem>, t: Seq<char>)
    requires
        is_dashboard_marker(t),
        t == sealed_note() ==> !sealed,
        t == manage_users_link() || t == audit_log_link() ==> !is_master,
        t == seal_button() || t == new_vault_button() ==> !(is_master && !sealed),
    ensures
        !contains_text(dashboard_page_html(username, is_master, sealed, vaults), t),
{
    broadcast use lemma_no_start_concat, lemma_escaped_no_start, lemma_int_text_no_start, lemma_empty_no_start;
    lemma_markers();
    let page = dashboard_page_html(username, is_master, sealed, vaults);
    lemma_vault_rows_no_marker(vaults, vaults.len() as int, t);
    if t == sealed_note() {
        lemma_layout_pieces_sealed_note();
        lemma_dashboard_pieces_sealed_note();
        assert(no_start(page, t));
    } else if t == manage_users_link() {
        lemma_layout_pieces_manage_users_link();
        lemma_dashboard_pieces_manage_users_link();
        assert(no_start(page, t));
    } else if t == audit_log_link() {
        lemma_layout_pieces_audit_log_link();
        lemma_dashboard_pieces_audit_log_link();
        assert(no_start(page, t));
    } else if t == seal_button() {
        lemma_layout_pieces_seal_button();
        lemma_dashboard_pieces_seal_button();
        assert(no_start(page, t));
    } else {
        lemma_layout_pieces_new_vault_button();
        lemma_dashboard_pieces_new_vault_button();
        assert(no_start(page, t));
    }
    lemma_no_start_absent(page, t);
}

#[verifier::rlimit(50)]
proof fn lemma_dashboard_present(username: Seq<char>, is_master: bool, sealed: bool, vaults: Seq<VaultListItem>, t: Seq<char>)
    requires
        is_dashboard_marker(t),
        t == sealed_note() ==> sealed,
        t == manage_users_link() || t == audit_log_link() ==> is_master,
        t == seal_button() || t == new_vault_button() ==> is_master && !sealed,
    ensures
        contains_text(dashboard_page_html(username, is_master, sealed, vaults), t),
{
    broadcast use lemma_contains_before, lemma_contains_after;
    let page = dashboard_page_html(username, is_master, sealed, vaults);
    if t == sealed_note() {
        lemma_dashboard_holds_sealed_note();
        assert(contains_text(page, t));
    } else if t == manage_users_link() {
        lemma_dashboard_holds_manage_users_link();
        assert(contains_text(page, t));
    } else if t == audit_log_link() {
        lemma_dashboard_holds_audit_log_link();
        assert(contains_text(page, t));
    } else if t == seal_button() {
        lemma_dashboard_holds_seal_button();
        assert(contains_text(page, t));
    } else {
        lemma_dashboard_holds_new_vault_button();
        assert(contains_text(page, t));
    }
}

/// The dashboard shows the links to user management and to the audit log
/// exactly to a master; the buttons that seal the instance and create a
/// vault exactly to a master while the instance is unsealed; and the note
/// that the instance is sealed exactly while it is sealed, to every user.
#[verifier::rlimit(50)]
pub proof fn lemma_dashboard_controls(username: Seq<char>, is_master: bool, sealed: bool, vaults: Seq<VaultListItem>)
    ensures
        contains_text(dashboard_page_html(username, is_master, sealed, vaults), manage_users_link()) <==> is_master,
        contains_text(dashboard_page_html(username, is_master, sealed, vaults), audit_log_link()) <==> is_master,
        contains_text(dashboard_page_html(username, is_master, sealed, vaults), seal_button()) <==> is_master && !sealed,
        contains_text(dashboard_page_html(username, is_master, sealed, vaults), new_vault_button()) <==> is_master
            && !sealed,
        contains_text(dashboard_page_html(username, is_master, sealed, vaults), sealed_note()) <==> sealed,
{
    lemma_markers();
    if is_master {
        lemma_dashboard_present(username, is_master, sealed, vaults, manage_users_link());
    } else {
        lemma_dashboard_absent(username, is_master, sealed, vaults, manage_users_link());
    }
    if is_master {
        lemma_dashboard_present(username, is_master, sealed, vaults, audit_log_link());
    } else {
        lemma_dashboard_absent(username, is_master, sealed, vaults, audit_log_link());
    }
    if is_master && !sealed {
        lemma_dashboard_present(username, is_master, sealed, vaults, seal_button());
    } else {
        lemma_dashboard_absent(username, is_master, sealed, vaults, seal_button());
    }
    if is_master && !sealed {
        lemma_dashboard_present(username, is_master, sealed, vaults, new_vault_button());
    } else {
        lemma_dashboard_absent(username, is_master, sealed, vaults, new_vault_button());
    }
    if sealed {
        lemma_dashboard_present(username, is_master, sealed, vaults, sealed_note());
    } else {
        lemma_dashboard_absent(username, is_master, sealed, vaults, sealed_note());
    }
}

// ─────────────────────────────────────────────────────────────────────────────
// Vault page sections
// ─────────────────────────────────────────────────────────────────────────────

#[verifier::rlimit(50)]
proof fn lemma_vault_page_absent(d: VaultDetail, t: Seq<char>)
    requires
        is_vault_marker(t),
        is_write_button(t) ==> !(d.can_read && d.can_write),
        t == settings_button() ==> !d.can_assign,
        t == secret_list_heading() ==> !d.can_read,
        t == no_read_note() ==> d.can_read,
    ensures
        !contains_text(vault_detail_page_html(d), t),
{
    broadcast use lemma_no_start_concat, lemma_escaped_no_start, lemma_empty_no_start;
    lemma_markers();
    let page = vault_detail_page_html(d);
    lemma_secret_rows_no_marker(d.secrets@, d.vault_id@, d.secrets@.len() as int, t);
    if t == add_secret_button() {
        lemma_layout_pieces_add_secret_button();
        lemma_vault_detail_pieces_add_secret_button();
        assert(no_start(page, t));
    } else if t == tokens_button() {
        lemma_layout_pieces_tokens_button();
        lemma_vault_detail_pieces_tokens_button();
        assert(no_start(page, t));
    } else if t == approles_button() {
        lemma_layout_pieces_approles_button();
        lemma_vault_detail_pieces_approles_button();
        assert(no_start(page, t));
    } else if t == settings_button() {
        lemma_layout_pieces_settings_button();
        lemma_vault_detail_pieces_settings_button();
        assert(no_start(page, t));
    } else if t == secret_list_heading() {
        lemma_layout_pieces_secret_list_heading();
        lemma_vault_detail_pieces_secret_list_heading();
        assert(no_start(page, t));
    } else {
        lemma_layout_pieces_no_read_note();
        lemma_vault_detail_pieces_no_read_note();
        assert(no_start(page, t));
    }
    lemma_no_start_absent(page, t);
}

#[verifier::rlimit(50)]
proof fn lemma_settings_link(vault_id: Seq<char>)
    ensures
        Seq::<char>::empty() + "<a href=\"/gui/vaults/"@ + escaped(vault_id) + "/settings\"><button type=\"button\" class=\"btn-neutral\">Settings</button></a>"@
            =~= vault_link(vault_id, "/settings"@, settings_button()),
{
    reveal_strlit("/settings\"><button type=\"button\" class=\"btn-neutral\">Settings</button></a>");
    reveal_strlit("/settings");
    reveal_strlit("\">");
    reveal_strlit("</a>");
    reveal_strlit("<button type=\"button\" class=\"btn-neutral\">Settings</button>");
}

/// A vault page shows the settings button, linked to the vault's settings
/// page, exactly to a caller who may assign roles in the vault; the secret
/// list exactly to a caller who may read it; and, exactly to one who may
/// not, the note that they manage the vault but cannot read its secrets.
#[verifier::rlimit(50)]
pub proof fn lemma_vault_page_sections(d: VaultDetail)
    ensures
        contains_text(vault_detail_page_html(d), settings_button()) <==> d.can_assign,
        d.can_assign ==> contains_text(vault_detail_page_html(d), vault_link(d.vault_id@, "/settings"@, settings_button())),
        contains_text(vault_detail_page_html(d), secret_list_heading()) <==> d.can_read,
        contains_text(vault_detail_page_html(d), no_read_note()) <==> !d.can_read,
{
    lemma_markers();
    let page = vault_detail_page_html(d);
    if d.can_assign {
        broadcast use lemma_contains_before, lemma_contains_after;
        let l = vault_link(d.vault_id@, "/settings"@, settings_button());
        lemma_settings_link(d.vault_id@);
        lemma_contains_self(l);
        assert(contains_text(page, l));
        lemma_contains_part(page, "<a href=\"/gui/vaults/"@ + escaped(d.vault_id@) + "/settings"@ + "\">"@, settings_button(), "</a>"@);
    } else {
        lemma_vault_page_absent(d, settings_button());
    }
    if d.can_read {
        broadcast use lemma_contains_before, lemma_contains_after;
        lemma_vault_detail_holds_secret_list_heading();
        assert(contains_text(page, secret_list_heading()));
        lemma_vault_page_absent(d, no_read_note());
    } else {
        broadcast use lemma_contains_before, lemma_contains_after;
        lemma_vault_detail_holds_no_read_note();
        assert(contains_text(page, no_read_note()));
        lemma_vault_page_absent(d, secret_list_heading());
    }
}

// ─────────────────────────────────────────────────────────────────────────────
// Token creation form
// ─────────────────────────────────────────────────────────────────────────────

#[verifier::rlimit(50)]
proof fn lemma_token_rows_no_create(xs: Seq<TokenListing>, vault_id: Seq<char>, can_create: bool, n: int)
    ensures
        no_start(token_rows_html(xs, vault_id, can_create, n), create_token_heading()),
    decreases n,
{
    broadcast use lemma_no_start_concat, lemma_escaped_no_start, lemma_empty_no_start;
    lemma_markers();
    lemma_token_row_pieces_create_token_heading();
    if n > 0 {
        lemma_token_rows_no_create(xs, vault_id, can_create, n - 1);
    }
}

/// A token page holds the form that creates a token exactly for a user who
/// may manage the vault's tokens.
#[verifier::rlimit(50)]
pub proof fn lemma_tokens_page_create_form(
    username: Seq<char>,
    vault_id: Seq<char>,
    vault_name: Seq<char>,
    tokens: Seq<TokenListing>,
    can_create: bool,
    error: Option<Seq<char>>,
)
    ensures
        contains_text(tokens_page_html(username, vault_id, vault_name, tokens, can_create, error), create_token_heading())
            <==> can_create,
{
    lemma_markers();
    let page = tokens_page_html(username, vault_id, vault_name, tokens, can_create, error);
    if can_create {
        broadcast use lemma_contains_before, lemma_contains_after;
        lemma_tokens_holds_create_token_heading();
        assert(contains_text(page, create_token_heading()));
    } else {
        broadcast use lemma_no_start_concat, lemma_escaped_no_start, lemma_empty_no_start;
        lemma_layout_pieces_create_token_heading();
        lemma_tokens_pieces_create_token_heading();
        lemma_token_rows_no_create(tokens, vault_id, can_create, tokens.len() as int);
        assert(no_start(page, create_token_heading()));
        lemma_no_start_absent(page, create_token_heading());
    }
}

// ─────────────────────────────────────────────────────────────────────────────
// Vault settings: member controls
// ─────────────────────────────────────────────────────────────────────────────

/// The opening of a member's revoke control, up to the member's id.
pub open spec fn member_control_opening() -> Seq<char> {
    "<input type=\"hidden\" name=\"user_id\" value=\""@
}

/// The control that revokes the access of member `user_id`: the hidden
/// field that names the member, then the revoke button.
pub open spec fn member_control(user_id: Seq<char>) -> Seq<char> {
    member_control_opening() + escaped(user_id) + "\">"@ + revoke_button()
}

#[verifier::rlimit(50)]
proof fn lemma_member_control_opening(u: Seq<char>)
    ensures
        member_control(u).len() > member_control_opening().len(),
        forall|j: int|
            0 <= j < member_control_opening().len() ==> #[trigger] member_control(u)[j] == member_control_opening()[j],
        member_control(u)[0] == '<',
        member_control_opening()[0] == '<',
        forall|j: int| 0 < j < member_control_opening().len() ==> member_control_opening()[j] != '<',
        member_control(u)[(member_control_opening().len() + escaped(u).len()) as int] == '"',
{
    reveal_strlit("<input type=\"hidden\" name=\"user_id\" value=\"");
    reveal_strlit("\">");
    reveal_strlit("<button class=\"link\" type=\"submit\">revoke</button>");
    let o = member_control_opening();
    let m = member_control(u);
    assert(m == o + (escaped(u) + "\">"@ + revoke_button())) by {
        assert(m =~= o + (escaped(u) + "\">"@ + revoke_button()));
    }
    assert(m[(o.len() + escaped(u).len()) as int] == ("\">"@)[0]);
}

/// Escaping tells texts apart: different texts have different escapes.
#[verifier::rlimit(50)]
pub proof fn lemma_escaped_injective(a: Seq<char>, b: Seq<char>)
    requires
        a != b,
    ensures
        escaped(a) != escaped(b),
{
    lemma_unescape_escaped(a);
    lemma_unescape_escaped(b);
}

#[verifier::rlimit(50)]
proof fn lemma_departs_at(a: Seq<char>, t: Seq<char>, k: int, i: int, j: int)
    requires
        0 <= i <= j < t.len(),
        0 <= k,
        k + j < a.len(),
        a[k + j] != t[j],
    ensures
        departs_from(a, t, k, i),
    decreases j - i,
{
    if i < j {
        lemma_departs_at(a, t, k, i + 1, j);
    }
}

/// A control naming one id starts no copy of the control naming another:
/// the texts part before the closing quote of the id.
#[verifier::rlimit(50)]
proof fn lemma_other_id_no_start(a: Seq<char>, e1: Seq<char>, e2: Seq<char>, c: Seq<char>, c2: Seq<char>)
    requires
        a.len() > 0,
        a[0] == '<',
        forall|i: int| 0 < i < a.len() ==> a[i] != '<',
        !e1.contains('"'),
        !e2.contains('"'),
        !e2.contains('<'),
        c.len() > 0,
        c2.len() > 0,
        c[0] == '"',
        c2[0] == '"',
        e1 != e2,
        no_start(c2, a + e1 + c),
    ensures
        no_start(a + e2 + c2, a + e1 + c),
{
    let t = a + e1 + c;
    let s = a + e2 + c2;
    assert forall|k: int| 0 <= k < s.len() && s[k] == t[0] implies #[trigger] departs_from(s, t, k, 0) by {
        if k < a.len() {
            assert(t[0] == '<');
            if k > 0 {
                assert(s[k] == a[k]);
            }
            assert(k == 0);
            if exists|i: int| 0 <= i < e1.len() && i < e2.len() && e1[i] != e2[i] {
                let i = choose|i: int| 0 <= i < e1.len() && i < e2.len() && e1[i] != e2[i];
                assert(s[a.len() + i] == e2[i]);
                assert(t[a.len() + i] == e1[i]);
                lemma_departs_at(s, t, 0, 0, a.len() + i);
            } else if e1.len() < e2.len() {
                let j: int = (a.len() + e1.len()) as int;
                assert(t[j] == c[0]);
                assert(s[j] == e2[e1.len() as int]);
                assert(e2.contains(s[j]));
                lemma_departs_at(s, t, 0, 0, j);
            } else if e1.len() > e2.len() {
                let j: int = (a.len() + e2.len()) as int;
                assert(s[j] == c2[0]);
                assert(t[j] == e1[e2.len() as int]);
                assert(e1.contains(t[j]));
                lemma_departs_at(s, t, 0, 0, j);
            } else {
                assert(e1 =~= e2);
            }
        } else if k < a.len() + e2.len() {
            assert(s[k] == e2[k - a.len()]);
            assert(e2.contains(s[k]));
        } else {
            let kk: int = k - a.len() - e2.len();
            assert(s[k] == c2[kk]);
            assert(departs_from(c2, t, kk, 0));
            lemma_departs_shift(a + e2, c2, t, kk, 0);
            assert(a + e2 + c2 == s);
        }
    }
}

#[verifier::rlimit(50)]
proof fn lemma_member_row_no_self_control(x: VaultMember, vault_id: Seq<char>, current_user_id: Seq<char>)
    ensures
        no_start(member_row_html(x, vault_id, current_user_id), member_control(current_user_id)),
{
    broadcast use lemma_no_start_concat, lemma_escaped_no_start, lemma_empty_no_start;
    let t = member_control(current_user_id);
    lemma_member_control_opening(current_user_id);
    lemma_member_row_pieces_member_control(current_user_id);
    lemma_settings_pieces_member_control(current_user_id);
    if x.user_id@ != current_user_id {
        let o = member_control_opening();
        let e2 = escaped(x.user_id@);
        let e1 = escaped(current_user_id);
        let c = "\">"@ + revoke_button();
        let c2 = "\"><button class=\"link\" type=\"submit\">revoke</button></form>"@;
        let pre = "/revoke\" style=\"margin:0\">"@;
        assert("/revoke\" style=\"margin:0\"><input type=\"hidden\" name=\"user_id\" value=\""@ =~= pre + o) by {
            reveal_strlit("/revoke\" style=\"margin:0\"><input type=\"hidden\" name=\"user_id\" value=\"");
            reveal_strlit("/revoke\" style=\"margin:0\">");
            reveal_strlit("<input type=\"hidden\" name=\"user_id\" value=\"");
        }
        assert(no_start(pre, t)) by {
            reveal_strlit("/revoke\" style=\"margin:0\">");
            lemma_plain_no_start(pre, t);
        }
        lemma_escaped_has_no_markup(x.user_id@);
        lemma_escaped_has_no_markup(current_user_id);
        lemma_escaped_injective(x.user_id@, current_user_id);
        assert(c[0] == '"' && c2[0] == '"' && c.len() > 0 && c2.len() > 0) by {
            reveal_strlit("\">");
            reveal_strlit("\"><button class=\"link\" type=\"submit\">revoke</button></form>");
        }
        assert(t == o + e1 + c) by {
            assert(t =~= o + e1 + c);
        }
        lemma_other_id_no_start(o, e1, e2, c, c2);
        let head = Seq::<char>::empty() + "<tr><td>"@ + escaped(x.username@) + "</td><td>"@ + role_badge_html(x.role@)
            + "</td><td class=\"muted\">"@ + escaped(x.granted_at@) + "</td><td>"@;
        let form = Seq::<char>::empty() + "<form method=\"post\" action=\"/gui/vaults/"@ + escaped(vault_id) + pre;
        assert(no_start(head, t));
        assert(no_start(form, t));
        assert(no_start(form + (o + e2 + c2), t));
        assert(member_row_html(x, vault_id, current_user_id) =~= head + (form + (o + e2 + c2)) + "</td></tr>"@);
    }
    assert(no_start(member_row_html(x, vault_id, current_user_id), t));
}

#[verifier::rlimit(50)]
proof fn lemma_member_rows_no_self_control(xs: Seq<VaultMember>, vault_id: Seq<char>, current_user_id: Seq<char>, n: int)
    ensures
        no_start(member_rows_html(xs, vault_id, current_user_id, n), member_control(current_user_id)),
    decreases n,
{
    broadcast use lemma_no_start_concat, lemma_empty_no_start;
    if n > 0 {
        lemma_member_row_no_self_control(xs[n - 1], vault_id, current_user_id);
        lemma_member_rows_no_self_control(xs, vault_id, current_user_id, n - 1);
    }
}

#[verifier::rlimit(50)]
proof fn lemma_member_rows_controls(xs: Seq<VaultMember>, vault_id: Seq<char>, current_user_id: Seq<char>, n: int, i: int)
    requires
        0 <= i < n,
        xs[i].user_id@ != current_user_id,
    ensures
        contains_text(member_rows_html(xs, vault_id, current_user_id, n), member_control(xs[i].user_id@)),
    decreases n,
{
    broadcast use lemma_contains_before, lemma_contains_after;
    if i == n - 1 {
        let x = xs[i];
        let mc = member_control(x.user_id@);
        let f = Seq::<char>::empty() + "<form method=\"post\" action=\"/gui/vaults/"@ + escaped(vault_id)
            + "/revoke\" style=\"margin:0\"><input type=\"hidden\" name=\"user_id\" value=\""@ + escaped(x.user_id@)
            + "\"><button class=\"link\" type=\"submit\">revoke</button></form>"@;
        let pre = Seq::<char>::empty() + "<form method=\"post\" action=\"/gui/vaults/"@ + escaped(vault_id)
            + "/revoke\" style=\"margin:0\">"@;
        assert(f =~= pre + mc + "</form>"@) by {
            reveal_strlit("/revoke\" style=\"margin:0\"><input type=\"hidden\" name=\"user_id\" value=\"");
            reveal_strlit("/revoke\" style=\"margin:0\">");
            reveal_strlit("<input type=\"hidden\" name=\"user_id\" value=\"");
            reveal_strlit("\"><button class=\"link\" type=\"submit\">revoke</button></form>");
            reveal_strlit("\">");
            reveal_strlit("<button class=\"link\" type=\"submit\">revoke</button>");
            reveal_strlit("</form>");
        }
        lemma_contains_self(mc);
        assert(contains_text(f, mc));
        assert(contains_text(member_row_html(x, vault_id, current_user_id), mc));
    } else {
        lemma_member_rows_controls(xs, vault_id, current_user_id, n - 1, i);
    }
    assert(member_rows_html(xs, vault_id, current_user_id, n) == member_rows_html(xs, vault_id, current_user_id, n - 1)
        + member_row_html(xs[n - 1], vault_id, current_user_id));
}

/// On a vault's settings page every member other than the signed-in user has
/// a control that revokes that member's access, and no control revokes the
/// signed-in user's own access.
#[verifier::rlimit(50)]
pub proof fn lemma_settings_member_controls(s: VaultSettings)
    ensures
        forall|i: int|
            0 <= i < s.members@.len() && (#[trigger] s.members@[i]).user_id@ != s.current_user_id@ ==> contains_text(
                vault_settings_page_html(s),
                member_control(s.members@[i].user_id@),
            ),
        !contains_text(vault_settings_page_html(s), member_control(s.current_user_id@)),
{
    let page = vault_settings_page_html(s);
    let xs = s.members@;
    assert forall|i: int| 0 <= i < xs.len() && (#[trigger] xs[i]).user_id@ != s.current_user_id@ implies contains_text(
        page,
        member_control(xs[i].user_id@),
    ) by {
        broadcast use lemma_contains_before, lemma_contains_after;
        lemma_member_rows_controls(xs, s.vault_id@, s.current_user_id@, xs.len() as int, i);
        assert(contains_text(page, member_control(xs[i].user_id@)));
    }
    let t = member_control(s.current_user_id@);
    lemma_member_control_opening(s.current_user_id@);
    broadcast use lemma_no_start_concat, lemma_escaped_no_start, lemma_empty_no_start;
    lemma_layout_pieces_member_control(s.current_user_id@);
    lemma_settings_pieces_member_control(s.current_user_id@);
    lemma_member_rows_no_self_control(xs, s.vault_id@, s.current_user_id@, xs.len() as int);
    assert(no_start(page, t));
    lemma_no_start_absent(page, t);
}

// ─────────────────────────────────────────────────────────────────────────────
// Users page: account controls
// ─────────────────────────────────────────────────────────────────────────────

/// The opening of an account's enable/disable control, up to the account id.
pub open spec fn user_control_opening() -> Seq<char> {
    "<form method=\"post\" action=\"/gui/users/"@
}

/// What the control of an account does: disable an active account, enable a
/// disabled one.
pub open spec fn account_action(active: bool) -> Seq<char> {
    if active {
        "disable"@
    } else {
        "enable"@
    }
}

/// The text after an account's id in its control for `action`.
pub open spec fn user_control_rest(action: Seq<char>) -> Seq<char> {
    "\" style=\"margin:0\"><button class=\"link\" type=\"submit\">"@ + action + "</button>"@
}

/// The control that applies `action` to account `id`: the form posting to
/// `/gui/users/{id}/{action}` and its button.
pub open spec fn user_control(id: Seq<char>, action: Seq<char>) -> Seq<char> {
    user_control_opening() + (escaped(id) + "/"@ + action) + user_control_rest(action)
}

#[verifier::rlimit(50)]
proof fn lemma_user_control_opening(u: Seq<char>, v: Seq<char>)
    ensures
        user_control(u, v).len() > user_control_opening().len(),
        forall|j: int| 0 <= j < user_control_opening().len() ==> #[trigger] user_control(u, v)[j] == user_control_opening()[j],
        user_control(u, v)[0] == '<',
        user_control_opening()[0] == '<',
        forall|j: int| 0 < j < user_control_opening().len() ==> user_control_opening()[j] != '<',
        user_control_rest(v)[0] == '"',
{
    reveal_strlit("<form method=\"post\" action=\"/gui/users/");
    reveal_strlit("\" style=\"margin:0\"><button class=\"link\" type=\"submit\">");
    assert(user_control_rest(v)[0] == ("\" style=\"margin:0\"><button class=\"link\" type=\"submit\">"@)[0]);
}

/// The id and action parts of two controls differ when the ids or the
/// actions do.
#[verifier::rlimit(50)]
proof fn lemma_user_control_parts_differ(e1: Seq<char>, v1: Seq<char>, e2: Seq<char>, v2: Seq<char>)
    requires
        v1 == "disable"@ || v1 == "enable"@,
        v2 == "disable"@ || v2 == "enable"@,
        e1 != e2 || v1 != v2,
    ensures
        e1 + "/"@ + v1 != e2 + "/"@ + v2,
{
    reveal_strlit("disable");
    reveal_strlit("enable");
    reveal_strlit("/");
    let p1 = e1 + "/"@ + v1;
    let p2 = e2 + "/"@ + v2;
    if p1 == p2 {
        assert(p1.len() == e1.len() + 1 + v1.len());
        assert(p2.len() == e2.len() + 1 + v2.len());
        if v1 == v2 {
            assert(e1.len() == e2.len());
            assert forall|i: int| 0 <= i < e1.len() implies e1[i] == e2[i] by {
                assert(p1[i] == e1[i]);
                assert(p2[i] == e2[i]);
            }
            assert(e1 =~= e2);
        } else if v1 == "disable"@ {
            assert(e2.len() == e1.len() + 1);
            assert(p1[e1.len() + 1int] == v1[0]);
            assert(p2[e1.len() + 1int] == ("/"@ + v2)[0]);
        } else {
            assert(e1.len() == e2.len() + 1);
            assert(p2[e2.len() + 1int] == v2[0]);
            assert(p1[e2.len() + 1int] == ("/"@ + v1)[0]);
        }
    }
}

#[verifier::rlimit(50)]
proof fn lemma_user_row_no_self_control(x: UserListItem, current_user_id: Seq<char>, v: Seq<char>)
    requires
        v == "disable"@ || v == "enable"@,
    ensures
        no_start(user_row_html(x, current_user_id), user_control(current_user_id, v)),
{
    broadcast use lemma_no_start_concat, lemma_escaped_no_start, lemma_empty_no_start;
    let t = user_control(current_user_id, v);
    lemma_user_control_opening(current_user_id, v);
    lemma_user_row_pieces_user_control(current_user_id, v);
    if !(x.id@ == current_user_id || x.is_master) {
        reveal_strlit("disable");
        reveal_strlit("enable");
        reveal_strlit("/");
        let a = user_control_opening();
        let v2 = account_action(x.active);
        let e1 = escaped(current_user_id);
        let e2 = escaped(x.id@);
        let p1 = e1 + "/"@ + v;
        let p2 = e2 + "/"@ + v2;
        let r1 = user_control_rest(v);
        let r2 = user_control_rest(v2) + "</form>"@;
        let tail = if x.active {
            "/disable\" style=\"margin:0\"><button class=\"link\" type=\"submit\">disable</button></form>"@
        } else {
            "/enable\" style=\"margin:0\"><button class=\"link\" type=\"submit\">enable</button></form>"@
        };
        assert(tail =~= "/"@ + v2 + r2) by {
            reveal_strlit("/disable\" style=\"margin:0\"><button class=\"link\" type=\"submit\">disable</button></form>");
            reveal_strlit("/enable\" style=\"margin:0\"><button class=\"link\" type=\"submit\">enable</button></form>");
            reveal_strlit("\" style=\"margin:0\"><button class=\"link\" type=\"submit\">");
            reveal_strlit("</button>");
            reveal_strlit("</form>");
        }
        lemma_escaped_has_no_markup(x.id@);
        lemma_escaped_has_no_markup(current_user_id);
        lemma_escaped_injective(x.id@, current_user_id);
        lemma_user_control_parts_differ(e1, v, e2, v2);
        assert(!p1.contains('"')) by {
            if p1.contains('"') {
                let i = choose|i: int| 0 <= i < p1.len() && p1[i] == '"';
                if i >= e1.len() {
                    assert(p1[i] == ("/"@ + v)[i - e1.len()]);
                } else {
                    assert(e1.contains(p1[i]));
                }
            }
        }
        assert(!p2.contains('"') && !p2.contains('<')) by {
            assert forall|c: char| c == '"' || c == '<' implies !p2.contains(c) by {
                if p2.contains(c) {
                    let i = choose|i: int| 0 <= i < p2.len() && p2[i] == c;
                    if i >= e2.len() {
                        assert(p2[i] == ("/"@ + v2)[i - e2.len()]);
                    } else {
                        assert(e2.contains(p2[i]));
                    }
                }
            }
        }
        assert(r2[0] == r1[0] && r2.len() > 0) by {
            assert(r2[0] == user_control_rest(v2)[0]);
            lemma_user_control_opening(x.id@, v2);
        }
        assert(no_start(r2, t)) by {
            reveal_with_fuel(departs_from, 3);
            reveal_strlit("<form method=\"post\" action=\"/gui/users/");
            reveal_strlit("\" style=\"margin:0\"><button class=\"link\" type=\"submit\">");
            reveal_strlit("</button>");
            reveal_strlit("</form>");
            assert forall|k: int| 0 <= k < r2.len() && r2[k] == t[0] implies #[trigger] departs_from(r2, t, k, 0) by {
                assert(t[1] == 'f');
                assert(r2[k + 1] != 'f');
            }
        }
        assert(t == a + p1 + r1) by {
            assert(t =~= a + p1 + r1);
        }
        lemma_other_id_no_start(a, p1, p2, r1, r2);
        let state = if x.active { "<span class=\"pill ok\">active</span>"@ } else { "<span class=\"pill warn\">disabled</span>"@ };
        let head = Seq::<char>::empty() + "<tr><td>"@ + escaped(x.username@) + "</td><td>"@ + role_pill_html(x.is_master)
            + "</td><td>"@ + state + "</td><td>"@ + Seq::<char>::empty();
        assert(no_start(head, t));
        assert(user_row_html(x, current_user_id) =~= head + (a + p2 + r2) + "</td></tr>"@);
    }
    assert(no_start(user_row_html(x, current_user_id), t));
}

#[verifier::rlimit(50)]
proof fn lemma_user_rows_no_self_control(xs: Seq<UserListItem>, current_user_id: Seq<char>, v: Seq<char>, n: int)
    requires
        v == "disable"@ || v == "enable"@,
    ensures
        no_start(user_rows_html(xs, current_user_id, n), user_control(current_user_id, v)),
    decreases n,
{
    broadcast use lemma_no_start_concat, lemma_empty_no_start;
    if n > 0 {
        lemma_user_row_no_self_control(xs[n - 1], current_user_id, v);
        lemma_user_rows_no_self_control(xs, current_user_id, v, n - 1);
    }
}

#[verifier::rlimit(50)]
proof fn lemma_user_rows_controls(xs: Seq<UserListItem>, current_user_id: Seq<char>, n: int, i: int)
    requires
        0 <= i < n,
        xs[i].id@ != current_user_id,
        !xs[i].is_master,
    ensures
        contains_text(user_rows_html(xs, current_user_id, n), user_control(xs[i].id@, account_action(xs[i].active))),
    decreases n,
{
    broadcast use lemma_contains_before, lemma_contains_after;
    if i == n - 1 {
        let x = xs[i];
        let v = account_action(x.active);
        let uc = user_control(x.id@, v);
        let f = if x.active {
            Seq::<char>::empty() + "<form method=\"post\" action=\"/gui/users/"@ + escaped(x.id@)
                + "/disable\" style=\"margin:0\"><button class=\"link\" type=\"submit\">disable</button></form>"@
        } else {
            Seq::<char>::empty() + "<form method=\"post\" action=\"/gui/users/"@ + escaped(x.id@)
                + "/enable\" style=\"margin:0\"><button class=\"link\" type=\"submit\">enable</button></form>"@
        };
        assert(f =~= uc + "</form>"@) by {
            reveal_strlit("/disable\" style=\"margin:0\"><button class=\"link\" type=\"submit\">disable</button></form>");
            reveal_strlit("/enable\" style=\"margin:0\"><button class=\"link\" type=\"submit\">enable</button></form>");
            reveal_strlit("\" style=\"margin:0\"><button class=\"link\" type=\"submit\">");
            reveal_strlit("</button>");
            reveal_strlit("</form>");
            reveal_strlit("disable");
            reveal_strlit("enable");
            reveal_strlit("/");
        }
        lemma_contains_self(uc);
        assert(contains_text(f, uc));
        assert(contains_text(user_row_html(x, current_user_id), uc));
    } else {
        lemma_user_rows_controls(xs, current_user_id, n - 1, i);
    }
    assert(user_rows_html(xs, current_user_id, n) == user_rows_html(xs, current_user_id, n - 1) + user_row_html(
        xs[n - 1],
        current_user_id,
    ));
}

#[verifier::rlimit(50)]
proof fn lemma_users_page_no_self_control(
    username: Seq<char>,
    current_user_id: Seq<char>,
    users: Seq<UserListItem>,
    error: Option<Seq<char>>,
    v: Seq<char>,
)
    requires
        v == "disable"@ || v == "enable"@,
    ensures
        !contains_text(users_page_html(username, current_user_id, users, error), user_control(current_user_id, v)),
{
    broadcast use lemma_no_start_concat, lemma_escaped_no_start, lemma_empty_no_start;
    let page = users_page_html(username, current_user_id, users, error);
    let t = user_control(current_user_id, v);
    lemma_user_control_opening(current_user_id, v);
    lemma_layout_pieces_user_control(current_user_id, v);
    lemma_users_pieces_user_control(current_user_id, v);
    lemma_user_rows_no_self_control(users, current_user_id, v, users.len() as int);
    assert(no_start(page, t));
    lemma_no_start_absent(page, t);
}

/// The users page offers no control on the signed-in user's own account,
/// and offers every other account that is not a master's the control that
/// fits its state: disable for an active account, enable for a disabled one.
#[verifier::rlimit(50)]
pub proof fn lemma_users_page_controls(
    username: Seq<char>,
    current_user_id: Seq<char>,
    users: Seq<UserListItem>,
    error: Option<Seq<char>>,
)
    ensures
        forall|i: int|
            0 <= i < users.len() && (#[trigger] users[i]).id@ != current_user_id && !users[i].is_master ==> contains_text(
                users_page_html(username, current_user_id, users, error),
                user_control(users[i].id@, account_action(users[i].active)),
            ),
        !contains_text(users_page_html(username, current_user_id, users, error), user_control(current_user_id, "disable"@)),
        !contains_text(users_page_html(username, current_user_id, users, error), user_control(current_user_id, "enable"@)),
{
    let page = users_page_html(username, current_user_id, users, error);
    assert forall|i: int|
        0 <= i < users.len() && (#[trigger] users[i]).id@ != current_user_id && !users[i].is_master implies contains_text(
            page,
            user_control(users[i].id@, account_action(users[i].active)),
        ) by {
        broadcast use lemma_contains_before, lemma_contains_after;
        lemma_user_rows_controls(users, current_user_id, users.len() as int, i);
        assert(contains_text(page, user_control(users[i].id@, account_action(users[i].active))));
    }
    lemma_users_page_no_self_control(username, current_user_id, users, error, "disable"@);
    lemma_users_page_no_self_control(username, current_user_id, users, error, "enable"@);
}

// ─────────────────────────────────────────────────────────────────────────────
// Numbers that pages state
// ─────────────────────────────────────────────────────────────────────────────

/// How the audit page words the retention window: kept forever when it is
/// not positive, else the number of days.
pub open spec fn retention_phrase(retention_days: i64) -> Seq<char> {
    if retention_days <= 0 {
        "kept forever"@
    } else {
        int_text(retention_days as int) + " days"@
    }
}

/// The audit page states the total number of events and the retention
/// window it was given.
#[verifier::rlimit(50)]
pub proof fn lemma_audit_page_totals(
    username: Seq<char>,
    rows: Seq<AuditRow>,
    verified: Seq<bool>,
    total: i64,
    retention_days: i64,
)
    ensures
        contains_text(
            audit_page_html(username, rows, verified, total, retention_days),
            int_text(total as int) + " events total — currently "@ + retention_phrase(retention_days) + "."@,
        ),
{
    broadcast use lemma_contains_before, lemma_contains_after;
    let open = Seq::<char>::empty() + "<p><a href=\"/gui/\">&larr; Dashboard</a></p><div class=\"card\"><h1>Audit log</h1><p class=\"muted\">"@;
    let target = int_text(total as int) + " events total — currently "@ + retention_phrase(retention_days) + "."@;
    let rest = ". Each row is HMAC-signed with a key derived from the master key.</p><form method=\"post\" action=\"/gui/audit/retention\" style=\"display:flex;gap:8px;align-items:flex-end\"><div><label style=\"margin-top:0\">Retention (days, blank/0 = keep forever)</label><input name=\"days\" type=\"number\" min=\"0\" value=\""@;
    let head = open + int_text((total) as int) + " events total — currently "@ + ((if retention_days <= 0 {
        Seq::<char>::empty() + "kept forever"@
    } else {
        Seq::<char>::empty() + int_text((retention_days) as int) + " days"@
    })) + rest;
    assert(head =~= open + target + rest.subrange(1, rest.len() as int)) by {
        reveal_strlit(". Each row is HMAC-signed with a key derived from the master key.</p><form method=\"post\" action=\"/gui/audit/retention\" style=\"display:flex;gap:8px;align-items:flex-end\"><div><label style=\"margin-top:0\">Retention (days, blank/0 = keep forever)</label><input name=\"days\" type=\"number\" min=\"0\" value=\"");
        reveal_strlit(".");
    }
    lemma_contains_self(target);
    assert(contains_text(open + target, target));
    assert(contains_text(open + target + rest.subrange(1, rest.len() as int), target));
    assert(contains_text(head, target));
    assert(contains_text(audit_page_html(username, rows, verified, total, retention_days), target));
}

/// The page that hands out the unseal shares states how many of them it
/// takes to unseal.
#[verifier::rlimit(50)]
pub proof fn lemma_shares_page_threshold(keys: Seq<String>, threshold: usize)
    ensures
        contains_text(
            unseal_shares_page_html(keys, threshold),
            "You need any "@ + int_text(threshold as int) + " of them to unseal after every restart."@,
        ),
{
    broadcast use lemma_contains_before, lemma_contains_after;
    let a = "<div class=\"card\"><h1>Save your unseal shares</h1><div class=\"err\">Copy these now — they are shown only once. You need any "@;
    let b = " of them to unseal after every restart. Lose them and the data is unrecoverable; anyone with "@;
    let pa = "<div class=\"card\"><h1>Save your unseal shares</h1><div class=\"err\">Copy these now — they are shown only once. "@;
    let na = "You need any "@;
    let nb = " of them to unseal after every restart."@;
    let sb = " Lose them and the data is unrecoverable; anyone with "@;
    assert(a =~= pa + na && b =~= nb + sb) by {
        reveal_strlit("<div class=\"card\"><h1>Save your unseal shares</h1><div class=\"err\">Copy these now — they are shown only once. You need any ");
        reveal_strlit(" of them to unseal after every restart. Lose them and the data is unrecoverable; anyone with ");
        reveal_strlit("<div class=\"card\"><h1>Save your unseal shares</h1><div class=\"err\">Copy these now — they are shown only once. ");
        reveal_strlit("You need any ");
        reveal_strlit(" of them to unseal after every restart.");
        reveal_strlit(" Lose them and the data is unrecoverable; anyone with ");
    }
    let target = na + int_text(threshold as int) + nb;
    let head = Seq::<char>::empty() + a + int_text((threshold) as int) + b;
    assert(head =~= (Seq::<char>::empty() + pa) + target + sb);
    lemma_contains_self(target);
    assert(contains_text((Seq::<char>::empty() + pa) + target + sb, target));
    assert(contains_text(head, target));
    assert(contains_text(unseal_shares_page_html(keys, threshold), target));
}
}
