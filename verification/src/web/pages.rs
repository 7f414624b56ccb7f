//! Server-rendered HTML for the management GUI.
//!
//! Each page is one string built around a shared layout, with every
//! interpolated value HTML-escaped (or, in links, percent-encoded). Each page
//! function's contract is the exact text it returns.
use vstd::prelude::*;

use crate::audit::{AuditRow, opt_view};
use crate::text::{chars_of, hex_digit_upper, hex_upper_digit, int_text, owned, push_char, push_i64, push_usize, str_eq};
use crate::vault::VaultMember;

verus! {

broadcast use vstd::string::group_string_axioms;

/// Shared CSS for every page. Colors come from CSS variables so the dark/light
/// theme is a single attribute flip on <html data-theme>.
pub const STYLE: &'static str = ":root{--bg:#0e1116;--card:#161b22;--border:#30363d;--border-soft:#21262d;--fg:#e6edf3;--muted:#7d8590;--h2:#9da7b3;--link:#58a6ff;--brand:#3fb950;--accent:#238636;--accent-hover:#2ea043;--accent-fg:#fff;--neutral:#30363d;--neutral-fg:#e6edf3;--danger:#b62324;--danger-fg:#fff;--err-bg:#3d1a1d;--err-border:#f85149;--err-fg:#ffa198;--ok-bg:#132e1a;--ok-fg:#3fb950;--ok-border:#238636;--warn-bg:#3d2a12;--warn-fg:#d29922;--warn-border:#9e6a03;color-scheme:dark}[data-theme=light]{--bg:#f6f8fa;--card:#ffffff;--border:#d0d7de;--border-soft:#eaeef2;--fg:#1f2328;--muted:#59636e;--h2:#59636e;--link:#0969da;--brand:#1a7f37;--accent:#1f883d;--accent-hover:#1a7f37;--accent-fg:#fff;--neutral:#eaeef2;--neutral-fg:#1f2328;--danger:#cf222e;--danger-fg:#fff;--err-bg:#ffebe9;--err-border:#cf222e;--err-fg:#82071e;--ok-bg:#dafbe1;--ok-fg:#1a7f37;--ok-border:#1f883d;--warn-bg:#fff8c5;--warn-fg:#9a6700;--warn-border:#d4a72c;color-scheme:light}*{box-sizing:border-box}body{margin:0;font:15px/1.5 system-ui,sans-serif;background:var(--bg);color:var(--fg)}header{display:flex;align-items:center;justify-content:space-between;padding:14px 22px;background:var(--card);border-bottom:1px solid var(--border)}header .brand{font-weight:700;letter-spacing:.3px}header .brand span{color:var(--brand)}header .right{display:flex;align-items:center;gap:14px}main{max-width:880px;margin:40px auto;padding:0 22px}.card{background:var(--card);border:1px solid var(--border);border-radius:10px;padding:24px;margin-bottom:20px}h1{font-size:22px;margin:0 0 6px}h2{font-size:16px;margin:0 0 14px;color:var(--h2)}label{display:block;margin:14px 0 6px;font-size:13px;color:var(--h2)}input,textarea,select{width:100%;padding:10px 12px;border:1px solid var(--border);border-radius:7px;background:var(--bg);color:var(--fg);font-size:14px}textarea{font-family:ui-monospace,monospace}button{margin-top:18px;padding:10px 18px;border:0;border-radius:7px;background:var(--accent);color:var(--accent-fg);font-weight:600;cursor:pointer;font-size:14px}button:hover{filter:brightness(1.08)}button.btn-neutral{background:var(--neutral);color:var(--neutral-fg)}button.btn-danger{background:var(--danger);color:var(--danger-fg)}button.link{background:none;color:var(--link);padding:0;margin:0;font-weight:400}a{color:var(--link);text-decoration:none}a:hover{text-decoration:underline}.err{background:var(--err-bg);border:1px solid var(--err-border);color:var(--err-fg);padding:10px 12px;border-radius:7px;margin-bottom:8px;font-size:14px}.muted{color:var(--muted);font-size:13px}.pill{display:inline-block;padding:2px 10px;border-radius:999px;font-size:12px;font-weight:600}.pill.ok{background:var(--ok-bg);color:var(--ok-fg);border:1px solid var(--ok-border)}.pill.warn{background:var(--warn-bg);color:var(--warn-fg);border:1px solid var(--warn-border)}.grid{display:grid;grid-template-columns:1fr 1fr;gap:14px}.kv{padding:12px 14px;background:var(--bg);border:1px solid var(--border);border-radius:8px}.kv .k{font-size:12px;color:var(--muted)}.kv .v{font-size:15px;margin-top:2px}table{width:100%;border-collapse:collapse;margin-top:10px}th{text-align:left;font-size:12px;color:var(--muted);font-weight:600;padding:8px 10px;border-bottom:1px solid var(--border)}td{padding:9px 10px;border-bottom:1px solid var(--border-soft);font-size:14px;vertical-align:middle}tr:last-child td{border-bottom:0}pre{background:var(--bg);border:1px solid var(--border);border-radius:8px;color:var(--fg)}code{background:var(--bg);border:1px solid var(--border);border-radius:4px;padding:1px 5px;font-size:13px}.themetoggle{font-size:16px;line-height:1;cursor:pointer}.version{position:fixed;bottom:8px;right:12px;font-size:12px;color:var(--muted);opacity:.65}.version a{color:var(--muted)}";

/// Inline head script: apply the saved/OS theme before paint (no flash) and a
/// toggle handler.
pub const THEME_SCRIPT: &'static str = "(function(){try{var t=localStorage.getItem('ev-theme');if(!t){t=window.matchMedia&&window.matchMedia('(prefers-color-scheme: light)').matches?'light':'dark';}document.documentElement.setAttribute('data-theme',t);}catch(e){}})();function evToggleTheme(){var d=document.documentElement;var c=d.getAttribute('data-theme')==='light'?'dark':'light';d.setAttribute('data-theme',c);try{localStorage.setItem('ev-theme',c);}catch(e){}}";

/// The version label shown on every page.
pub const APP_VERSION: &'static str = "0.1.5";

// ─────────────────────────────────────────────────────────────────────────────
// Escaping
// ─────────────────────────────────────────────────────────────────────────────

/// The HTML text for one character: the five significant ones become entities.
pub open spec fn esc_char(c: char) -> Seq<char> {
    if c == '&' {
        "&amp;"@
    } else if c == '<' {
        "&lt;"@
    } else if c == '>' {
        "&gt;"@
    } else if c == '"' {
        "&quot;"@
    } else if c == '\'' {
        "&#39;"@
    } else {
        seq![c]
    }
}

/// `s` with each character replaced by its HTML text.
pub open spec fn escaped(s: Seq<char>) -> Seq<char>
    decreases s.len(),
{
    if s.len() == 0 {
        Seq::empty()
    } else {
        escaped(s.drop_last()) + esc_char(s.last())
    }
}

/// Escape the five HTML-significant characters for safe interpolation.
pub fn escape(input: &str) -> (out: String)
    ensures
        out@ == escaped(input@),
{
    let v = chars_of(input);
    let mut out = String::new();
    let mut i: usize = 0;
    while i < v.len()
        invariant
            v@ == input@,
            i <= v.len(),
            out@ == escaped(v@.take(i as int)),
        decreases v.len() - i,
    {
        let c = v[i];
        proof { assert(v@.take(i + 1).drop_last() =~= v@.take(i as int)); }
        if c == '&' {
            out.append("&amp;");
        } else if c == '<' {
            out.append("&lt;");
        } else if c == '>' {
            out.append("&gt;");
        } else if c == '"' {
            out.append("&quot;");
        } else if c == '\'' {
            out.append("&#39;");
        } else {
            push_char(&mut out, c);
        }
        i = i + 1;
    }
    assert(v@.take(v.len() as int) =~= v@);
    out
}

/// Escaped text holds none of the characters that open or close markup or
/// attribute values: `<`, `>`, `"` and `'`.
pub proof fn lemma_escaped_has_no_markup(s: Seq<char>)
    ensures
        !escaped(s).contains('<'),
        !escaped(s).contains('>'),
        !escaped(s).contains('"'),
        !escaped(s).contains('\''),
    decreases s.len(),
{
    reveal_strlit("&amp;");
    reveal_strlit("&lt;");
    reveal_strlit("&gt;");
    reveal_strlit("&quot;");
    reveal_strlit("&#39;");
    if s.len() > 0 {
        lemma_escaped_has_no_markup(s.drop_last());
        let a = escaped(s.drop_last());
        let b = esc_char(s.last());
        assert(escaped(s) == a + b);
        assert forall|c: char| c == '<' || c == '>' || c == '"' || c == '\'' implies !(a + b).contains(c) by {
            if (a + b).contains(c) {
                let i = choose|i: int| 0 <= i < (a + b).len() && (a + b)[i] == c;
                if i < a.len() {
                    assert(a[i] == c);
                } else {
                    assert(b[i - a.len()] == c);
                }
            }
        }
    }
}

// ─────────────────────────────────────────────────────────────────────────────
// Percent-encoding
// ─────────────────────────────────────────────────────────────────────────────

/// Bytes left as they are: ASCII letters, digits, `-`, `_`, `.`, `~`.
pub open spec fn url_unreserved(b: u8) -> bool {
    (65 <= b <= 90) || (97 <= b <= 122) || (48 <= b <= 57) || b == 45 || b == 95 || b == 46 || b == 126
}

/// The text for one byte: itself when unreserved, else `%` and two uppercase
/// hex digits.
pub open spec fn url_byte(b: u8) -> Seq<char> {
    if url_unreserved(b) {
        seq![b as char]
    } else {
        seq!['%', hex_upper_digit(b as int / 16), hex_upper_digit(b as int % 16)]
    }
}

/// Percent-encoding of a byte string.
pub open spec fn url_bytes(b: Seq<u8>) -> Seq<char>
    decreases b.len(),
{
    if b.len() == 0 {
        Seq::empty()
    } else {
        url_bytes(b.drop_last()) + url_byte(b.last())
    }
}

/// Percent-encoding of the UTF-8 bytes of `s`.
pub open spec fn url_encoded(s: Seq<char>) -> Seq<char> {
    url_bytes(vstd::utf8::encode_utf8(s))
}

/// Minimal percent-encoding for secret paths placed in query strings.
pub fn urlencode(input: &str) -> (out: String)
    ensures
        out@ == url_encoded(input@),
{
    let b = input.as_bytes();
    let mut out = String::new();
    let mut i: usize = 0;
    while i < b.len()
        invariant
            b@ == vstd::utf8::encode_utf8(input@),
            i <= b.len(),
            out@ == url_bytes(b@.take(i as int)),
        decreases b.len() - i,
    {
        let x = b[i];
        if (65 <= x && x <= 90) || (97 <= x && x <= 122) || (48 <= x && x <= 57) || x == 45 || x == 95
            || x == 46 || x == 126 {
            push_char(&mut out, x as char);
        } else {
            push_char(&mut out, '%');
            push_char(&mut out, hex_digit_upper(x / 16));
            push_char(&mut out, hex_digit_upper(x % 16));
        }
        assert(b@.take(i + 1).drop_last() =~= b@.take(i as int));
        assert(out@ =~= url_bytes(b@.take(i + 1)));
        i = i + 1;
    }
    assert(b@.take(b.len() as int) =~= b@);
    out
}

/// Characters that may appear in percent-encoded text.
pub open spec fn url_safe_char(c: char) -> bool {
    ('A' <= c <= 'Z') || ('a' <= c <= 'z') || ('0' <= c <= '9') || c == '-' || c == '_' || c == '.' || c == '~'
        || c == '%'
}

/// Percent-encoded text holds only letters, digits, `-_.~` and `%`, so it
/// cannot end a query value or an attribute.
pub proof fn lemma_url_encoded_is_safe(b: Seq<u8>)
    ensures
        forall|i: int| 0 <= i < url_bytes(b).len() ==> url_safe_char(#[trigger] url_bytes(b)[i]),
    decreases b.len(),
{
    if b.len() > 0 {
        lemma_url_encoded_is_safe(b.drop_last());
        let a = url_bytes(b.drop_last());
        let c = url_byte(b.last());
        assert(url_bytes(b) == a + c);
        assert forall|i: int| 0 <= i < (a + c).len() implies url_safe_char(#[trigger] (a + c)[i]) by {
            if i >= a.len() {
                let x = b.last();
                if !url_unreserved(x) {
                    assert(0 <= x as int / 16 < 16);
                    assert(0 <= x as int % 16 < 16);
                }
            } else {
                assert((a + c)[i] == a[i]);
            }
        }
    }
}

// ─────────────────────────────────────────────────────────────────────────────
// Shared fragments
// ─────────────────────────────────────────────────────────────────────────────

/// The error banner for an optional message (nothing when absent).
pub open spec fn err_html(error: Option<Seq<char>>) -> Seq<char> {
    match error {
        Some(e) => Seq::<char>::empty() + "<div class=\"err\">"@ + escaped(e) + "</div>"@,
        None => Seq::empty(),
    }
}

fn err_div(error: Option<&str>) -> (s: String)
    ensures
        s@ == err_html(opt_view(error)),
{
    match error {
        Some(e) => {
            let mut s = String::new();
            s.append("<div class=\"err\">");
            s.append(escape(e).as_str());
            s.append("</div>");
            s
        },
        None => String::new(),
    }
}

/// An optional string's text, or `dflt` when absent.
pub open spec fn or_text(o: Option<String>, dflt: Seq<char>) -> Seq<char> {
    match o {
        Some(s) => s@,
        None => dflt,
    }
}

fn or_str<'a>(o: &'a Option<String>, dflt: &'a str) -> (r: &'a str)
    ensures
        r@ == or_text(*o, dflt@),
{
    match o {
        Some(s) => s.as_str(),
        None => dflt,
    }
}

/// The header's account link and logout control for a signed-in user.
pub open spec fn header_right_html(user: Option<Seq<char>>) -> Seq<char> {
    match user {
        Some(name) => Seq::<char>::empty() + "<a href=\"/gui/account/password\" class=\"muted\" title=\"Account\">"@ + escaped(name) + "</a> &nbsp;<form method=\"post\" action=\"/gui/logout\" style=\"margin:0;display:inline\"><button class=\"link\" type=\"submit\">Log out</button></form>"@,
        None => Seq::empty(),
    }
}

fn header_right(user: Option<&str>) -> (s: String)
    ensures
        s@ == header_right_html(opt_view(user)),
{
    match user {
        Some(name) => {
            let mut s = String::new();
            s.append("<a href=\"/gui/account/password\" class=\"muted\" title=\"Account\">");
            s.append(escape(name).as_str());
            s.append("</a> &nbsp;<form method=\"post\" action=\"/gui/logout\" style=\"margin:0;display:inline\"><button class=\"link\" type=\"submit\">Log out</button></form>");
            s
        },
        None => String::new(),
    }
}

/// The full page around `body`.
pub open spec fn layout_html(title: Seq<char>, user: Option<Seq<char>>, body: Seq<char>) -> Seq<char> {
    Seq::<char>::empty() + "<!doctype html><html lang=\"en\"><head><meta charset=\"utf-8\"><meta name=\"viewport\" content=\"width=device-width,initial-scale=1\"><title>"@ + escaped(title) + " · EasyVault</title><script>"@ + (THEME_SCRIPT@) + "</script><style>"@ + (STYLE@) + "</style></head><body><header><div class=\"brand\">Easy<span>Vault</span></div><div class=\"right\"><button class=\"link themetoggle\" type=\"button\" onclick=\"evToggleTheme()\" title=\"Toggle light / dark\" aria-label=\"Toggle theme\">◐</button>"@ + (header_right_html(user)) + "</div></header><main>"@ + (body) + "</main><div class=\"version\">v"@ + (APP_VERSION@) + "</div></body></html>"@
}

/// Wrap page `body` in the shared shell; `user` adds the header + logout control.
pub fn layout(title: &str, user: Option<&str>, body: &str) -> (html: String)
    ensures
        html@ == layout_html(title@, opt_view(user), body@),
{
    let right = header_right(user);
    let mut s = String::new();
    s.append("<!doctype html><html lang=\"en\"><head><meta charset=\"utf-8\"><meta name=\"viewport\" content=\"width=device-width,initial-scale=1\"><title>");
    s.append(escape(title).as_str());
    s.append(" · EasyVault</title><script>");
    s.append(THEME_SCRIPT);
    s.append("</script><style>");
    s.append(STYLE);
    s.append("</style></head><body><header><div class=\"brand\">Easy<span>Vault</span></div><div class=\"right\"><button class=\"link themetoggle\" type=\"button\" onclick=\"evToggleTheme()\" title=\"Toggle light / dark\" aria-label=\"Toggle theme\">◐</button>");
    s.append(right.as_str());
    s.append("</div></header><main>");
    s.append(body);
    s.append("</main><div class=\"version\">v");
    s.append(APP_VERSION);
    s.append("</div></body></html>");
    s
}

/// The exact text of `unseal_init_page`.
pub open spec fn unseal_init_page_html(error: Option<Seq<char>>) -> Seq<char> {
    layout_html("Initialize"@, None, Seq::<char>::empty() + "<div class=\"card\"><h1>Initialize EasyVault</h1><p class=\"muted\">This generates the master key and splits it into unseal shares. It runs once. The shares are shown only on the next screen — save them.</p>"@ + (err_html(error)) + "<form method=\"post\" action=\"/gui/unseal/init\"><label>Number of key shares</label><input name=\"shares\" type=\"number\" min=\"1\" value=\"5\"><label>Shares required to unseal (threshold)</label><input name=\"threshold\" type=\"number\" min=\"1\" value=\"3\"><button type=\"submit\">Initialize</button></form></div>"@)
}

/// First-run initialization form (choose share/threshold counts).
pub fn unseal_init_page(error: Option<&str>) -> (html: String)
    ensures
        html@ == unseal_init_page_html(opt_view(error)),
{
    let err = err_div(error);
    let mut body = String::new();
    body.append("<div class=\"card\"><h1>Initialize EasyVault</h1><p class=\"muted\">This generates the master key and splits it into unseal shares. It runs once. The shares are shown only on the next screen — save them.</p>");
    body.append(err.as_str());
    body.append("<form method=\"post\" action=\"/gui/unseal/init\"><label>Number of key shares</label><input name=\"shares\" type=\"number\" min=\"1\" value=\"5\"><label>Shares required to unseal (threshold)</label><input name=\"threshold\" type=\"number\" min=\"1\" value=\"3\"><button type=\"submit\">Initialize</button></form></div>");
    layout("Initialize", None, body.as_str())
}

/// The exact text of `unseal_page`.
pub open spec fn unseal_page_html(progress: usize, threshold: i64, error: Option<Seq<char>>) -> Seq<char> {
    layout_html("Unseal"@, None, Seq::<char>::empty() + "<div class=\"card\"><h1>EasyVault is sealed</h1><p class=\"muted\">Submit unseal shares one at a time. Progress: <strong>"@ + int_text((progress) as int) + " / "@ + int_text((threshold) as int) + "</strong>.</p>"@ + (err_html(error)) + "<form method=\"post\" action=\"/gui/unseal\"><label>Unseal share</label><input name=\"key\" autofocus required autocomplete=\"off\"><button type=\"submit\">Submit share</button></form></div>"@)
}

/// Sealed-state screen: submit one share at a time with a progress indicator.
pub fn unseal_page(progress: usize, threshold: i64, error: Option<&str>) -> (html: String)
    ensures
        html@ == unseal_page_html(progress, threshold, opt_view(error)),
{
    let err = err_div(error);
    let mut body = String::new();
    body.append("<div class=\"card\"><h1>EasyVault is sealed</h1><p class=\"muted\">Submit unseal shares one at a time. Progress: <strong>");
    push_usize(&mut body, progress);
    body.append(" / ");
    push_i64(&mut body, threshold);
    body.append("</strong>.</p>");
    body.append(err.as_str());
    body.append("<form method=\"post\" action=\"/gui/unseal\"><label>Unseal share</label><input name=\"key\" autofocus required autocomplete=\"off\"><button type=\"submit\">Submit share</button></form></div>");
    layout("Unseal", None, body.as_str())
}

/// The exact text of `setup_page`.
pub open spec fn setup_page_html(error: Option<Seq<char>>) -> Seq<char> {
    layout_html("Setup"@, None, Seq::<char>::empty() + "<div class=\"card\"><h1>Welcome to EasyVault</h1><h2>Create the master account</h2>"@ + (err_html(error)) + "<form method=\"post\" action=\"/gui/setup\"><label>Username</label><input name=\"username\" autofocus required><label>Password</label><input name=\"password\" type=\"password\" required><p class=\"muted\">At least 8 characters. This account manages all users and vaults.</p><button type=\"submit\">Create master account</button></form></div>"@)
}

/// First-run page to create the initial master user.
pub fn setup_page(error: Option<&str>) -> (html: String)
    ensures
        html@ == setup_page_html(opt_view(error)),
{
    let err = err_div(error);
    let mut body = String::new();
    body.append("<div class=\"card\"><h1>Welcome to EasyVault</h1><h2>Create the master account</h2>");
    body.append(err.as_str());
    body.append("<form method=\"post\" action=\"/gui/setup\"><label>Username</label><input name=\"username\" autofocus required><label>Password</label><input name=\"password\" type=\"password\" required><p class=\"muted\">At least 8 characters. This account manages all users and vaults.</p><button type=\"submit\">Create master account</button></form></div>");
    layout("Setup", None, body.as_str())
}

/// The exact text of `login_page`.
pub open spec fn login_page_html(error: Option<Seq<char>>) -> Seq<char> {
    layout_html("Sign in"@, None, Seq::<char>::empty() + "<div class=\"card\"><h1>Sign in</h1>"@ + (err_html(error)) + "<form method=\"post\" action=\"/gui/login\"><label>Username</label><input name=\"username\" autofocus required><label>Password</label><input name=\"password\" type=\"password\" required><button type=\"submit\">Sign in</button></form></div>"@)
}

/// Username + password login form.
pub fn login_page(error: Option<&str>) -> (html: String)
    ensures
        html@ == login_page_html(opt_view(error)),
{
    let err = err_div(error);
    let mut body = String::new();
    body.append("<div class=\"card\"><h1>Sign in</h1>");
    body.append(err.as_str());
    body.append("<form method=\"post\" action=\"/gui/login\"><label>Username</label><input name=\"username\" autofocus required><label>Password</label><input name=\"password\" type=\"password\" required><button type=\"submit\">Sign in</button></form></div>");
    layout("Sign in", None, body.as_str())
}

/// The success banner of the password page.
pub open spec fn ok_note_html(ok: Option<Seq<char>>) -> Seq<char> {
    match ok {
        Some(m) => Seq::<char>::empty() + "<div class=\"err\" style=\"background:var(--ok-bg);border-color:var(--ok-border);color:var(--ok-fg)\">"@ + escaped(m) + "</div>"@,
        None => Seq::empty(),
    }
}

fn ok_note(ok: Option<&str>) -> (s: String)
    ensures
        s@ == ok_note_html(opt_view(ok)),
{
    match ok {
        Some(m) => {
            let mut s = String::new();
            s.append("<div class=\"err\" style=\"background:var(--ok-bg);border-color:var(--ok-border);color:var(--ok-fg)\">");
            s.append(escape(m).as_str());
            s.append("</div>");
            s
        },
        None => String::new(),
    }
}

/// The exact text of `account_password_page`.
pub open spec fn account_password_page_html(username: Seq<char>, error: Option<Seq<char>>, ok: Option<Seq<char>>) -> Seq<char> {
    layout_html("Change password"@, Some(username), Seq::<char>::empty() + "<p><a href=\"/gui/\">&larr; Dashboard</a></p><div class=\"card\"><h1>Change password</h1>"@ + (err_html(error)) + (ok_note_html(ok)) + "<form method=\"post\" action=\"/gui/account/password\"><label>Current password</label><input name=\"current\" type=\"password\" autofocus required><label>New password</label><input name=\"new_password\" type=\"password\" required><p class=\"muted\">At least 8 characters. Your vault access is preserved.</p><button type=\"submit\">Change password</button></form></div>"@)
}

/// Self-service password change form (current + new password).
pub fn account_password_page(username: &str, error: Option<&str>, ok: Option<&str>) -> (html: String)
    ensures
        html@ == account_password_page_html(username@, opt_view(error), opt_view(ok)),
{
    let err = err_div(error);
    let note = ok_note(ok);
    let mut body = String::new();
    body.append("<p><a href=\"/gui/\">&larr; Dashboard</a></p><div class=\"card\"><h1>Change password</h1>");
    body.append(err.as_str());
    body.append(note.as_str());
    body.append("<form method=\"post\" action=\"/gui/account/password\"><label>Current password</label><input name=\"current\" type=\"password\" autofocus required><label>New password</label><input name=\"new_password\" type=\"password\" required><p class=\"muted\">At least 8 characters. Your vault access is preserved.</p><button type=\"submit\">Change password</button></form></div>");
    layout("Change password", Some(username), body.as_str())
}

/// The exact text of `vault_create_page`.
pub open spec fn vault_create_page_html(username: Seq<char>, error: Option<Seq<char>>) -> Seq<char> {
    layout_html("New vault"@, Some(username), Seq::<char>::empty() + "<div class=\"card\"><h1>New vault</h1>"@ + (err_html(error)) + "<form method=\"post\" action=\"/gui/vaults\"><label>Name</label><input name=\"name\" autofocus required><label>Description</label><input name=\"description\"><button type=\"submit\">Create vault</button>&nbsp;<a href=\"/gui/\">Cancel</a></form></div>"@)
}

/// Master-only form to create a new vault.
pub fn vault_create_page(username: &str, error: Option<&str>) -> (html: String)
    ensures
        html@ == vault_create_page_html(username@, opt_view(error)),
{
    let err = err_div(error);
    let mut body = String::new();
    body.append("<div class=\"card\"><h1>New vault</h1>");
    body.append(err.as_str());
    body.append("<form method=\"post\" action=\"/gui/vaults\"><label>Name</label><input name=\"name\" autofocus required><label>Description</label><input name=\"description\"><button type=\"submit\">Create vault</button>&nbsp;<a href=\"/gui/\">Cancel</a></form></div>");
    layout("New vault", Some(username), body.as_str())
}

/// The exact text of `token_created_page`.
pub open spec fn token_created_page_html(username: Seq<char>, vault_id: Seq<char>, vault_name: Seq<char>, raw_token: Seq<char>) -> Seq<char> {
    layout_html("Token created"@, Some(username), Seq::<char>::empty() + "<div class=\"card\"><h1>Token created</h1><div class=\"err\">Copy this token now — it will not be shown again.</div><pre style=\"background:var(--bg);border:1px solid var(--border);border-radius:8px;padding:14px;overflow:auto;color:var(--brand);font-size:15px\">"@ + escaped(raw_token) + "</pre><p class=\"muted\">Use it as <code>X-Vault-Token</code> against <code>/v1/secret/data/&lt;path&gt;</code>.</p><a href=\"/gui/vaults/"@ + escaped(vault_id) + "/tokens\"><button type=\"button\">Done</button></a></div>"@)
}

/// One-time display of a freshly minted token's secret value.
pub fn token_created_page(username: &str, vault_id: &str, vault_name: &str, raw_token: &str) -> (html: String)
    ensures
        html@ == token_created_page_html(username@, vault_id@, vault_name@, raw_token@),
{
    let mut body = String::new();
    body.append("<div class=\"card\"><h1>Token created</h1><div class=\"err\">Copy this token now — it will not be shown again.</div><pre style=\"background:var(--bg);border:1px solid var(--border);border-radius:8px;padding:14px;overflow:auto;color:var(--brand);font-size:15px\">");
    body.append(escape(raw_token).as_str());
    body.append("</pre><p class=\"muted\">Use it as <code>X-Vault-Token</code> against <code>/v1/secret/data/&lt;path&gt;</code>.</p><a href=\"/gui/vaults/");
    body.append(escape(vault_id).as_str());
    body.append("/tokens\"><button type=\"button\">Done</button></a></div>");
    layout("Token created", Some(username), body.as_str())
}

/// The exact text of `approle_secret_page`.
pub open spec fn approle_secret_page_html(username: Seq<char>, vault_id: Seq<char>, vault_name: Seq<char>, role_id: Seq<char>, secret_id: Seq<char>) -> Seq<char> {
    layout_html("Secret ID"@, Some(username), Seq::<char>::empty() + "<div class=\"card\"><h1>Secret ID issued</h1><div class=\"err\">Copy the secret_id now — it will not be shown again.</div><div class=\"kv\" style=\"margin-bottom:8px\"><div class=\"k\">role_id</div><div class=\"v\" style=\"font-family:ui-monospace,monospace;word-break:break-all\">"@ + escaped(role_id) + "</div></div><div class=\"kv\"><div class=\"k\">secret_id</div><div class=\"v\" style=\"font-family:ui-monospace,monospace;word-break:break-all;color:var(--brand)\">"@ + escaped(secret_id) + "</div></div><h2 style=\"margin-top:18px\">Login</h2><pre style=\"padding:14px;overflow:auto\">curl -X POST $ADDR/v1/auth/approle/login \\\n  -d '{\"role_id\":\""@ + escaped(role_id) + "\",\"secret_id\":\""@ + escaped(secret_id) + "\"}'</pre><a href=\"/gui/vaults/"@ + escaped(vault_id) + "/approles\"><button type=\"button\">Done</button></a></div>"@)
}

/// One-time display of a freshly issued secret-id (+ the role_id + a usage hint).
pub fn approle_secret_page(username: &str, vault_id: &str, vault_name: &str, role_id: &str, secret_id: &str) -> (html: String)
    ensures
        html@ == approle_secret_page_html(username@, vault_id@, vault_name@, role_id@, secret_id@),
{
    let mut body = String::new();
    body.append("<div class=\"card\"><h1>Secret ID issued</h1><div class=\"err\">Copy the secret_id now — it will not be shown again.</div><div class=\"kv\" style=\"margin-bottom:8px\"><div class=\"k\">role_id</div><div class=\"v\" style=\"font-family:ui-monospace,monospace;word-break:break-all\">");
    body.append(escape(role_id).as_str());
    body.append("</div></div><div class=\"kv\"><div class=\"k\">secret_id</div><div class=\"v\" style=\"font-family:ui-monospace,monospace;word-break:break-all;color:var(--brand)\">");
    body.append(escape(secret_id).as_str());
    body.append("</div></div><h2 style=\"margin-top:18px\">Login</h2><pre style=\"padding:14px;overflow:auto\">curl -X POST $ADDR/v1/auth/approle/login \\\n  -d '{\"role_id\":\"");
    body.append(escape(role_id).as_str());
    body.append("\",\"secret_id\":\"");
    body.append(escape(secret_id).as_str());
    body.append("\"}'</pre><a href=\"/gui/vaults/");
    body.append(escape(vault_id).as_str());
    body.append("/approles\"><button type=\"button\">Done</button></a></div>");
    layout("Secret ID", Some(username), body.as_str())
}

/// The exact text of `secret_new_page`.
pub open spec fn secret_new_page_html(username: Seq<char>, vault_id: Seq<char>, vault_name: Seq<char>, error: Option<Seq<char>>, path: Seq<char>, data: Seq<char>) -> Seq<char> {
    layout_html("Add secret"@, Some(username), Seq::<char>::empty() + "<p><a href=\"/gui/vaults/"@ + escaped(vault_id) + "\">&larr; "@ + escaped(vault_name) + "</a></p><div class=\"card\"><h1>Add secret</h1>"@ + (err_html(error)) + "<form method=\"post\" action=\"/gui/vaults/"@ + escaped(vault_id) + "/secret\"><label>Path</label><input name=\"path\" placeholder=\"db/postgres/password\" value=\""@ + escaped(path) + "\" required><label>Data (JSON object)</label><textarea name=\"data\" rows=\"6\" style=\"width:100%;font-family:ui-monospace,monospace;padding:10px;border:1px solid var(--border);border-radius:7px;background:var(--bg);color:var(--fg)\" placeholder='{\"password\": \"s3cr3t\"}' required>"@ + escaped(data) + "</textarea><label>Max reads (blank = unlimited; 1 = single-use, burns after one read)</label><input name=\"max_reads\" type=\"number\" min=\"1\" placeholder=\"unlimited\"><button type=\"submit\">Save secret</button></form></div>"@)
}

/// Form to write a new secret (path + JSON object) into a vault.
pub fn secret_new_page(username: &str, vault_id: &str, vault_name: &str, error: Option<&str>, path: &str, data: &str) -> (html: String)
    ensures
        html@ == secret_new_page_html(username@, vault_id@, vault_name@, opt_view(error), path@, data@),
{
    let err = err_div(error);
    let mut body = String::new();
    body.append("<p><a href=\"/gui/vaults/");
    body.append(escape(vault_id).as_str());
    body.append("\">&larr; ");
    body.append(escape(vault_name).as_str());
    body.append("</a></p><div class=\"card\"><h1>Add secret</h1>");
    body.append(err.as_str());
    body.append("<form method=\"post\" action=\"/gui/vaults/");
    body.append(escape(vault_id).as_str());
    body.append("/secret\"><label>Path</label><input name=\"path\" placeholder=\"db/postgres/password\" value=\"");
    body.append(escape(path).as_str());
    body.append("\" required><label>Data (JSON object)</label><textarea name=\"data\" rows=\"6\" style=\"width:100%;font-family:ui-monospace,monospace;padding:10px;border:1px solid var(--border);border-radius:7px;background:var(--bg);color:var(--fg)\" placeholder='{\"password\": \"s3cr3t\"}' required>");
    body.append(escape(data).as_str());
    body.append("</textarea><label>Max reads (blank = unlimited; 1 = single-use, burns after one read)</label><input name=\"max_reads\" type=\"number\" min=\"1\" placeholder=\"unlimited\"><button type=\"submit\">Save secret</button></form></div>");
    layout("Add secret", Some(username), body.as_str())
}

/// The exact text of `notice_page`.
pub open spec fn notice_page_html(username: Option<Seq<char>>, title: Seq<char>, message: Seq<char>) -> Seq<char> {
    layout_html(title, username, Seq::<char>::empty() + "<div class=\"card\"><h1>"@ + escaped(title) + "</h1><p class=\"muted\">"@ + escaped(message) + "</p><a href=\"/gui/\">&larr; Back to dashboard</a></div>"@)
}

/// Generic single-message page (sealed instance, forbidden, etc.).
pub fn notice_page(username: Option<&str>, title: &str, message: &str) -> (html: String)
    ensures
        html@ == notice_page_html(opt_view(username), title@, message@),
{
    let mut body = String::new();
    body.append("<div class=\"card\"><h1>");
    body.append(escape(title).as_str());
    body.append("</h1><p class=\"muted\">");
    body.append(escape(message).as_str());
    body.append("</p><a href=\"/gui/\">&larr; Back to dashboard</a></div>");
    layout(title, username, body.as_str())
}

/// The badge text for the global master / ordinary user role.
pub open spec fn role_pill_html(is_master: bool) -> Seq<char> {
    if is_master { "<span class=\"pill ok\">master</span>"@ } else { "<span class=\"pill warn\">user</span>"@ }
}

/// Badge for the global master / ordinary user role.
pub fn role_pill(is_master: bool) -> (s: &'static str)
    ensures
        s@ == role_pill_html(is_master),
{
    if is_master { "<span class=\"pill ok\">master</span>" } else { "<span class=\"pill warn\">user</span>" }
}

/// The badge text for the seal state.
pub open spec fn seal_pill_html(sealed: bool) -> Seq<char> {
    if sealed { "<span class=\"pill warn\">sealed</span>"@ } else { "<span class=\"pill ok\">unsealed</span>"@ }
}

/// Badge for the seal state.
pub fn seal_pill(sealed: bool) -> (s: &'static str)
    ensures
        s@ == seal_pill_html(sealed),
{
    if sealed { "<span class=\"pill warn\">sealed</span>" } else { "<span class=\"pill ok\">unsealed</span>" }
}

/// The coloured pill for a per-vault role string.
pub open spec fn role_badge_html(role: Seq<char>) -> Seq<char> {
    Seq::<char>::empty() + "<span class=\"pill "@ + (if role == "viewer"@ { "warn"@ } else { "ok"@ }) + "\">"@ + escaped(role) + "</span>"@
}

/// Render a per-vault role string as a coloured pill.
pub fn role_badge(role: &str) -> (html: String)
    ensures
        html@ == role_badge_html(role@),
{
    let cls = if str_eq(role, "viewer") { "warn" } else { "ok" };
    let mut s = String::new();
    s.append("<span class=\"pill ");
    s.append(cls);
    s.append("\">");
    s.append(escape(role).as_str());
    s.append("</span>");
    s
}

// ─────────────────────────────────────────────────────────────────────────────
// Listings rendered by the pages
// ─────────────────────────────────────────────────────────────────────────────

/// A vault entry to render in lists: (id, name, optional description).
pub struct VaultListItem {
    pub id: String,
    pub name: String,
    pub description: Option<String>,
}

/// A user as listed on the user-management page.
pub struct UserListItem {
    pub id: String,
    pub username: String,
    pub is_master: bool,
    pub active: bool,
}

/// A secret path with its current version.
pub struct SecretListing {
    pub path: String,
    pub version: i64,
}

/// One stored version of a secret.
pub struct SecretVersion {
    pub version: i64,
    pub created_at: String,
    pub deleted: bool,
}

/// An API token as listed on the token page (never the token itself).
pub struct TokenListing {
    pub id: String,
    pub display_name: Option<String>,
    pub allowed_paths: String,
    pub allowed_ips: String,
    pub expires_at: Option<String>,
    pub last_used_at: Option<String>,
    pub revoked: bool,
}

/// An AppRole as listed on the AppRole page.
pub struct ApproleListing {
    pub id: String,
    pub name: String,
    pub role_id: String,
    pub allowed_paths: String,
    pub token_ttl: Option<i64>,
}

/// Inputs for `vault_detail_page` — grouped to keep the call site readable.
pub struct VaultDetail<'a> {
    pub username: &'a str,
    pub vault_id: &'a str,
    pub vault_name: &'a str,
    pub description: &'a str,
    pub secrets: &'a [SecretListing],
    pub can_read: bool,
    pub can_write: bool,
    pub can_assign: bool,
    pub error: Option<&'a str>,
}

/// Inputs for `vault_settings_page` (management: members + key rotation).
pub struct VaultSettings<'a> {
    pub username: &'a str,
    pub vault_id: &'a str,
    pub vault_name: &'a str,
    pub members: &'a [VaultMember],
    pub current_user_id: &'a str,
    pub error: Option<&'a str>,
}

/// One unseal share, numbered from one.
pub open spec fn share_row_html(number: nat, k: Seq<char>) -> Seq<char> {
    Seq::<char>::empty() + "<div class=\"kv\" style=\"margin-bottom:8px\"><div class=\"k\">Share "@ + int_text((number) as int) + "</div><div class=\"v\" style=\"font-family:ui-monospace,monospace;word-break:break-all\">"@ + escaped(k) + "</div></div>"@
}

fn share_row(number: usize, k: &String) -> (s: String)
    ensures
        s@ == share_row_html(number as nat, k@),
{
    let mut s = String::new();
    s.append("<div class=\"kv\" style=\"margin-bottom:8px\"><div class=\"k\">Share ");
    push_usize(&mut s, number);
    s.append("</div><div class=\"v\" style=\"font-family:ui-monospace,monospace;word-break:break-all\">");
    s.append(escape(k.as_str()).as_str());
    s.append("</div></div>");
    s
}

/// The first `n` shares of `keys`, numbered 1 to `n`.
pub open spec fn share_rows_html(keys: Seq<String>, n: int) -> Seq<char>
    decreases n,
{
    if n <= 0 {
        Seq::empty()
    } else {
        share_rows_html(keys, n - 1) + share_row_html(n as nat, keys[n - 1]@)
    }
}

/// The exact text of `unseal_shares_page`.
pub open spec fn unseal_shares_page_html(keys: Seq<String>, threshold: usize) -> Seq<char> {
    layout_html("Unseal shares"@, None, Seq::<char>::empty() + "<div class=\"card\"><h1>Save your unseal shares</h1><div class=\"err\">Copy these now — they are shown only once. You need any "@ + int_text((threshold) as int) + " of them to unseal after every restart. Lose them and the data is unrecoverable; anyone with "@ + int_text((threshold) as int) + " can unseal the instance.</div>"@ + (share_rows_html(keys, keys.len() as int)) + "<a href=\"/gui/unseal\"><button type=\"button\">I've saved them — continue to unseal</button></a></div>"@)
}

/// One-time display of the generated unseal shares (must be saved now).
pub fn unseal_shares_page(keys: &[String], threshold: usize) -> (html: String)
    ensures
        html@ == unseal_shares_page_html(keys@, threshold),
{
    let mut list = String::new();
    let mut i: usize = 0;
    while i < keys.len()
        invariant
            i <= keys.len(),
            list@ == share_rows_html(keys@, i as int),
        decreases keys.len() - i,
    {
        let r = share_row(i + 1, &keys[i]);
        list.append(r.as_str());
        i = i + 1;
    }
    let mut body = String::new();
    body.append("<div class=\"card\"><h1>Save your unseal shares</h1><div class=\"err\">Copy these now — they are shown only once. You need any ");
    push_usize(&mut body, threshold);
    body.append(" of them to unseal after every restart. Lose them and the data is unrecoverable; anyone with ");
    push_usize(&mut body, threshold);
    body.append(" can unseal the instance.</div>");
    body.append(list.as_str());
    body.append("<a href=\"/gui/unseal\"><button type=\"button\">I've saved them — continue to unseal</button></a></div>");
    layout("Unseal shares", None, body.as_str())
}

/// One vault row of the dashboard table.
pub open spec fn vault_row_html(x: VaultListItem) -> Seq<char> {
    Seq::<char>::empty() + "<tr><td><a href=\"/gui/vaults/"@ + escaped(x.id@) + "\">"@ + escaped(x.name@) + "</a></td><td class=\"muted\">"@ + escaped(or_text(x.description, ""@)) + "</td></tr>"@
}

fn vault_row(x: &VaultListItem) -> (s: String)
    ensures
        s@ == vault_row_html(*x),
{
    let desc = or_str(&x.description, "");
    let mut s = String::new();
    s.append("<tr><td><a href=\"/gui/vaults/");
    s.append(escape(x.id.as_str()).as_str());
    s.append("\">");
    s.append(escape(x.name.as_str()).as_str());
    s.append("</a></td><td class=\"muted\">");
    s.append(escape(desc).as_str());
    s.append("</td></tr>");
    s
}

/// The first `n` vault rows.
pub open spec fn vault_rows_html(xs: Seq<VaultListItem>, n: int) -> Seq<char>
    decreases n,
{
    if n <= 0 {
        Seq::empty()
    } else {
        vault_rows_html(xs, n - 1) + vault_row_html(xs[n - 1])
    }
}

fn vault_rows(xs: &[VaultListItem]) -> (s: String)
    ensures
        s@ == vault_rows_html(xs@, xs@.len() as int),
{
    let mut s = String::new();
    let mut i: usize = 0;
    while i < xs.len()
        invariant
            i <= xs.len(),
            s@ == vault_rows_html(xs@, i as int),
        decreases xs.len() - i,
    {
        let r = vault_row(&xs[i]);
        s.append(r.as_str());
        i = i + 1;
    }
    s
}

/// The exact text of `dashboard_page`.
pub open spec fn dashboard_page_html(username: Seq<char>, is_master: bool, sealed: bool, vaults: Seq<VaultListItem>) -> Seq<char> {
    layout_html("Dashboard"@, Some(username), Seq::<char>::empty() + "<div class=\"card\"><h1>Dashboard</h1><h2>Signed in as "@ + escaped(username) + " "@ + (role_pill_html(is_master)) + "</h2><div class=\"grid\"><div class=\"kv\"><div class=\"k\">Instance</div><div class=\"v\">"@ + (seal_pill_html(sealed)) + "</div></div><div class=\"kv\"><div class=\"k\">Your vaults</div><div class=\"v\">"@ + int_text((vaults.len()) as int) + "</div></div></div>"@ + ((if sealed { "<p class=\"muted\">The instance is sealed — vault and secret operations are blocked until it is unsealed via <code>/v1/sys/unseal</code>.</p>"@ } else { ""@ })) + ((if is_master { "<p style=\"margin-top:14px\"><a href=\"/gui/users\">Manage users &rarr;</a> &nbsp;·&nbsp; <a href=\"/gui/audit\">Audit log &rarr;</a></p>"@ } else { ""@ })) + ((if is_master && !sealed { "<form method=\"post\" action=\"/gui/seal\" style=\"margin-top:10px\" onsubmit=\"return confirm('Seal the instance? All secret access stops until it is unsealed again.');\"><button type=\"submit\" class=\"btn-danger\">Seal instance</button><span class=\"muted\"> — drops the master key from memory.</span></form>"@ } else { ""@ })) + "</div><div class=\"card\"><div style=\"display:flex;justify-content:space-between;align-items:center\"><h2 style=\"margin:0\">Vaults</h2>"@ + ((if is_master && !sealed { "<a href=\"/gui/vaults/new\"><button type=\"button\">New vault</button></a>"@ } else { ""@ })) + "</div>"@ + ((if vaults.len() == 0 { Seq::<char>::empty() + "<p class=\"muted\">No vaults yet.</p>"@ } else { Seq::<char>::empty() + "<table><tr><th>Vault</th><th>Description</th></tr>"@ + (vault_rows_html(vaults, vaults.len() as int)) + "</table>"@ })) + "</div>"@)
}

/// Authenticated landing: identity, instance seal state, and the user's vaults.
pub fn dashboard_page(username: &str, is_master: bool, sealed: bool, vaults: &[VaultListItem]) -> (html: String)
    ensures
        html@ == dashboard_page_html(username@, is_master, sealed, vaults@),
{
    let role = role_pill(is_master);
    let seal = seal_pill(sealed);
    let seal_note: &str = if sealed { "<p class=\"muted\">The instance is sealed — vault and secret operations are blocked until it is unsealed via <code>/v1/sys/unseal</code>.</p>" } else { "" };
    let new_vault: &str = if is_master && !sealed { "<a href=\"/gui/vaults/new\"><button type=\"button\">New vault</button></a>" } else { "" };
    let admin_link: &str = if is_master { "<p style=\"margin-top:14px\"><a href=\"/gui/users\">Manage users &rarr;</a> &nbsp;·&nbsp; <a href=\"/gui/audit\">Audit log &rarr;</a></p>" } else { "" };
    let seal_button: &str = if is_master && !sealed { "<form method=\"post\" action=\"/gui/seal\" style=\"margin-top:10px\" onsubmit=\"return confirm('Seal the instance? All secret access stops until it is unsealed again.');\"><button type=\"submit\" class=\"btn-danger\">Seal instance</button><span class=\"muted\"> — drops the master key from memory.</span></form>" } else { "" };
    let rows = vault_rows(vaults);
    let vault_rows = if vaults.len() == 0 {
        let mut vault_rows = String::new();
        vault_rows.append("<p class=\"muted\">No vaults yet.</p>");
        vault_rows
    } else {
        let mut vault_rows = String::new();
        vault_rows.append("<table><tr><th>Vault</th><th>Description</th></tr>");
        vault_rows.append(rows.as_str());
        vault_rows.append("</table>");
        vault_rows
    };
    let mut body = String::new();
    body.append("<div class=\"card\"><h1>Dashboard</h1><h2>Signed in as ");
    body.append(escape(username).as_str());
    body.append(" ");
    body.append(role);
    body.append("</h2><div class=\"grid\"><div class=\"kv\"><div class=\"k\">Instance</div><div class=\"v\">");
    body.append(seal);
    body.append("</div></div><div class=\"kv\"><div class=\"k\">Your vaults</div><div class=\"v\">");
    push_usize(&mut body, vaults.len());
    body.append("</div></div></div>");
    body.append(seal_note);
    body.append(admin_link);
    body.append(seal_button);
    body.append("</div><div class=\"card\"><div style=\"display:flex;justify-content:space-between;align-items:center\"><h2 style=\"margin:0\">Vaults</h2>");
    body.append(new_vault);
    body.append("</div>");
    body.append(vault_rows.as_str());
    body.append("</div>");
    layout("Dashboard", Some(username), body.as_str())
}

/// One user row: name, role, state and the enable/disable control.
pub open spec fn user_row_html(x: UserListItem, current_user_id: Seq<char>) -> Seq<char> {
    Seq::<char>::empty() + "<tr><td>"@ + escaped(x.username@) + "</td><td>"@ + (role_pill_html(x.is_master)) + "</td><td>"@ + ((if x.active { "<span class=\"pill ok\">active</span>"@ } else { "<span class=\"pill warn\">disabled</span>"@ })) + "</td><td>"@ + ((if x.id@ == current_user_id || x.is_master { Seq::<char>::empty() } else if x.active { Seq::<char>::empty() + "<form method=\"post\" action=\"/gui/users/"@ + escaped(x.id@) + "/disable\" style=\"margin:0\"><button class=\"link\" type=\"submit\">disable</button></form>"@ } else { Seq::<char>::empty() + "<form method=\"post\" action=\"/gui/users/"@ + escaped(x.id@) + "/enable\" style=\"margin:0\"><button class=\"link\" type=\"submit\">enable</button></form>"@ })) + "</td></tr>"@
}

fn user_row(x: &UserListItem, current_user_id: &str) -> (s: String)
    ensures
        s@ == user_row_html(*x, current_user_id@),
{
    let action = if str_eq(x.id.as_str(), current_user_id) || x.is_master {
        String::new()
    } else if x.active {
        let mut action = String::new();
        action.append("<form method=\"post\" action=\"/gui/users/");
        action.append(escape(x.id.as_str()).as_str());
        action.append("/disable\" style=\"margin:0\"><button class=\"link\" type=\"submit\">disable</button></form>");
        action
    } else {
        let mut action = String::new();
        action.append("<form method=\"post\" action=\"/gui/users/");
        action.append(escape(x.id.as_str()).as_str());
        action.append("/enable\" style=\"margin:0\"><button class=\"link\" type=\"submit\">enable</button></form>");
        action
    };
    let state: &str = if x.active { "<span class=\"pill ok\">active</span>" } else { "<span class=\"pill warn\">disabled</span>" };
    let mut s = String::new();
    s.append("<tr><td>");
    s.append(escape(x.username.as_str()).as_str());
    s.append("</td><td>");
    s.append(role_pill(x.is_master));
    s.append("</td><td>");
    s.append(state);
    s.append("</td><td>");
    s.append(action.as_str());
    s.append("</td></tr>");
    s
}

/// The first `n` user rows.
pub open spec fn user_rows_html(xs: Seq<UserListItem>, current_user_id: Seq<char>, n: int) -> Seq<char>
    decreases n,
{
    if n <= 0 {
        Seq::empty()
    } else {
        user_rows_html(xs, current_user_id, n - 1) + user_row_html(xs[n - 1], current_user_id)
    }
}

fn user_rows(xs: &[UserListItem], current_user_id: &str) -> (s: String)
    ensures
        s@ == user_rows_html(xs@, current_user_id@, xs@.len() as int),
{
    let mut s = String::new();
    let mut i: usize = 0;
    while i < xs.len()
        invariant
            i <= xs.len(),
            s@ == user_rows_html(xs@, current_user_id@, i as int),
        decreases xs.len() - i,
    {
        let r = user_row(&xs[i], current_user_id);
        s.append(r.as_str());
        i = i + 1;
    }
    s
}

/// The exact text of `users_page`.
pub open spec fn users_page_html(username: Seq<char>, current_user_id: Seq<char>, users: Seq<UserListItem>, error: Option<Seq<char>>) -> Seq<char> {
    layout_html("Users"@, Some(username), Seq::<char>::empty() + "<p><a href=\"/gui/\">&larr; Dashboard</a></p><div class=\"card\"><h1>Users</h1>"@ + (err_html(error)) + (Seq::<char>::empty() + "<table><tr><th>Username</th><th>Role</th><th>State</th><th></th></tr>"@ + (user_rows_html(users, current_user_id, users.len() as int)) + "</table>"@) + "</div><div class=\"card\"><h2>Add user</h2><form method=\"post\" action=\"/gui/users\"><label>Username</label><input name=\"username\" required><label>Password</label><input name=\"password\" type=\"password\" required><p class=\"muted\">Creates a standard (non-master) user.</p><button type=\"submit\">Create user</button></form></div>"@)
}

/// Master-only user management: list users and create additional (non-master) ones.
pub fn users_page(username: &str, current_user_id: &str, users: &[UserListItem], error: Option<&str>) -> (html: String)
    ensures
        html@ == users_page_html(username@, current_user_id@, users@, opt_view(error)),
{
    let err = err_div(error);
    let list = user_rows(users, current_user_id);
    let mut rows = String::new();
    rows.append("<table><tr><th>Username</th><th>Role</th><th>State</th><th></th></tr>");
    rows.append(list.as_str());
    rows.append("</table>");
    let mut body = String::new();
    body.append("<p><a href=\"/gui/\">&larr; Dashboard</a></p><div class=\"card\"><h1>Users</h1>");
    body.append(err.as_str());
    body.append(rows.as_str());
    body.append("</div><div class=\"card\"><h2>Add user</h2><form method=\"post\" action=\"/gui/users\"><label>Username</label><input name=\"username\" required><label>Password</label><input name=\"password\" type=\"password\" required><p class=\"muted\">Creates a standard (non-master) user.</p><button type=\"submit\">Create user</button></form></div>");
    layout("Users", Some(username), body.as_str())
}

/// One secret row: path, version and a view link.
pub open spec fn secret_row_html(x: SecretListing, vault_id: Seq<char>) -> Seq<char> {
    Seq::<char>::empty() + "<tr><td>"@ + escaped(x.path@) + "</td><td>v"@ + int_text((x.version) as int) + "</td><td><a href=\""@ + (Seq::<char>::empty() + "/gui/vaults/"@ + escaped(vault_id) + "/secret?path="@ + (url_encoded(x.path@))) + "\">view</a></td></tr>"@
}

fn secret_row(x: &SecretListing, vault_id: &str) -> (s: String)
    ensures
        s@ == secret_row_html(*x, vault_id@),
{
    let enc = urlencode(x.path.as_str());
    let mut href = String::new();
    href.append("/gui/vaults/");
    href.append(escape(vault_id).as_str());
    href.append("/secret?path=");
    href.append(enc.as_str());
    let mut s = String::new();
    s.append("<tr><td>");
    s.append(escape(x.path.as_str()).as_str());
    s.append("</td><td>v");
    push_i64(&mut s, x.version);
    s.append("</td><td><a href=\"");
    s.append(href.as_str());
    s.append("\">view</a></td></tr>");
    s
}

/// The first `n` secret rows.
pub open spec fn secret_rows_html(xs: Seq<SecretListing>, vault_id: Seq<char>, n: int) -> Seq<char>
    decreases n,
{
    if n <= 0 {
        Seq::empty()
    } else {
        secret_rows_html(xs, vault_id, n - 1) + secret_row_html(xs[n - 1], vault_id)
    }
}

fn secret_rows(xs: &[SecretListing], vault_id: &str) -> (s: String)
    ensures
        s@ == secret_rows_html(xs@, vault_id@, xs@.len() as int),
{
    let mut s = String::new();
    let mut i: usize = 0;
    while i < xs.len()
        invariant
            i <= xs.len(),
            s@ == secret_rows_html(xs@, vault_id@, i as int),
        decreases xs.len() - i,
    {
        let r = secret_row(&xs[i], vault_id);
        s.append(r.as_str());
        i = i + 1;
    }
    s
}

/// The exact text of `vault_detail_page`.
pub open spec fn vault_detail_page_html(d: VaultDetail) -> Seq<char> {
    layout_html(d.vault_name@, Some(d.username@), Seq::<char>::empty() + "<p><a href=\"/gui/\">&larr; Dashboard</a></p>"@ + (err_html(opt_view(d.error))) + "<div class=\"card\"><div style=\"display:flex;justify-content:space-between;align-items:center\"><h1 style=\"margin:0\">"@ + escaped(d.vault_name@) + "</h1>"@ + ((if d.can_assign { Seq::<char>::empty() + "<a href=\"/gui/vaults/"@ + escaped(d.vault_id@) + "/settings\"><button type=\"button\" class=\"btn-neutral\">Settings</button></a>"@ } else { Seq::<char>::empty() })) + "</div>"@ + ((if d.description@.len() == 0 { Seq::<char>::empty() } else { Seq::<char>::empty() + "<p class=\"muted\">"@ + escaped(d.description@) + "</p>"@ })) + "</div>"@ + ((if d.can_read { Seq::<char>::empty() + "<div class=\"card\"><div style=\"display:flex;justify-content:space-between;align-items:center\"><h2 style=\"margin:0\">Secrets</h2>"@ + ((if d.can_write { Seq::<char>::empty() + "<a href=\"/gui/vaults/"@ + escaped(d.vault_id@) + "/approles\"><button type=\"button\" class=\"btn-neutral\">AppRoles</button></a> <a href=\"/gui/vaults/"@ + escaped(d.vault_id@) + "/tokens\"><button type=\"button\" class=\"btn-neutral\">Tokens</button></a> <a href=\"/gui/vaults/"@ + escaped(d.vault_id@) + "/secret/new\"><button type=\"button\">Add secret</button></a>"@ } else { Seq::<char>::empty() })) + "</div>"@ + ((if d.secrets@.len() == 0 { Seq::<char>::empty() + "<p class=\"muted\">No secrets yet.</p>"@ } else { Seq::<char>::empty() + "<table><tr><th>Path</th><th>Version</th><th></th></tr>"@ + (secret_rows_html(d.secrets@, d.vault_id@, d.secrets@.len() as int)) + "</table>"@ })) + "</div>"@ } else { "<div class=\"card\"><h2>Secrets</h2><p class=\"muted\">You manage access to this vault but cannot read its secret contents.</p></div>"@ })))
}

/// Vault view, rendered by capability: a reader sees the secret list; a blind
/// master sees only the member list; an assigner gets the role grant/revoke UI.
pub fn vault_detail_page(d: VaultDetail<'_>) -> (html: String)
    ensures
        html@ == vault_detail_page_html(d),
{
    let err = err_div(d.error);
    let secrets_card = if d.can_read {
        let rows = secret_rows(d.secrets, d.vault_id);
        let secret_rows = if d.secrets.len() == 0 {
            let mut secret_rows = String::new();
            secret_rows.append("<p class=\"muted\">No secrets yet.</p>");
            secret_rows
        } else {
            let mut secret_rows = String::new();
            secret_rows.append("<table><tr><th>Path</th><th>Version</th><th></th></tr>");
            secret_rows.append(rows.as_str());
            secret_rows.append("</table>");
            secret_rows
        };
        let add = if d.can_write {
            let mut add = String::new();
            add.append("<a href=\"/gui/vaults/");
            add.append(escape(d.vault_id).as_str());
            add.append("/approles\"><button type=\"button\" class=\"btn-neutral\">AppRoles</button></a> <a href=\"/gui/vaults/");
            add.append(escape(d.vault_id).as_str());
            add.append("/tokens\"><button type=\"button\" class=\"btn-neutral\">Tokens</button></a> <a href=\"/gui/vaults/");
            add.append(escape(d.vault_id).as_str());
            add.append("/secret/new\"><button type=\"button\">Add secret</button></a>");
            add
        } else {
            String::new()
        };
        let mut card = String::new();
        card.append("<div class=\"card\"><div style=\"display:flex;justify-content:space-between;align-items:center\"><h2 style=\"margin:0\">Secrets</h2>");
        card.append(add.as_str());
        card.append("</div>");
        card.append(secret_rows.as_str());
        card.append("</div>");
        card
    } else {
        owned("<div class=\"card\"><h2>Secrets</h2><p class=\"muted\">You manage access to this vault but cannot read its secret contents.</p></div>")
    };
    let desc_html = if d.description.is_empty() {
        String::new()
    } else {
        let mut desc_html = String::new();
        desc_html.append("<p class=\"muted\">");
        desc_html.append(escape(d.description).as_str());
        desc_html.append("</p>");
        desc_html
    };
    let settings_btn = if d.can_assign {
        let mut settings_btn = String::new();
        settings_btn.append("<a href=\"/gui/vaults/");
        settings_btn.append(escape(d.vault_id).as_str());
        settings_btn.append("/settings\"><button type=\"button\" class=\"btn-neutral\">Settings</button></a>");
        settings_btn
    } else {
        String::new()
    };
    let mut body = String::new();
    body.append("<p><a href=\"/gui/\">&larr; Dashboard</a></p>");
    body.append(err.as_str());
    body.append("<div class=\"card\"><div style=\"display:flex;justify-content:space-between;align-items:center\"><h1 style=\"margin:0\">");
    body.append(escape(d.vault_name).as_str());
    body.append("</h1>");
    body.append(settings_btn.as_str());
    body.append("</div>");
    body.append(desc_html.as_str());
    body.append("</div>");
    body.append(secrets_card.as_str());
    layout(d.vault_name, Some(d.username), body.as_str())
}

/// One member row: user, role badge, grant time and a revoke control for others.
pub open spec fn member_row_html(x: VaultMember, vault_id: Seq<char>, current_user_id: Seq<char>) -> Seq<char> {
    Seq::<char>::empty() + "<tr><td>"@ + escaped(x.username@) + "</td><td>"@ + (role_badge_html(x.role@)) + "</td><td class=\"muted\">"@ + escaped(x.granted_at@) + "</td><td>"@ + ((if x.user_id@ != current_user_id { Seq::<char>::empty() + "<form method=\"post\" action=\"/gui/vaults/"@ + escaped(vault_id) + "/revoke\" style=\"margin:0\"><input type=\"hidden\" name=\"user_id\" value=\""@ + escaped(x.user_id@) + "\"><button class=\"link\" type=\"submit\">revoke</button></form>"@ } else { Seq::<char>::empty() })) + "</td></tr>"@
}

fn member_row(x: &VaultMember, vault_id: &str, current_user_id: &str) -> (s: String)
    ensures
        s@ == member_row_html(*x, vault_id@, current_user_id@),
{
    let revoke = if !str_eq(x.user_id.as_str(), current_user_id) {
        let mut revoke = String::new();
        revoke.append("<form method=\"post\" action=\"/gui/vaults/");
        revoke.append(escape(vault_id).as_str());
        revoke.append("/revoke\" style=\"margin:0\"><input type=\"hidden\" name=\"user_id\" value=\"");
        revoke.append(escape(x.user_id.as_str()).as_str());
        revoke.append("\"><button class=\"link\" type=\"submit\">revoke</button></form>");
        revoke
    } else {
        String::new()
    };
    let badge = role_badge(x.role.as_str());
    let mut s = String::new();
    s.append("<tr><td>");
    s.append(escape(x.username.as_str()).as_str());
    s.append("</td><td>");
    s.append(badge.as_str());
    s.append("</td><td class=\"muted\">");
    s.append(escape(x.granted_at.as_str()).as_str());
    s.append("</td><td>");
    s.append(revoke.as_str());
    s.append("</td></tr>");
    s
}

/// The first `n` member rows.
pub open spec fn member_rows_html(xs: Seq<VaultMember>, vault_id: Seq<char>, current_user_id: Seq<char>, n: int) -> Seq<char>
    decreases n,
{
    if n <= 0 {
        Seq::empty()
    } else {
        member_rows_html(xs, vault_id, current_user_id, n - 1) + member_row_html(xs[n - 1], vault_id, current_user_id)
    }
}

fn member_rows(xs: &[VaultMember], vault_id: &str, current_user_id: &str) -> (s: String)
    ensures
        s@ == member_rows_html(xs@, vault_id@, current_user_id@, xs@.len() as int),
{
    let mut s = String::new();
    let mut i: usize = 0;
    while i < xs.len()
        invariant
            i <= xs.len(),
            s@ == member_rows_html(xs@, vault_id@, current_user_id@, i as int),
        decreases xs.len() - i,
    {
        let r = member_row(&xs[i], vault_id, current_user_id);
        s.append(r.as_str());
        i = i + 1;
    }
    s
}

/// The exact text of `vault_settings_page`.
pub open spec fn vault_settings_page_html(s: VaultSettings) -> Seq<char> {
    layout_html(s.vault_name@, Some(s.username@), Seq::<char>::empty() + "<p><a href=\"/gui/vaults/"@ + escaped(s.vault_id@) + "\">&larr; "@ + escaped(s.vault_name@) + "</a></p>"@ + (err_html(opt_view(s.error))) + "<div class=\"card\"><h1>"@ + escaped(s.vault_name@) + " — settings</h1></div><div class=\"card\"><h2>Access</h2>"@ + (Seq::<char>::empty() + "<table><tr><th>User</th><th>Role</th><th>Granted</th><th></th></tr>"@ + (member_rows_html(s.members@, s.vault_id@, s.current_user_id@, s.members@.len() as int)) + "</table>"@) + (Seq::<char>::empty() + "<form method=\"post\" action=\"/gui/vaults/"@ + escaped(s.vault_id@) + "/assign\" style=\"display:flex;gap:8px;align-items:flex-end;margin-top:8px\"><div style=\"flex:1\"><label style=\"margin-top:0\">Assign username</label><input name=\"username\" required></div><div><label style=\"margin-top:0\">Role</label><select name=\"role\" style=\"padding:10px 12px;border:1px solid var(--border);border-radius:7px;background:var(--bg);color:var(--fg)\"><option value=\"viewer\">viewer</option><option value=\"editor\">editor</option><option value=\"admin\">admin</option></select></div><button type=\"submit\" style=\"margin:0\">Assign</button></form>"@) + "</div><div class=\"card\"><h2>Key rotation</h2><p class=\"muted\">Generate a new vault key, re-encrypt every secret, and re-wrap the key for all members and live tokens.</p><form method=\"post\" action=\"/gui/vaults/"@ + escaped(s.vault_id@) + "/rotate\"><button type=\"submit\" class=\"btn-neutral\">Rotate vault key</button></form></div>"@)
}

/// Vault management (master / vault admins): member access (assign/revoke),
/// network ACL, and key rotation.
pub fn vault_settings_page(s: VaultSettings<'_>) -> (html: String)
    ensures
        html@ == vault_settings_page_html(s),
{
    let err = err_div(s.error);
    let list = member_rows(s.members, s.vault_id, s.current_user_id);
    let mut member_rows = String::new();
    member_rows.append("<table><tr><th>User</th><th>Role</th><th>Granted</th><th></th></tr>");
    member_rows.append(list.as_str());
    member_rows.append("</table>");
    let mut assign_form = String::new();
    assign_form.append("<form method=\"post\" action=\"/gui/vaults/");
    assign_form.append(escape(s.vault_id).as_str());
    assign_form.append("/assign\" style=\"display:flex;gap:8px;align-items:flex-end;margin-top:8px\"><div style=\"flex:1\"><label style=\"margin-top:0\">Assign username</label><input name=\"username\" required></div><div><label style=\"margin-top:0\">Role</label><select name=\"role\" style=\"padding:10px 12px;border:1px solid var(--border);border-radius:7px;background:var(--bg);color:var(--fg)\"><option value=\"viewer\">viewer</option><option value=\"editor\">editor</option><option value=\"admin\">admin</option></select></div><button type=\"submit\" style=\"margin:0\">Assign</button></form>");
    let mut body = String::new();
    body.append("<p><a href=\"/gui/vaults/");
    body.append(escape(s.vault_id).as_str());
    body.append("\">&larr; ");
    body.append(escape(s.vault_name).as_str());
    body.append("</a></p>");
    body.append(err.as_str());
    body.append("<div class=\"card\"><h1>");
    body.append(escape(s.vault_name).as_str());
    body.append(" — settings</h1></div><div class=\"card\"><h2>Access</h2>");
    body.append(member_rows.as_str());
    body.append(assign_form.as_str());
    body.append("</div><div class=\"card\"><h2>Key rotation</h2><p class=\"muted\">Generate a new vault key, re-encrypt every secret, and re-wrap the key for all members and live tokens.</p><form method=\"post\" action=\"/gui/vaults/");
    body.append(escape(s.vault_id).as_str());
    body.append("/rotate\"><button type=\"submit\" class=\"btn-neutral\">Rotate vault key</button></form></div>");
    layout(s.vault_name, Some(s.username), body.as_str())
}

/// The actor shown for an audit row: its hash, or a dash when absent.
pub open spec fn actor_text(r: AuditRow) -> Seq<char> {
    or_text(r.actor_hash, "—"@)
}

/// The first ten bytes of the actor text, when it is longer than that.
pub open spec fn actor_short(a: Seq<char>) -> Seq<char> {
    if vstd::utf8::encode_utf8(a).len() > 10 {
        vstd::utf8::decode_utf8(vstd::utf8::encode_utf8(a).subrange(0, 10))
    } else {
        a
    }
}

/// Cutting the actor text at ten bytes lands on a character boundary.
pub open spec fn actor_cut_ok(r: AuditRow) -> bool {
    vstd::utf8::encode_utf8(actor_text(r)).len() > 10 ==> vstd::utf8::is_char_boundary(
        vstd::utf8::encode_utf8(actor_text(r)),
        10,
    )
}

/// The response code shown for an audit row (zero when absent).
pub open spec fn code_or_zero(c: Option<i64>) -> i64 {
    match c {
        Some(v) => v,
        None => 0,
    }
}

fn short_actor(a: &str) -> (r: &str)
    requires
        vstd::utf8::encode_utf8(a@).len() > 10 ==> vstd::utf8::is_char_boundary(vstd::utf8::encode_utf8(a@), 10),
    ensures
        r@ == actor_short(a@),
{
    if a.as_bytes().len() > 10 {
        let (head, _) = a.split_at(10);
        proof {
            assert(vstd::utf8::encode_utf8(head@) == vstd::utf8::encode_utf8(a@).subrange(0, 10));
            vstd::utf8::encode_utf8_decode_utf8(head@);
            assert(head@ == vstd::utf8::decode_utf8(vstd::utf8::encode_utf8(a@).subrange(0, 10)));
        }
        head
    } else {
        a
    }
}

/// One audit row with its integrity verdict.
pub open spec fn audit_row_html(r: AuditRow, ok: bool) -> Seq<char> {
    Seq::<char>::empty() + "<tr><td class=\"muted\">"@ + escaped(r.timestamp@) + "</td><td>"@ + escaped(r.operation@) + "</td><td class=\"muted\">"@ + escaped(or_text(r.vault_id, "—"@)) + "</td><td>"@ + escaped(or_text(r.path, "—"@)) + "</td><td class=\"muted\">"@ + escaped(actor_short(actor_text(r))) + "</td><td class=\"muted\">"@ + escaped(or_text(r.source_ip, "—"@)) + "</td><td>"@ + int_text((code_or_zero(r.response_code)) as int) + "</td><td>"@ + ((if ok { "<span class=\"pill ok\">ok</span>"@ } else { "<span class=\"pill warn\">TAMPERED</span>"@ })) + "</td></tr>"@
}

fn audit_row(r: &AuditRow, ok: &bool) -> (s: String)
    requires
        actor_cut_ok(*r),
    ensures
        s@ == audit_row_html(*r, *ok),
{
    let integrity: &str = if *ok { "<span class=\"pill ok\">ok</span>" } else { "<span class=\"pill warn\">TAMPERED</span>" };
    let actor = or_str(&r.actor_hash, "—");
    let short = short_actor(actor);
    let code: i64 = match r.response_code {
        Some(c) => c,
        None => 0,
    };
    let mut s = String::new();
    s.append("<tr><td class=\"muted\">");
    s.append(escape(r.timestamp.as_str()).as_str());
    s.append("</td><td>");
    s.append(escape(r.operation.as_str()).as_str());
    s.append("</td><td class=\"muted\">");
    s.append(escape(or_str(&r.vault_id, "—")).as_str());
    s.append("</td><td>");
    s.append(escape(or_str(&r.path, "—")).as_str());
    s.append("</td><td class=\"muted\">");
    s.append(escape(short).as_str());
    s.append("</td><td class=\"muted\">");
    s.append(escape(or_str(&r.source_ip, "—")).as_str());
    s.append("</td><td>");
    push_i64(&mut s, code);
    s.append("</td><td>");
    s.append(integrity);
    s.append("</td></tr>");
    s
}

/// The first `n` audit rows, each with its verdict.
pub open spec fn audit_rows_html(rows: Seq<AuditRow>, verified: Seq<bool>, n: int) -> Seq<char>
    decreases n,
{
    if n <= 0 {
        Seq::empty()
    } else {
        audit_rows_html(rows, verified, n - 1) + audit_row_html(rows[n - 1], verified[n - 1])
    }
}

/// How many rows the audit table shows: rows and verdicts are paired up.
pub open spec fn paired_len(rows: Seq<AuditRow>, verified: Seq<bool>) -> int {
    if rows.len() <= verified.len() {
        rows.len() as int
    } else {
        verified.len() as int
    }
}

/// Every row's actor text can be cut at ten bytes where the page shortens it.
pub open spec fn actors_cut_ok(rows: Seq<AuditRow>) -> bool {
    forall|i: int| 0 <= i < rows.len() ==> actor_cut_ok(#[trigger] rows[i])
}

/// Whether every row's actor text can be cut at ten bytes where the audit
/// page shortens it (the condition `audit_page` needs).
pub fn actors_cuttable(rows: &[AuditRow]) -> (b: bool)
    ensures
        b == actors_cut_ok(rows@),
{
    let mut i: usize = 0;
    while i < rows.len()
        invariant
            i <= rows@.len(),
            forall|j: int| 0 <= j < i ==> actor_cut_ok(#[trigger] rows@[j]),
        decreases rows@.len() - i,
    {
        let actor = or_str(&rows[i].actor_hash, "—");
        if actor.as_bytes().len() > 10 && !actor.is_char_boundary(10) {
            assert(!actor_cut_ok(rows@[i as int]));
            return false;
        }
        i = i + 1;
    }
    true
}

/// The exact text of `audit_page`.
pub open spec fn audit_page_html(username: Seq<char>, rows: Seq<AuditRow>, verified: Seq<bool>, total: i64, retention_days: i64) -> Seq<char> {
    layout_html("Audit log"@, Some(username), Seq::<char>::empty() + "<p><a href=\"/gui/\">&larr; Dashboard</a></p><div class=\"card\"><h1>Audit log</h1><p class=\"muted\">"@ + int_text((total) as int) + " events total — currently "@ + ((if retention_days <= 0 { Seq::<char>::empty() + "kept forever"@ } else { Seq::<char>::empty() + int_text((retention_days) as int) + " days"@ })) + ". Each row is HMAC-signed with a key derived from the master key.</p><form method=\"post\" action=\"/gui/audit/retention\" style=\"display:flex;gap:8px;align-items:flex-end\"><div><label style=\"margin-top:0\">Retention (days, blank/0 = keep forever)</label><input name=\"days\" type=\"number\" min=\"0\" value=\""@ + escaped(((if retention_days <= 0 { Seq::<char>::empty() } else { Seq::<char>::empty() + int_text((retention_days) as int) }))) + "\" placeholder=\"forever\" style=\"width:180px\"></div><button type=\"submit\" style=\"margin:0\">Save</button></form><form method=\"post\" action=\"/gui/audit/prune\" style=\"margin-top:10px\"><button type=\"submit\" class=\"btn-neutral\">Prune now</button><span class=\"muted\"> — delete events older than the retention window.</span></form></div><div class=\"card\"><h2>Most recent 200 events</h2>"@ + (Seq::<char>::empty() + "<table><tr><th>Time</th><th>Op</th><th>Vault</th><th>Path</th><th>Actor</th><th>Source IP</th><th>Code</th><th>Integrity</th></tr>"@ + ((if rows.len() == 0 { "<tr><td colspan=\"8\" class=\"muted\">No audit events yet.</td></tr>"@ } else { ""@ })) + (audit_rows_html(rows, verified, paired_len(rows, verified))) + "</table>"@) + "</div>"@)
}

/// Master-only audit log viewer; each row shows its HMAC verification status.
pub fn audit_page(username: &str, rows: &[AuditRow], verified: &[bool], total: i64, retention_days: i64) -> (html: String)
    requires
        actors_cut_ok(rows@),
    ensures
        html@ == audit_page_html(username@, rows@, verified@, total, retention_days),
{
    let n: usize = if rows.len() <= verified.len() { rows.len() } else { verified.len() };
    let mut list = String::new();
    let mut i: usize = 0;
    while i < n
        invariant
            n as int == paired_len(rows@, verified@),
            i <= n,
            actors_cut_ok(rows@),
            list@ == audit_rows_html(rows@, verified@, i as int),
        decreases n - i,
    {
        let r = audit_row(&rows[i], &verified[i]);
        list.append(r.as_str());
        i = i + 1;
    }
    let empty_note: &str = if rows.len() == 0 { "<tr><td colspan=\"8\" class=\"muted\">No audit events yet.</td></tr>" } else { "" };
    let mut body_rows = String::new();
    body_rows.append("<table><tr><th>Time</th><th>Op</th><th>Vault</th><th>Path</th><th>Actor</th><th>Source IP</th><th>Code</th><th>Integrity</th></tr>");
    body_rows.append(empty_note);
    body_rows.append(list.as_str());
    body_rows.append("</table>");
    let retention_label = if retention_days <= 0 {
        let mut retention_label = String::new();
        retention_label.append("kept forever");
        retention_label
    } else {
        let mut retention_label = String::new();
        push_i64(&mut retention_label, retention_days);
        retention_label.append(" days");
        retention_label
    };
    let retention_value = if retention_days <= 0 {
        String::new()
    } else {
        let mut retention_value = String::new();
        push_i64(&mut retention_value, retention_days);
        retention_value
    };
    let mut body = String::new();
    body.append("<p><a href=\"/gui/\">&larr; Dashboard</a></p><div class=\"card\"><h1>Audit log</h1><p class=\"muted\">");
    push_i64(&mut body, total);
    body.append(" events total — currently ");
    body.append(retention_label.as_str());
    body.append(". Each row is HMAC-signed with a key derived from the master key.</p><form method=\"post\" action=\"/gui/audit/retention\" style=\"display:flex;gap:8px;align-items:flex-end\"><div><label style=\"margin-top:0\">Retention (days, blank/0 = keep forever)</label><input name=\"days\" type=\"number\" min=\"0\" value=\"");
    body.append(escape(retention_value.as_str()).as_str());
    body.append("\" placeholder=\"forever\" style=\"width:180px\"></div><button type=\"submit\" style=\"margin:0\">Save</button></form><form method=\"post\" action=\"/gui/audit/prune\" style=\"margin-top:10px\"><button type=\"submit\" class=\"btn-neutral\">Prune now</button><span class=\"muted\"> — delete events older than the retention window.</span></form></div><div class=\"card\"><h2>Most recent 200 events</h2>");
    body.append(body_rows.as_str());
    body.append("</div>");
    layout("Audit log", Some(username), body.as_str())
}

/// One token row: name, scope, expiry, last use, state and a revoke control.
pub open spec fn token_row_html(x: TokenListing, vault_id: Seq<char>, can_create: bool) -> Seq<char> {
    Seq::<char>::empty() + "<tr><td>"@ + escaped(or_text(x.display_name, "—"@)) + "</td><td class=\"muted\">"@ + escaped(x.allowed_paths@) + "</td><td class=\"muted\">"@ + escaped((if x.allowed_ips@ == "[]"@ { "any"@ } else { x.allowed_ips@ })) + "</td><td class=\"muted\">"@ + escaped(or_text(x.expires_at, "never"@)) + "</td><td class=\"muted\">"@ + escaped(or_text(x.last_used_at, "—"@)) + "</td><td>"@ + ((if x.revoked { "<span class=\"pill warn\">revoked</span>"@ } else { "<span class=\"pill ok\">active</span>"@ })) + "</td><td>"@ + ((if can_create && !x.revoked { Seq::<char>::empty() + "<form method=\"post\" action=\"/gui/vaults/"@ + escaped(vault_id) + "/tokens/"@ + escaped(x.id@) + "/revoke\" style=\"margin:0\"><button class=\"link\" type=\"submit\">revoke</button></form>"@ } else { Seq::<char>::empty() })) + "</td></tr>"@
}

fn token_row(x: &TokenListing, vault_id: &str, can_create: bool) -> (s: String)
    ensures
        s@ == token_row_html(*x, vault_id@, can_create),
{
    let state: &str = if x.revoked { "<span class=\"pill warn\">revoked</span>" } else { "<span class=\"pill ok\">active</span>" };
    let revoke = if can_create && !x.revoked {
        let mut revoke = String::new();
        revoke.append("<form method=\"post\" action=\"/gui/vaults/");
        revoke.append(escape(vault_id).as_str());
        revoke.append("/tokens/");
        revoke.append(escape(x.id.as_str()).as_str());
        revoke.append("/revoke\" style=\"margin:0\"><button class=\"link\" type=\"submit\">revoke</button></form>");
        revoke
    } else {
        String::new()
    };
    let ips: &str = if str_eq(x.allowed_ips.as_str(), "[]") { "any" } else { x.allowed_ips.as_str() };
    let mut s = String::new();
    s.append("<tr><td>");
    s.append(escape(or_str(&x.display_name, "—")).as_str());
    s.append("</td><td class=\"muted\">");
    s.append(escape(x.allowed_paths.as_str()).as_str());
    s.append("</td><td class=\"muted\">");
    s.append(escape(ips).as_str());
    s.append("</td><td class=\"muted\">");
    s.append(escape(or_str(&x.expires_at, "never")).as_str());
    s.append("</td><td class=\"muted\">");
    s.append(escape(or_str(&x.last_used_at, "—")).as_str());
    s.append("</td><td>");
    s.append(state);
    s.append("</td><td>");
    s.append(revoke.as_str());
    s.append("</td></tr>");
    s
}

/// The first `n` token rows.
pub open spec fn token_rows_html(xs: Seq<TokenListing>, vault_id: Seq<char>, can_create: bool, n: int) -> Seq<char>
    decreases n,
{
    if n <= 0 {
        Seq::empty()
    } else {
        token_rows_html(xs, vault_id, can_create, n - 1) + token_row_html(xs[n - 1], vault_id, can_create)
    }
}

fn token_rows(xs: &[TokenListing], vault_id: &str, can_create: bool) -> (s: String)
    ensures
        s@ == token_rows_html(xs@, vault_id@, can_create, xs@.len() as int),
{
    let mut s = String::new();
    let mut i: usize = 0;
    while i < xs.len()
        invariant
            i <= xs.len(),
            s@ == token_rows_html(xs@, vault_id@, can_create, i as int),
        decreases xs.len() - i,
    {
        let r = token_row(&xs[i], vault_id, can_create);
        s.append(r.as_str());
        i = i + 1;
    }
    s
}

/// The exact text of `tokens_page`.
pub open spec fn tokens_page_html(username: Seq<char>, vault_id: Seq<char>, vault_name: Seq<char>, tokens: Seq<TokenListing>, can_create: bool, error: Option<Seq<char>>) -> Seq<char> {
    layout_html("API tokens"@, Some(username), Seq::<char>::empty() + "<p><a href=\"/gui/vaults/"@ + escaped(vault_id) + "\">&larr; "@ + escaped(vault_name) + "</a></p>"@ + (err_html(error)) + "<div class=\"card\"><h1>API tokens</h1>"@ + (Seq::<char>::empty() + "<table><tr><th>Name</th><th>Paths</th><th>IPs</th><th>Expires</th><th>Last used</th><th>State</th><th></th></tr>"@ + ((if tokens.len() == 0 { "<tr><td colspan=\"7\" class=\"muted\">No tokens yet.</td></tr>"@ } else { ""@ })) + (token_rows_html(tokens, vault_id, can_create, tokens.len() as int)) + "</table>"@) + "</div>"@ + ((if can_create { Seq::<char>::empty() + "<div class=\"card\"><h2>Create token</h2><form method=\"post\" action=\"/gui/vaults/"@ + escaped(vault_id) + "/tokens\"><label>Name</label><input name=\"display_name\" placeholder=\"ci-deployer\"><label>Allowed paths (one per line, * for all)</label><textarea name=\"allowed_paths\" rows=\"3\" style=\"width:100%;font-family:ui-monospace,monospace;padding:10px;border:1px solid var(--border);border-radius:7px;background:var(--bg);color:var(--fg)\">*</textarea><label>Allowed IPs / CIDRs (one per line, blank = any)</label><textarea name=\"allowed_ips\" rows=\"2\" style=\"width:100%;font-family:ui-monospace,monospace;padding:10px;border:1px solid var(--border);border-radius:7px;background:var(--bg);color:var(--fg)\"></textarea><label>TTL (hours, blank = never expires)</label><input name=\"ttl_hours\" type=\"number\" min=\"1\"><button type=\"submit\">Create token</button></form></div>"@ } else { Seq::<char>::empty() })))
}

/// Per-vault API token management: list existing tokens + a create form.
pub fn tokens_page(
    username: &str,
    vault_id: &str,
    vault_name: &str,
    tokens: &[TokenListing],
    can_create: bool,
    error: Option<&str>,
) -> (html: String)
    ensures
        html@ == tokens_page_html(username@, vault_id@, vault_name@, tokens@, can_create, opt_view(error)),
{
    let err = err_div(error);
    let list = token_rows(tokens, vault_id, can_create);
    let empty_note: &str = if tokens.len() == 0 { "<tr><td colspan=\"7\" class=\"muted\">No tokens yet.</td></tr>" } else { "" };
    let mut rows = String::new();
    rows.append("<table><tr><th>Name</th><th>Paths</th><th>IPs</th><th>Expires</th><th>Last used</th><th>State</th><th></th></tr>");
    rows.append(empty_note);
    rows.append(list.as_str());
    rows.append("</table>");
    let create = if can_create {
        let mut create = String::new();
        create.append("<div class=\"card\"><h2>Create token</h2><form method=\"post\" action=\"/gui/vaults/");
        create.append(escape(vault_id).as_str());
        create.append("/tokens\"><label>Name</label><input name=\"display_name\" placeholder=\"ci-deployer\"><label>Allowed paths (one per line, * for all)</label><textarea name=\"allowed_paths\" rows=\"3\" style=\"width:100%;font-family:ui-monospace,monospace;padding:10px;border:1px solid var(--border);border-radius:7px;background:var(--bg);color:var(--fg)\">*</textarea><label>Allowed IPs / CIDRs (one per line, blank = any)</label><textarea name=\"allowed_ips\" rows=\"2\" style=\"width:100%;font-family:ui-monospace,monospace;padding:10px;border:1px solid var(--border);border-radius:7px;background:var(--bg);color:var(--fg)\"></textarea><label>TTL (hours, blank = never expires)</label><input name=\"ttl_hours\" type=\"number\" min=\"1\"><button type=\"submit\">Create token</button></form></div>");
        create
    } else {
        String::new()
    };
    let mut body = String::new();
    body.append("<p><a href=\"/gui/vaults/");
    body.append(escape(vault_id).as_str());
    body.append("\">&larr; ");
    body.append(escape(vault_name).as_str());
    body.append("</a></p>");
    body.append(err.as_str());
    body.append("<div class=\"card\"><h1>API tokens</h1>");
    body.append(rows.as_str());
    body.append("</div>");
    body.append(create.as_str());
    layout("API tokens", Some(username), body.as_str())
}

/// Seconds as whole hours, rounded toward zero.
pub open spec fn whole_hours(s: i64) -> int {
    if s >= 0 {
        s / 3600
    } else {
        -((-s) / 3600)
    }
}

/// The TTL column: whole hours with an `h`, or `none`.
pub open spec fn ttl_label_html(ttl: Option<i64>) -> Seq<char> {
    match ttl {
        Some(s) => Seq::<char>::empty() + int_text(whole_hours(s)) + "h"@,
        None => "none"@,
    }
}

fn ttl_label(ttl: Option<i64>) -> (r: String)
    ensures
        r@ == ttl_label_html(ttl),
{
    match ttl {
        Some(s) => {
            let a: i128 = s as i128;
            let q: i128 = if a >= 0 { a / 3600 } else { -((-a) / 3600) };
            let mut r = String::new();
            push_i64(&mut r, q as i64);
            r.append("h");
            r
        },
        None => owned("none"),
    }
}

/// One AppRole row: name, role_id, paths, TTL and its controls.
pub open spec fn approle_row_html(x: ApproleListing, vault_id: Seq<char>) -> Seq<char> {
    Seq::<char>::empty() + "<tr><td>"@ + escaped(x.name@) + "</td><td class=\"muted\" style=\"font-family:ui-monospace,monospace\">"@ + escaped(x.role_id@) + "</td><td class=\"muted\">"@ + escaped(x.allowed_paths@) + "</td><td class=\"muted\">"@ + (ttl_label_html(x.token_ttl)) + "</td><td><form method=\"post\" action=\"/gui/vaults/"@ + escaped(vault_id) + "/approles/"@ + escaped(x.id@) + "/secret-id\" style=\"display:inline;margin:0\"><button class=\"link\" type=\"submit\">+ secret-id</button></form> &nbsp;<form method=\"post\" action=\"/gui/vaults/"@ + escaped(vault_id) + "/approles/"@ + escaped(x.id@) + "/delete\" style=\"display:inline;margin:0\"><button class=\"link\" type=\"submit\">delete</button></form></td></tr>"@
}

fn approle_row(x: &ApproleListing, vault_id: &str) -> (s: String)
    ensures
        s@ == approle_row_html(*x, vault_id@),
{
    let ttl = ttl_label(x.token_ttl);
    let mut s = String::new();
    s.append("<tr><td>");
    s.append(escape(x.name.as_str()).as_str());
    s.append("</td><td class=\"muted\" style=\"font-family:ui-monospace,monospace\">");
    s.append(escape(x.role_id.as_str()).as_str());
    s.append("</td><td class=\"muted\">");
    s.append(escape(x.allowed_paths.as_str()).as_str());
    s.append("</td><td class=\"muted\">");
    s.append(ttl.as_str());
    s.append("</td><td><form method=\"post\" action=\"/gui/vaults/");
    s.append(escape(vault_id).as_str());
    s.append("/approles/");
    s.append(escape(x.id.as_str()).as_str());
    s.append("/secret-id\" style=\"display:inline;margin:0\"><button class=\"link\" type=\"submit\">+ secret-id</button></form> &nbsp;<form method=\"post\" action=\"/gui/vaults/");
    s.append(escape(vault_id).as_str());
    s.append("/approles/");
    s.append(escape(x.id.as_str()).as_str());
    s.append("/delete\" style=\"display:inline;margin:0\"><button class=\"link\" type=\"submit\">delete</button></form></td></tr>");
    s
}

/// The first `n` AppRole rows.
pub open spec fn approle_rows_html(xs: Seq<ApproleListing>, vault_id: Seq<char>, n: int) -> Seq<char>
    decreases n,
{
    if n <= 0 {
        Seq::empty()
    } else {
        approle_rows_html(xs, vault_id, n - 1) + approle_row_html(xs[n - 1], vault_id)
    }
}

fn approle_rows(xs: &[ApproleListing], vault_id: &str) -> (s: String)
    ensures
        s@ == approle_rows_html(xs@, vault_id@, xs@.len() as int),
{
    let mut s = String::new();
    let mut i: usize = 0;
    while i < xs.len()
        invariant
            i <= xs.len(),
            s@ == approle_rows_html(xs@, vault_id@, i as int),
        decreases xs.len() - i,
    {
        let r = approle_row(&xs[i], vault_id);
        s.append(r.as_str());
        i = i + 1;
    }
    s
}

/// The exact text of `approles_page`.
pub open spec fn approles_page_html(username: Seq<char>, vault_id: Seq<char>, vault_name: Seq<char>, roles: Seq<ApproleListing>, error: Option<Seq<char>>) -> Seq<char> {
    layout_html("AppRoles"@, Some(username), Seq::<char>::empty() + "<p><a href=\"/gui/vaults/"@ + escaped(vault_id) + "\">&larr; "@ + escaped(vault_name) + "</a></p>"@ + (err_html(error)) + "<div class=\"card\"><h1>AppRoles</h1><p class=\"muted\">Machine login: a service exchanges its role_id + secret_id at <code>POST /v1/auth/approle/login</code> for a per-vault token.</p>"@ + (Seq::<char>::empty() + "<table><tr><th>Name</th><th>Role ID</th><th>Paths</th><th>TTL</th><th></th></tr>"@ + ((if roles.len() == 0 { "<tr><td colspan=\"5\" class=\"muted\">No roles yet.</td></tr>"@ } else { ""@ })) + (approle_rows_html(roles, vault_id, roles.len() as int)) + "</table>"@) + "</div><div class=\"card\"><h2>Create role</h2><form method=\"post\" action=\"/gui/vaults/"@ + escaped(vault_id) + "/approles\"><label>Name</label><input name=\"name\" placeholder=\"ci-deployer\" required><label>Allowed paths (one per line, * for all)</label><textarea name=\"allowed_paths\" rows=\"3\" style=\"width:100%;font-family:ui-monospace,monospace;padding:10px;border:1px solid var(--border);border-radius:7px;background:var(--bg);color:var(--fg)\">*</textarea><label>Allowed IPs / CIDRs (one per line, blank = any)</label><textarea name=\"allowed_ips\" rows=\"2\" style=\"width:100%;font-family:ui-monospace,monospace;padding:10px;border:1px solid var(--border);border-radius:7px;background:var(--bg);color:var(--fg)\"></textarea><label>Token TTL (hours, blank = never expires)</label><input name=\"ttl_hours\" type=\"number\" min=\"1\"><button type=\"submit\">Create role</button></form></div>"@)
}

/// Per-vault AppRole management: list roles (with role_id) + a create form.
pub fn approles_page(
    username: &str,
    vault_id: &str,
    vault_name: &str,
    roles: &[ApproleListing],
    error: Option<&str>,
) -> (html: String)
    ensures
        html@ == approles_page_html(username@, vault_id@, vault_name@, roles@, opt_view(error)),
{
    let err = err_div(error);
    let list = approle_rows(roles, vault_id);
    let empty_note: &str = if roles.len() == 0 { "<tr><td colspan=\"5\" class=\"muted\">No roles yet.</td></tr>" } else { "" };
    let mut rows = String::new();
    rows.append("<table><tr><th>Name</th><th>Role ID</th><th>Paths</th><th>TTL</th><th></th></tr>");
    rows.append(empty_note);
    rows.append(list.as_str());
    rows.append("</table>");
    let mut body = String::new();
    body.append("<p><a href=\"/gui/vaults/");
    body.append(escape(vault_id).as_str());
    body.append("\">&larr; ");
    body.append(escape(vault_name).as_str());
    body.append("</a></p>");
    body.append(err.as_str());
    body.append("<div class=\"card\"><h1>AppRoles</h1><p class=\"muted\">Machine login: a service exchanges its role_id + secret_id at <code>POST /v1/auth/approle/login</code> for a per-vault token.</p>");
    body.append(rows.as_str());
    body.append("</div><div class=\"card\"><h2>Create role</h2><form method=\"post\" action=\"/gui/vaults/");
    body.append(escape(vault_id).as_str());
    body.append("/approles\"><label>Name</label><input name=\"name\" placeholder=\"ci-deployer\" required><label>Allowed paths (one per line, * for all)</label><textarea name=\"allowed_paths\" rows=\"3\" style=\"width:100%;font-family:ui-monospace,monospace;padding:10px;border:1px solid var(--border);border-radius:7px;background:var(--bg);color:var(--fg)\">*</textarea><label>Allowed IPs / CIDRs (one per line, blank = any)</label><textarea name=\"allowed_ips\" rows=\"2\" style=\"width:100%;font-family:ui-monospace,monospace;padding:10px;border:1px solid var(--border);border-radius:7px;background:var(--bg);color:var(--fg)\"></textarea><label>Token TTL (hours, blank = never expires)</label><input name=\"ttl_hours\" type=\"number\" min=\"1\"><button type=\"submit\">Create role</button></form></div>");
    layout("AppRoles", Some(username), body.as_str())
}

/// One version row: number, creation time and state.
pub open spec fn version_row_html(x: SecretVersion) -> Seq<char> {
    Seq::<char>::empty() + "<tr><td>v"@ + int_text((x.version) as int) + "</td><td class=\"muted\">"@ + escaped(x.created_at@) + "</td><td>"@ + ((if x.deleted { "<span class=\"pill warn\">deleted</span>"@ } else { "<span class=\"pill ok\">live</span>"@ })) + "</td></tr>"@
}

fn version_row(x: &SecretVersion) -> (s: String)
    ensures
        s@ == version_row_html(*x),
{
    let state: &str = if x.deleted { "<span class=\"pill warn\">deleted</span>" } else { "<span class=\"pill ok\">live</span>" };
    let mut s = String::new();
    s.append("<tr><td>v");
    push_i64(&mut s, x.version);
    s.append("</td><td class=\"muted\">");
    s.append(escape(x.created_at.as_str()).as_str());
    s.append("</td><td>");
    s.append(state);
    s.append("</td></tr>");
    s
}

/// The first `n` version rows.
pub open spec fn version_rows_html(xs: Seq<SecretVersion>, n: int) -> Seq<char>
    decreases n,
{
    if n <= 0 {
        Seq::empty()
    } else {
        version_rows_html(xs, n - 1) + version_row_html(xs[n - 1])
    }
}

fn version_rows(xs: &[SecretVersion]) -> (s: String)
    ensures
        s@ == version_rows_html(xs@, xs@.len() as int),
{
    let mut s = String::new();
    let mut i: usize = 0;
    while i < xs.len()
        invariant
            i <= xs.len(),
            s@ == version_rows_html(xs@, i as int),
        decreases xs.len() - i,
    {
        let r = version_row(&xs[i]);
        s.append(r.as_str());
        i = i + 1;
    }
    s
}

/// The single-use note for a secret with a read limit.
pub open spec fn use_note_html(reads_remaining: Option<i64>) -> Seq<char> {
    match reads_remaining {
        Some(n) => Seq::<char>::empty() + "<p><span class=\"pill warn\">single-use</span> <span class=\"muted\">"@ + int_text((n) as int) + " read(s) remaining over the API — the next API fetch consumes it. Viewing here does not.</span></p>"@,
        None => Seq::empty(),
    }
}

fn use_note(reads_remaining: Option<i64>) -> (s: String)
    ensures
        s@ == use_note_html(reads_remaining),
{
    match reads_remaining {
        Some(n) => {
            let mut s = String::new();
            s.append("<p><span class=\"pill warn\">single-use</span> <span class=\"muted\">");
            push_i64(&mut s, n);
            s.append(" read(s) remaining over the API — the next API fetch consumes it. Viewing here does not.</span></p>");
            s
        },
        None => String::new(),
    }
}

/// The exact text of `secret_view_page`.
pub open spec fn secret_view_page_html(
    username: Seq<char>,
    vault_id: Seq<char>,
    vault_name: Seq<char>,
    path: Seq<char>,
    version: i64,
    pretty_json: Seq<char>,
    versions: Seq<SecretVersion>,
    reads_remaining: Option<i64>,
) -> Seq<char> {
    layout_html(path, Some(username), Seq::<char>::empty() + "<p><a href=\"/gui/vaults/"@ + escaped(vault_id) + "\">&larr; "@ + escaped(vault_name) + "</a></p><div class=\"card\"><h1>"@ + escaped(path) + "</h1>"@ + (use_note_html(reads_remaining)) + "<h2>Current value (v"@ + int_text((version) as int) + ")</h2><pre style=\"background:var(--bg);border:1px solid var(--border);border-radius:8px;padding:14px;overflow:auto;color:var(--fg)\">"@ + escaped(pretty_json) + "</pre><div style=\"display:flex;gap:10px\"><a href=\"/gui/vaults/"@ + escaped(vault_id) + "/secret/new?path="@ + (url_encoded(path)) + "\"><button type=\"button\">New version</button></a><form method=\"post\" action=\"/gui/vaults/"@ + escaped(vault_id) + "/secret/delete\" style=\"margin:0\" onsubmit=\"return confirm('Delete this secret and all its versions?');\"><input type=\"hidden\" name=\"path\" value=\""@ + escaped(path) + "\"><button type=\"submit\" class=\"btn-danger\">Delete secret</button></form></div></div><div class=\"card\"><h2>Versions</h2>"@ + (Seq::<char>::empty() + "<table><tr><th>Version</th><th>Created</th><th>State</th></tr>"@ + (version_rows_html(versions, versions.len() as int)) + "</table>"@) + "</div>"@)
}

/// Show a decrypted secret's current value plus its version history.
pub fn secret_view_page(
    username: &str,
    vault_id: &str,
    vault_name: &str,
    path: &str,
    version: i64,
    pretty_json: &str,
    versions: &[SecretVersion],
    reads_remaining: Option<i64>,
) -> (html: String)
    ensures
        html@ == secret_view_page_html(username@, vault_id@, vault_name@, path@, version, pretty_json@, versions@, reads_remaining),
{
    let note = use_note(reads_remaining);
    let list = version_rows(versions);
    let enc = urlencode(path);
    let mut vrows = String::new();
    vrows.append("<table><tr><th>Version</th><th>Created</th><th>State</th></tr>");
    vrows.append(list.as_str());
    vrows.append("</table>");
    let mut body = String::new();
    body.append("<p><a href=\"/gui/vaults/");
    body.append(escape(vault_id).as_str());
    body.append("\">&larr; ");
    body.append(escape(vault_name).as_str());
    body.append("</a></p><div class=\"card\"><h1>");
    body.append(escape(path).as_str());
    body.append("</h1>");
    body.append(note.as_str());
    body.append("<h2>Current value (v");
    push_i64(&mut body, version);
    body.append(")</h2><pre style=\"background:var(--bg);border:1px solid var(--border);border-radius:8px;padding:14px;overflow:auto;color:var(--fg)\">");
    body.append(escape(pretty_json).as_str());
    body.append("</pre><div style=\"display:flex;gap:10px\"><a href=\"/gui/vaults/");
    body.append(escape(vault_id).as_str());
    body.append("/secret/new?path=");
    body.append(enc.as_str());
    body.append("\"><button type=\"button\">New version</button></a><form method=\"post\" action=\"/gui/vaults/");
    body.append(escape(vault_id).as_str());
    body.append("/secret/delete\" style=\"margin:0\" onsubmit=\"return confirm('Delete this secret and all its versions?');\"><input type=\"hidden\" name=\"path\" value=\"");
    body.append(escape(path).as_str());
    body.append("\"><button type=\"submit\" class=\"btn-danger\">Delete secret</button></form></div></div><div class=\"card\"><h2>Versions</h2>");
    body.append(vrows.as_str());
    body.append("</div>");
    layout(path, Some(username), body.as_str())
}

/// No user row offers a control on the signed-in user's own account or on a
/// master account: its action cell is empty.
pub proof fn lemma_no_control_for_self_or_master(x: UserListItem, current_user_id: Seq<char>)
    requires
        x.id@ == current_user_id || x.is_master,
    ensures
        user_row_html(x, current_user_id) == Seq::<char>::empty() + "<tr><td>"@ + escaped(x.username@) + "</td><td>"@
            + role_pill_html(x.is_master) + "</td><td>"@ + (if x.active { "<span class=\"pill ok\">active</span>"@ } else { "<span class=\"pill warn\">disabled</span>"@ }) + "</td><td>"@ + "</td></tr>"@,
{
    let pre = Seq::<char>::empty() + "<tr><td>"@ + escaped(x.username@) + "</td><td>"@ + role_pill_html(x.is_master)
        + "</td><td>"@ + (if x.active { "<span class=\"pill ok\">active</span>"@ } else { "<span class=\"pill warn\">disabled</span>"@ }) + "</td><td>"@;
    assert(pre + Seq::<char>::empty() =~= pre);
}

// ─────────────────────────────────────────────────────────────────────────────
// Escaping and percent-encoding can be undone
// ─────────────────────────────────────────────────────────────────────────────

/// `s` begins with `p`.
pub open spec fn starts_with(s: Seq<char>, p: Seq<char>) -> bool {
    p.len() <= s.len() && s.take(p.len() as int) == p
}

/// The entity for `&`.
pub open spec fn amp_entity() -> Seq<char> {
    seq!['&', 'a', 'm', 'p', ';']
}

/// The entity for `<`.
pub open spec fn lt_entity() -> Seq<char> {
    seq!['&', 'l', 't', ';']
}

/// The entity for `>`.
pub open spec fn gt_entity() -> Seq<char> {
    seq!['&', 'g', 't', ';']
}

/// The entity for `"`.
pub open spec fn quot_entity() -> Seq<char> {
    seq!['&', 'q', 'u', 'o', 't', ';']
}

/// The entity for `'`.
pub open spec fn apos_entity() -> Seq<char> {
    seq!['&', '#', '3', '9', ';']
}

/// HTML text with the five entities `escape` writes turned back into their
/// characters, read from the front.
pub open spec fn unescaped(s: Seq<char>) -> Seq<char>
    decreases s.len(),
{
    if s.len() == 0 {
        Seq::empty()
    } else if starts_with(s, amp_entity()) {
        seq!['&'] + unescaped(s.skip(5))
    } else if starts_with(s, lt_entity()) {
        seq!['<'] + unescaped(s.skip(4))
    } else if starts_with(s, gt_entity()) {
        seq!['>'] + unescaped(s.skip(4))
    } else if starts_with(s, quot_entity()) {
        seq!['"'] + unescaped(s.skip(6))
    } else if starts_with(s, apos_entity()) {
        seq!['\''] + unescaped(s.skip(5))
    } else {
        seq![s[0]] + unescaped(s.drop_first())
    }
}

/// Escaping works character by character: the escape of a concatenation is
/// the concatenation of the escapes.
pub proof fn lemma_escaped_concat(a: Seq<char>, b: Seq<char>)
    ensures
        escaped(a + b) == escaped(a) + escaped(b),
    decreases b.len(),
{
    if b.len() == 0 {
        assert(a + b =~= a);
        assert(escaped(a) + escaped(b) =~= escaped(a));
    } else {
        assert((a + b).drop_last() =~= a + b.drop_last());
        assert((a + b).last() == b.last());
        lemma_escaped_concat(a, b.drop_last());
        assert(escaped(a + b) =~= escaped(a) + escaped(b));
    }
}

proof fn lemma_escaped_front(s: Seq<char>)
    requires
        s.len() > 0,
    ensures
        escaped(s) == esc_char(s[0]) + escaped(s.drop_first()),
{
    let c = seq![s[0]];
    assert(c + s.drop_first() =~= s);
    lemma_escaped_concat(c, s.drop_first());
    assert(c.drop_last() =~= Seq::<char>::empty());
    assert(escaped(c.drop_last()) == Seq::<char>::empty());
    assert(c.last() == s[0]);
    assert(escaped(c) =~= esc_char(s[0]));
}

/// Turning the five entities back into characters gives back exactly the
/// text that was escaped.
pub proof fn lemma_unescape_escaped(s: Seq<char>)
    ensures
        unescaped(escaped(s)) == s,
    decreases s.len(),
{
    reveal_strlit("&amp;");
    reveal_strlit("&lt;");
    reveal_strlit("&gt;");
    reveal_strlit("&quot;");
    reveal_strlit("&#39;");
    if s.len() == 0 {
    } else {
        lemma_escaped_front(s);
        lemma_unescape_escaped(s.drop_first());
        let c = s[0];
        let e = escaped(s.drop_first());
        let t = esc_char(c) + e;
        assert(escaped(s) == t);
        if c == '&' {
            assert(esc_char(c) =~= amp_entity());
            assert(t.take(5) =~= amp_entity());
            assert(t.skip(5) =~= e);
        } else if c == '<' {
            assert(esc_char(c) =~= lt_entity());
            assert(t[1] == 'l');
            assert(!starts_with(t, amp_entity()));
            assert(t.take(4) =~= lt_entity());
            assert(t.skip(4) =~= e);
        } else if c == '>' {
            assert(esc_char(c) =~= gt_entity());
            assert(t[1] == 'g');
            assert(!starts_with(t, amp_entity()));
            assert(!starts_with(t, lt_entity()));
            assert(t.take(4) =~= gt_entity());
            assert(t.skip(4) =~= e);
        } else if c == '"' {
            assert(esc_char(c) =~= quot_entity());
            assert(t[1] == 'q');
            assert(!starts_with(t, amp_entity()));
            assert(!starts_with(t, lt_entity()));
            assert(!starts_with(t, gt_entity()));
            assert(t.take(6) =~= quot_entity());
            assert(t.skip(6) =~= e);
        } else if c == '\'' {
            assert(esc_char(c) =~= apos_entity());
            assert(t[1] == '#');
            assert(!starts_with(t, amp_entity()));
            assert(!starts_with(t, lt_entity()));
            assert(!starts_with(t, gt_entity()));
            assert(!starts_with(t, quot_entity()));
            assert(t.take(5) =~= apos_entity());
            assert(t.skip(5) =~= e);
        } else {
            assert(esc_char(c) =~= seq![c]);
            assert(t[0] == c);
            assert(!starts_with(t, amp_entity()));
            assert(!starts_with(t, lt_entity()));
            assert(!starts_with(t, gt_entity()));
            assert(!starts_with(t, quot_entity()));
            assert(!starts_with(t, apos_entity()));
            assert(t.drop_first() =~= e);
        }
        assert(unescaped(t) =~= s);
    }
}

/// The value of a hex digit (either case).
pub open spec fn hex_value(c: char) -> int {
    if '0' <= c && c <= '9' {
        c as int - 48
    } else if 'A' <= c && c <= 'F' {
        c as int - 55
    } else if 'a' <= c && c <= 'f' {
        c as int - 87
    } else {
        0
    }
}

/// Percent-decoding: each `%` and the two hex digits after it is one byte,
/// every other character stands for its own (single-byte) code.
pub open spec fn percent_decoded(s: Seq<char>) -> Seq<u8>
    decreases s.len(),
{
    if s.len() == 0 {
        Seq::empty()
    } else if s[0] == '%' && s.len() >= 3 {
        seq![(hex_value(s[1]) * 16 + hex_value(s[2])) as u8] + percent_decoded(s.skip(3))
    } else {
        seq![s[0] as u8] + percent_decoded(s.drop_first())
    }
}

/// Percent-encoding works byte by byte.
pub proof fn lemma_url_bytes_concat(a: Seq<u8>, b: Seq<u8>)
    ensures
        url_bytes(a + b) == url_bytes(a) + url_bytes(b),
    decreases b.len(),
{
    if b.len() == 0 {
        assert(a + b =~= a);
        assert(url_bytes(a) + url_bytes(b) =~= url_bytes(a));
    } else {
        assert((a + b).drop_last() =~= a + b.drop_last());
        assert((a + b).last() == b.last());
        lemma_url_bytes_concat(a, b.drop_last());
        assert(url_bytes(a + b) =~= url_bytes(a) + url_bytes(b));
    }
}

proof fn lemma_hex_value_upper(d: int)
    requires
        0 <= d < 16,
    ensures
        hex_value(hex_upper_digit(d)) == d,
{
}

/// Percent-decoding gives back exactly the bytes that were encoded.
pub proof fn lemma_percent_decode_bytes(b: Seq<u8>)
    ensures
        percent_decoded(url_bytes(b)) == b,
    decreases b.len(),
{
    if b.len() > 0 {
        let x = b[0];
        let one = seq![x];
        assert(one + b.drop_first() =~= b);
        lemma_url_bytes_concat(one, b.drop_first());
        assert(one.drop_last() =~= Seq::<u8>::empty());
        assert(url_bytes(one.drop_last()) == Seq::<char>::empty());
        assert(one.last() == x);
        assert(url_bytes(one) =~= url_byte(x));
        lemma_percent_decode_bytes(b.drop_first());
        let e = url_bytes(b.drop_first());
        let t = url_byte(x) + e;
        assert(url_bytes(b) == t);
        if url_unreserved(x) {
            assert(t[0] == x as char);
            assert(t[0] != '%');
            assert(t.drop_first() =~= e);
            assert((x as char) as u8 == x);
        } else {
            lemma_hex_value_upper(x as int / 16);
            lemma_hex_value_upper(x as int % 16);
            assert(t[0] == '%');
            assert(t[1] == hex_upper_digit(x as int / 16));
            assert(t[2] == hex_upper_digit(x as int % 16));
            assert(t.skip(3) =~= e);
            assert((hex_value(t[1]) * 16 + hex_value(t[2])) as u8 == x);
        }
        assert(percent_decoded(t) =~= b);
    }
}

/// Percent-decoding `urlencode`'s output and reading the bytes as UTF-8
/// gives back the text that was encoded.
pub proof fn lemma_urlencode_round_trip(s: Seq<char>)
    ensures
        percent_decoded(url_encoded(s)) == vstd::utf8::encode_utf8(s),
        vstd::utf8::decode_utf8(percent_decoded(url_encoded(s))) == s,
{
    lemma_percent_decode_bytes(vstd::utf8::encode_utf8(s));
    vstd::utf8::encode_utf8_decode_utf8(s);
}

} // verus!
