//! The management GUI: the forms it accepts, a user's capabilities for one
//! vault, the login throttle, and the decisions its handlers make before
//! rendering a page or redirecting.
pub mod pages;
pub mod page_laws;

use vstd::prelude::*;

use crate::audit::AuditEntry;
use crate::clock::{MAX_DELTA_SECS, utc_instant};
use crate::error::{AppError, is_bad_request};
use crate::text::{
    chars_of, clean_lines, clean_lines_of, int_text, owned, parse_i64, parse_i64_spec, parse_u8,
    parse_u8_spec, push_char, push_i64, split_lines, trim, trimmed, views,
};
use crate::vault::{Role, role_can_assign, role_can_read, role_can_write, role_parse};
use crate::web::pages::{notice_page, notice_page_html, url_encoded};

verus! {

broadcast use vstd::string::group_string_axioms;

// ─────────────────────────────────────────────────────────────────────────────
// Forms
// ─────────────────────────────────────────────────────────────────────────────

/// Credentials submitted by the setup and login forms.
pub struct Credentials {
    pub username: String,
    pub password: String,
}

/// Initialize form fields (share / threshold counts).
pub struct InitForm {
    pub shares: String,
    pub threshold: String,
}

/// Single unseal-share submission.
pub struct ShareForm {
    pub key: String,
}

/// Vault create form fields.
pub struct VaultForm {
    pub name: String,
    pub description: String,
}

/// Assign-access form fields (username + role).
pub struct AssignForm {
    pub username: String,
    pub role: String,
}

/// Revoke-access form fields.
pub struct RevokeForm {
    pub user_id: String,
}

/// Secret write form fields.
pub struct SecretForm {
    pub path: String,
    pub data: String,
}

/// Single-path form/query fields (view, delete, prefill).
#[derive(Default)]
pub struct PathParam {
    pub path: String,
}

/// Vault network-ACL form (newline-separated IP/CIDR entries).
pub struct AclForm {
    pub entries: String,
}

/// Token create form fields.
pub struct TokenForm {
    pub display_name: String,
    pub allowed_paths: String,
    pub allowed_ips: String,
    pub ttl_hours: String,
}

// ─────────────────────────────────────────────────────────────────────────────
// Capabilities
// ─────────────────────────────────────────────────────────────────────────────

/// A user's effective capabilities for one vault (global master + per-vault role).
#[derive(Clone, Copy)]
pub struct Access {
    pub is_master: bool,
    pub role: Option<Role>,
}

/// Secret values are readable only through a per-vault role.
pub open spec fn access_can_read(a: Access) -> bool {
    a.role matches Some(r) && role_can_read(r)
}

/// Writing needs an editor or admin role.
pub open spec fn access_can_write(a: Access) -> bool {
    a.role matches Some(r) && role_can_write(r)
}

/// Assigning needs the global master flag or a vault admin role.
pub open spec fn access_can_assign(a: Access) -> bool {
    a.is_master || (a.role matches Some(r) && role_can_assign(r))
}

/// The vault page is open to the master and to every member.
pub open spec fn access_can_view(a: Access) -> bool {
    a.is_master || a.role is Some
}

impl Access {
    /// May read secret values (a per-vault role; master is blind).
    pub fn can_read(&self) -> (b: bool)
        ensures
            b == access_can_read(*self),
    {
        match self.role {
            Some(r) => r.can_read(),
            None => false,
        }
    }

    /// May create/update secrets and tokens (editor or admin).
    pub fn can_write(&self) -> (b: bool)
        ensures
            b == access_can_write(*self),
    {
        match self.role {
            Some(r) => r.can_write(),
            None => false,
        }
    }

    /// May assign/revoke users (global master or vault admin).
    pub fn can_assign(&self) -> (b: bool)
        ensures
            b == access_can_assign(*self),
    {
        self.is_master || match self.role {
            Some(r) => r.can_assign(),
            None => false,
        }
    }

    /// May open the vault page at all (master for management, or any member).
    pub fn can_view(&self) -> (b: bool)
        ensures
            b == access_can_view(*self),
    {
        self.is_master || self.role.is_some()
    }
}

/// The capabilities are nested: whoever may write may read, whoever may read
/// or assign may open the vault page, and reading is exactly membership.
pub proof fn lemma_access_nested(a: Access)
    ensures
        access_can_write(a) ==> access_can_read(a),
        access_can_read(a) ==> access_can_view(a),
        access_can_assign(a) ==> access_can_view(a),
        access_can_read(a) <==> a.role is Some,
{
}

/// The master without a vault role is blind: it manages the vault (assign,
/// view) but can neither read nor write its secrets.
pub proof fn lemma_master_is_blind(a: Access)
    requires
        a.is_master,
        a.role is None,
    ensures
        !access_can_read(a),
        !access_can_write(a),
        access_can_assign(a),
        access_can_view(a),
{
}

// ─────────────────────────────────────────────────────────────────────────────
// Form field parsing
// ─────────────────────────────────────────────────────────────────────────────

/// Split a textarea into trimmed, non-empty lines.
pub fn lines_to_vec(input: &str) -> (out: Vec<String>)
    ensures
        views(out@) == clean_lines(split_lines(input@)),
{
    clean_lines_of(input)
}

/// A count field of the initialize form: its trimmed text as a `u8`, or
/// `default` when it is blank or not such a number.
pub fn form_count(input: &str, default: u8) -> (n: u8)
    ensures
        n == match parse_u8_spec(trimmed(input@)) {
            Some(v) => v,
            None => default,
        },
{
    let t = trim(input);
    match parse_u8(t.as_str()) {
        Some(v) => v,
        None => default,
    }
}

/// The message shown when the TTL field is not a positive number of hours.
pub open spec fn ttl_error_text() -> Seq<char> {
    "TTL must be a positive number of hours."@
}

/// The TTL field's value in hours, when it is a positive integer.
pub open spec fn ttl_hours_of(input: Seq<char>) -> Option<i64> {
    match parse_i64_spec(trimmed(input)) {
        Some(n) => if n > 0 { Some(n) } else { None },
        None => None,
    }
}

/// Token lifetime from the TTL field: blank means no expiry, a positive
/// number of hours is that many seconds, anything else is refused.
pub fn ttl_seconds(ttl_hours: &str) -> (r: Result<Option<i64>, AppError>)
    requires
        ttl_hours_of(ttl_hours@) matches Some(n) ==> n * 3600 <= i64::MAX,
    ensures
        trimmed(ttl_hours@).len() == 0 ==> r == Ok::<Option<i64>, AppError>(None),
        trimmed(ttl_hours@).len() > 0 ==> match ttl_hours_of(ttl_hours@) {
            Some(n) => r == Ok::<Option<i64>, AppError>(Some((n * 3600) as i64)),
            None => r matches Err(e) && is_bad_request(e, ttl_error_text()),
        },
{
    let t = trim(ttl_hours);
    if t.as_str().is_empty() {
        return Ok(None);
    }
    match parse_i64(t.as_str()) {
        Some(n) => {
            if n > 0 {
                Ok(Some(n * 3600))
            } else {
                Err(AppError::BadRequest(owned("TTL must be a positive number of hours.")))
            }
        },
        None => Err(AppError::BadRequest(owned("TTL must be a positive number of hours."))),
    }
}

/// The role named in the assign form (trimmed), or the form's error.
pub fn assign_role(input: &str) -> (r: Result<Role, AppError>)
    ensures
        match role_parse(trimmed(input@)) {
            Some(role) => r == Ok::<Role, AppError>(role),
            None => r matches Err(e) && is_bad_request(e, "Invalid role."@),
        },
{
    let t = trim(input);
    match Role::parse(t.as_str()) {
        Some(role) => Ok(role),
        None => Err(AppError::BadRequest(owned("Invalid role."))),
    }
}

// ─────────────────────────────────────────────────────────────────────────────
// Client address
// ─────────────────────────────────────────────────────────────────────────────

/// The text before the first comma of `s` (all of it when there is none).
pub open spec fn before_comma(s: Seq<char>) -> Seq<char>
    decreases s.len(),
{
    if s.len() == 0 || s[0] == ',' {
        Seq::empty()
    } else {
        seq![s[0]] + before_comma(s.drop_first())
    }
}

/// Best-effort client IP from an `X-Forwarded-For` value (first hop,
/// trimmed); absent or blank gives none.
pub fn client_ip(forwarded_for: Option<&str>) -> (r: Option<String>)
    ensures
        match forwarded_for {
            None => r is None,
            Some(h) => {
                let first = trimmed(before_comma(h@));
                if first.len() == 0 {
                    r is None
                } else {
                    r matches Some(s) && s@ == first
                }
            },
        },
{
    let h = match forwarded_for {
        None => return None,
        Some(h) => h,
    };
    let v = chars_of(h);
    let mut first = String::new();
    let mut i: usize = 0;
    while i < v.len() && v[i] != ','
        invariant
            v@ == h@,
            i <= v.len(),
            first@ == v@.take(i as int),
            !v@.take(i as int).contains(','),
        decreases v.len() - i,
    {
        push_char(&mut first, v[i]);
        proof {
            assert(v@.take(i + 1) =~= v@.take(i as int).push(v@[i as int]));
            assert forall|j: int| 0 <= j < i + 1 implies #[trigger] v@.take(i + 1)[j] != ',' by {
                if j < i {
                    assert(v@.take(i + 1)[j] == v@.take(i as int)[j]);
                }
            }
        }
        i = i + 1;
    }
    proof { lemma_before_comma_at(v@, i as int); }
    let t = trim(first.as_str());
    if t.as_str().is_empty() {
        None
    } else {
        Some(t)
    }
}

/// `before_comma` is the prefix up to the first comma.
proof fn lemma_before_comma_at(s: Seq<char>, i: int)
    requires
        0 <= i <= s.len(),
        !s.take(i).contains(','),
        i < s.len() ==> s[i] == ',',
    ensures
        before_comma(s) == s.take(i),
    decreases s.len(),
{
    if i == 0 {
        assert(s.take(i) =~= Seq::<char>::empty());
    } else {
        assert(s.take(i)[0] == s[0]);
        let t = s.drop_first();
        assert(!t.take(i - 1).contains(',')) by {
            if t.take(i - 1).contains(',') {
                let j = choose|j: int| 0 <= j < t.take(i - 1).len() && #[trigger] t.take(i - 1)[j] == ',';
                assert(s.take(i)[j + 1] == ',');
            }
        }
        lemma_before_comma_at(t, i - 1);
        assert(seq![s[0]] + t.take(i - 1) =~= s.take(i));
    }
}

// ─────────────────────────────────────────────────────────────────────────────
// Login throttle
// ─────────────────────────────────────────────────────────────────────────────

/// Nanoseconds in a minute.
pub const MINUTE_NANOS: i128 = 60_000_000_000;

/// The lockout span in nanoseconds: the configured minutes, read as `i64`
/// (the configuration holds them as `u64`).
pub open spec fn lockout_span(lockout_minutes: u64) -> int {
    (lockout_minutes as i64) * MINUTE_NANOS
}

/// Locking from `now` can be computed: the minutes make a valid time span
/// and the deadline is a valid instant.
pub open spec fn lock_computable(lockout_minutes: u64, now: int) -> bool {
    &&& -MAX_DELTA_SECS <= (lockout_minutes as i64) * 60 <= MAX_DELTA_SECS
    &&& utc_instant(now + lockout_span(lockout_minutes))
}

/// Failure counter and lockout deadline for one login name; times are
/// nanoseconds since the Unix epoch.
#[derive(Clone, Copy, Default)]
pub struct ThrottleEntry {
    pub failures: u32,
    pub locked_until: Option<i128>,
}

/// The entry's deadline, if any, is a valid instant.
pub open spec fn throttle_ok(e: ThrottleEntry) -> bool {
    e.locked_until matches Some(u) ==> utc_instant(u as int)
}

/// The entry after one more failed login: at `max` failures the name is
/// locked for `lockout_minutes` from `now` and the counter starts over.
pub open spec fn after_failure(e: ThrottleEntry, max: u32, lockout_minutes: u64, now: i128) -> ThrottleEntry {
    if e.failures + 1 >= max {
        ThrottleEntry { failures: 0, locked_until: Some((now + lockout_span(lockout_minutes)) as i128) }
    } else {
        ThrottleEntry { failures: (e.failures + 1) as u32, locked_until: e.locked_until }
    }
}

/// The entry after a run of failed logins at the times in `nows`.
pub open spec fn after_failures(e: ThrottleEntry, max: u32, lockout_minutes: u64, nows: Seq<i128>) -> ThrottleEntry
    decreases nows.len(),
{
    if nows.len() == 0 {
        e
    } else {
        after_failure(after_failures(e, max, lockout_minutes, nows.drop_last()), max, lockout_minutes, nows.last())
    }
}

/// Increment the failure counter and lock the account at the configured
/// limit. The lock is `lockout_minutes` (read as `i64`) after `now`; the
/// limits are those where the time arithmetic does not panic.
pub fn record_failure(entry: &mut ThrottleEntry, max: u32, lockout_minutes: u64, now: i128)
    requires
        old(entry).failures < u32::MAX,
        utc_instant(now as int),
        old(entry).failures + 1 >= max ==> lock_computable(lockout_minutes, now as int),
    ensures
        *final(entry) == after_failure(*old(entry), max, lockout_minutes, now),
        throttle_ok(*old(entry)) ==> throttle_ok(*final(entry)),
{
    entry.failures = entry.failures + 1;
    if entry.failures >= max {
        let minutes: i64 = lockout_minutes as i64;
        let span: i128 = (minutes as i128) * MINUTE_NANOS;
        entry.locked_until = Some(now + span);
        entry.failures = 0;
    }
}

/// The minutes a user is told to wait: whole minutes left, plus one.
pub open spec fn wait_minutes(until: int, now: int) -> int {
    (until - now) / (MINUTE_NANOS as int) + 1
}

/// The lockout notice for a name locked until `until`, seen at `now`.
pub open spec fn lockout_text(until: int, now: int) -> Seq<char> {
    Seq::<char>::empty() + "Too many failed attempts. Try again in about "@ + int_text(wait_minutes(until, now))
        + " minute(s)."@
}

/// If the name is currently locked out, the user-facing message.
pub fn locked_message(entry: Option<ThrottleEntry>, now: i128) -> (r: Option<String>)
    requires
        utc_instant(now as int),
        entry matches Some(e) ==> throttle_ok(e),
    ensures
        match entry {
            Some(e) => match e.locked_until {
                Some(until) => if until > now {
                    r matches Some(m) && m@ == lockout_text(until as int, now as int)
                } else {
                    r is None
                },
                None => r is None,
            },
            None => r is None,
        },
{
    let e = match entry {
        Some(e) => e,
        None => return None,
    };
    let until = match e.locked_until {
        Some(u) => u,
        None => return None,
    };
    if until > now {
        let remaining: i128 = until - now;
        let mins: i128 = remaining / MINUTE_NANOS + 1;
        assert(mins <= i64::MAX);
        let mut m = String::new();
        m.append("Too many failed attempts. Try again in about ");
        push_i64(&mut m, mins as i64);
        m.append(" minute(s).");
        Some(m)
    } else {
        None
    }
}

/// Lockout is reached after exactly `max` consecutive failures: a fresh
/// entry stays unlocked through the first `max - 1` failures, counting them,
/// and the `max`-th locks it from that failure's time and resets the count.
pub proof fn lemma_lockout_after_max_failures(max: u32, lockout_minutes: u64, nows: Seq<i128>)
    requires
        max >= 1,
        nows.len() <= max,
    ensures
        nows.len() < max ==> after_failures(ThrottleEntry { failures: 0, locked_until: None }, max, lockout_minutes, nows)
            == (ThrottleEntry { failures: nows.len() as u32, locked_until: None }),
        nows.len() == max ==> after_failures(ThrottleEntry { failures: 0, locked_until: None }, max, lockout_minutes, nows)
            == (ThrottleEntry {
                failures: 0,
                locked_until: Some((nows.last() + lockout_span(lockout_minutes)) as i128),
            }),
    decreases nows.len(),
{
    if nows.len() > 0 {
        lemma_lockout_after_max_failures(max, lockout_minutes, nows.drop_last());
    }
}

/// The wait a locked-out user is told is never shorter than the lock still
/// has to run, and overstates it by at most one minute.
pub proof fn lemma_wait_covers_lock(until: int, now: int)
    requires
        until > now,
    ensures
        wait_minutes(until, now) >= 1,
        until - now <= wait_minutes(until, now) * MINUTE_NANOS,
        (wait_minutes(until, now) - 1) * MINUTE_NANOS <= until - now,
{
}

/// The name a login is throttled under: the trimmed username, lowercased.
pub fn login_key(username: &str) -> (k: String)
    ensures
        k@ == lowercase_of(trimmed(username@)),
{
    let t = trim(username);
    lowercase(t.as_str())
}

/// Lowercase of a string, as `str::to_lowercase` computes it.
pub uninterp spec fn lowercase_of(s: Seq<char>) -> Seq<char>;

/// `str::to_lowercase`: the Unicode lowercase mapping of each character.
/// Its result is named, not stated.
#[verifier::external_body]
fn lowercase(s: &str) -> (r: String)
    ensures
        r@ == lowercase_of(s@),
{
    s.to_lowercase()
}

// ─────────────────────────────────────────────────────────────────────────────
// Handler decisions
// ─────────────────────────────────────────────────────────────────────────────

/// Where `GET /gui/` sends a visitor.
#[derive(Debug, Clone, Copy, PartialEq, Eq, Structural)]
pub enum GuiRoot {
    /// Uninitialized or sealed: the unseal flow comes first.
    Unseal,
    /// No user exists yet: first-run setup.
    Setup,
    /// Not signed in.
    Login,
    /// Signed in: render the dashboard.
    Dashboard,
}

/// Uninitialized or sealed instances go to the unseal flow; then a first
/// run goes to setup; then anonymous visitors go to the login form.
pub fn gui_root_step(initialized: bool, sealed: bool, user_count: i64, signed_in: bool) -> (r: GuiRoot)
    ensures
        r == if !initialized || sealed {
            GuiRoot::Unseal
        } else if user_count == 0 {
            GuiRoot::Setup
        } else if !signed_in {
            GuiRoot::Login
        } else {
            GuiRoot::Dashboard
        },
{
    if !initialized || sealed {
        GuiRoot::Unseal
    } else if user_count == 0 {
        GuiRoot::Setup
    } else if !signed_in {
        GuiRoot::Login
    } else {
        GuiRoot::Dashboard
    }
}

/// What a GUI request needs before its handler runs.
#[derive(Debug, Clone, Copy, PartialEq, Eq, Structural)]
pub enum Guard {
    /// No session: go to the login form.
    Login,
    /// The instance is sealed: show the sealed notice.
    Sealed,
    /// A master-only action by another user: show the forbidden notice.
    NotMaster,
    /// Go ahead.
    Pass,
}

/// The request preconditions of a GUI handler, in order: a session, then (if
/// the handler needs it) an unsealed instance, then (if it needs it) the
/// master user.
pub fn guard(signed_in: bool, needs_unsealed: bool, sealed: bool, needs_master: bool, is_master: bool) -> (g: Guard)
    ensures
        g == if !signed_in {
            Guard::Login
        } else if needs_unsealed && sealed {
            Guard::Sealed
        } else if needs_master && !is_master {
            Guard::NotMaster
        } else {
            Guard::Pass
        },
{
    if !signed_in {
        Guard::Login
    } else if needs_unsealed && sealed {
        Guard::Sealed
    } else if needs_master && !is_master {
        Guard::NotMaster
    } else {
        Guard::Pass
    }
}

/// The capability a vault handler needs.
#[derive(Debug, Clone, Copy, PartialEq, Eq, Structural)]
pub enum Need {
    View,
    Read,
    Write,
    Assign,
}

/// Whether `a` grants `need`.
pub open spec fn grants(a: Access, need: Need) -> bool {
    match need {
        Need::View => access_can_view(a),
        Need::Read => access_can_read(a),
        Need::Write => access_can_write(a),
        Need::Assign => access_can_assign(a),
    }
}

/// The outcome of a vault handler's checks.
#[derive(Debug, Clone, Copy, PartialEq, Eq, Structural)]
pub enum VaultGate {
    /// No such vault: the not-found notice (404).
    NotFound,
    /// The caller lacks the capability: the access-denied notice (403).
    Denied,
    /// Go ahead.
    Allowed,
}

/// A vault handler first needs the vault to exist, then the capability.
pub fn vault_gate(found: bool, access: &Access, need: Need) -> (g: VaultGate)
    ensures
        g == if !found {
            VaultGate::NotFound
        } else if !grants(*access, need) {
            VaultGate::Denied
        } else {
            VaultGate::Allowed
        },
{
    if !found {
        return VaultGate::NotFound;
    }
    let ok = match need {
        Need::View => access.can_view(),
        Need::Read => access.can_read(),
        Need::Write => access.can_write(),
        Need::Assign => access.can_assign(),
    };
    if ok {
        VaultGate::Allowed
    } else {
        VaultGate::Denied
    }
}

/// The notice for a vault action while the instance is sealed.
pub fn sealed_notice(username: &str) -> (html: String)
    ensures
        html@ == notice_page_html(
            Some(username@),
            "Instance sealed"@,
            "Unseal EasyVault via /v1/sys/unseal before accessing vaults and secrets."@,
        ),
{
    notice_page(
        Some(username),
        "Instance sealed",
        "Unseal EasyVault via /v1/sys/unseal before accessing vaults and secrets.",
    )
}

/// The notice for a master-only action by another user.
pub fn master_only_notice(username: &str) -> (html: String)
    ensures
        html@ == notice_page_html(Some(username@), "Access denied"@, "Only the master user can perform this action."@),
{
    notice_page(Some(username), "Access denied", "Only the master user can perform this action.")
}

/// The notice for a vault that does not exist.
pub fn not_found_notice(username: &str) -> (html: String)
    ensures
        html@ == notice_page_html(Some(username@), "Not found"@, "That vault does not exist."@),
{
    notice_page(Some(username), "Not found", "That vault does not exist.")
}

/// The notice for a vault the caller may not use this way.
pub fn access_denied_notice(username: &str) -> (html: String)
    ensures
        html@ == notice_page_html(Some(username@), "Access denied"@, "You do not have access to this vault."@),
{
    notice_page(Some(username), "Access denied", "You do not have access to this vault.")
}

/// What the unseal screen shows.
#[derive(Debug, Clone, Copy, PartialEq, Eq, Structural)]
pub enum UnsealScreen {
    /// Not initialized: the initialize form.
    InitForm,
    /// Already unsealed: back to the app.
    App,
    /// Sealed: the share form with progress.
    ShareForm,
}

/// The unseal screen for an instance's state.
pub fn unseal_screen(initialized: bool, sealed: bool) -> (r: UnsealScreen)
    ensures
        r == if !initialized {
            UnsealScreen::InitForm
        } else if !sealed {
            UnsealScreen::App
        } else {
            UnsealScreen::ShareForm
        },
{
    if !initialized {
        UnsealScreen::InitForm
    } else if !sealed {
        UnsealScreen::App
    } else {
        UnsealScreen::ShareForm
    }
}

/// The answer to a submitted share.
#[derive(Debug, Clone)]
pub enum ShareReply {
    /// Unsealed: back to the app.
    App,
    /// Still sealed: the share form again, with an error message if any.
    ShareForm(Option<String>),
}

/// After a share was submitted: unsealed goes to the app, still sealed shows
/// the form again; a refused share is shown on the form, other errors pass.
pub fn share_reply(result: Result<(), AppError>, sealed_after: bool) -> (r: Result<ShareReply, AppError>)
    ensures
        match result {
            Ok(()) => if sealed_after {
                r matches Ok(ShareReply::ShareForm(None))
            } else {
                r matches Ok(ShareReply::App)
            },
            Err(AppError::BadRequest(msg)) => r matches Ok(ShareReply::ShareForm(Some(m))) && m@ == msg@,
            Err(e) => r matches Err(e2) && e2 == e,
        },
{
    match result {
        Ok(()) => if sealed_after {
            Ok(ShareReply::ShareForm(None))
        } else {
            Ok(ShareReply::App)
        },
        Err(AppError::BadRequest(msg)) => Ok(ShareReply::ShareForm(Some(msg))),
        Err(e) => Err(e),
    }
}

/// The address of a vault's page.
pub fn vault_location(vault_id: &str) -> (s: String)
    ensures
        s@ == "/gui/vaults/"@ + vault_id@,
{
    let mut s = String::new();
    s.append("/gui/vaults/");
    s.append(vault_id);
    s
}

/// The address of a vault's token page.
pub fn tokens_location(vault_id: &str) -> (s: String)
    ensures
        s@ == "/gui/vaults/"@ + vault_id@ + "/tokens"@,
{
    let mut s = vault_location(vault_id);
    s.append("/tokens");
    s
}

/// Where a written secret is shown: its vault's secret view, with the
/// trimmed path percent-encoded into the query.
pub fn secret_location(vault_id: &str, path: &str) -> (s: String)
    ensures
        s@ == "/gui/vaults/"@ + vault_id@ + "/secret?path="@ + url_encoded(trimmed(path@)),
{
    let t = trim(path);
    let enc = crate::web::pages::urlencode(t.as_str());
    let mut s = vault_location(vault_id);
    s.append("/secret?path=");
    s.append(enc.as_str());
    s
}

/// The data field of a secret is JSON text, as `serde_json` reads a `Value`.
pub uninterp spec fn json_value_text(s: Seq<char>) -> bool;

/// `serde_json::from_str::<serde_json::Value>` succeeds on `s`. Whether it
/// does is named, not stated.
#[verifier::external_body]
fn parses_as_json(s: &str) -> (b: bool)
    ensures
        b == json_value_text(s@),
{
    serde_json::from_str::<serde_json::Value>(s).is_ok()
}

/// The message shown when submitted secret data is not JSON.
pub open spec fn bad_json_text() -> Seq<char> {
    "Data must be valid JSON (e.g. {\"password\":\"…\"})."@
}

/// The secret form's data must be JSON once trimmed.
pub fn check_secret_data(data: &str) -> (r: Result<(), AppError>)
    ensures
        r is Ok <==> json_value_text(trimmed(data@)),
        r matches Err(e) ==> is_bad_request(e, bad_json_text()),
{
    let t = trim(data);
    if parses_as_json(t.as_str()) {
        Ok(())
    } else {
        Err(AppError::BadRequest(owned("Data must be valid JSON (e.g. {\"password\":\"…\"}).")))
    }
}

/// The audit entry for an operation done through a GUI session.
pub fn gui_entry<'a>(
    operation: &'a str,
    vault_id: Option<&'a str>,
    path: Option<&'a str>,
    user_id: &'a str,
    ip: &'a str,
    code: i64,
) -> (e: AuditEntry<'a>)
    ensures
        e.operation == operation,
        e.vault_id == vault_id,
        e.path == path,
        e.actor_type@ == "gui_session"@,
        e.actor_hash == Some(user_id),
        e.source_ip == Some(ip),
        e.response_code == code,
{
    AuditEntry {
        operation,
        vault_id,
        path,
        actor_type: "gui_session",
        actor_hash: Some(user_id),
        source_ip: Some(ip),
        response_code: code,
    }
}

} // verus!
