//! Vaults: per-vault roles, vault metadata, the network ACL columns, and the
//! shape checks on stored key material.
use vstd::prelude::*;

use crate::error::{AppError, is_bad_request, is_internal};
use crate::text::{concat, contains_char, owned, str_eq, trim, trimmed, views};

verus! {

broadcast use vstd::string::group_string_axioms;

/// Length in bytes of an AES-GCM nonce as stored beside each wrapped key.
pub const NONCE_LEN: usize = 12;

/// Length in bytes of every symmetric key and X25519 key.
pub const KEY_LEN: usize = 32;

// ─────────────────────────────────────────────────────────────────────────────
// Roles
// ─────────────────────────────────────────────────────────────────────────────

/// A user's role within a single vault.
#[derive(Debug, Clone, Copy, PartialEq, Eq, Structural)]
pub enum Role {
    Viewer,
    Editor,
    Admin,
}

/// The canonical lowercase storage string of a role.
pub open spec fn role_text(r: Role) -> Seq<char> {
    match r {
        Role::Viewer => "viewer"@,
        Role::Editor => "editor"@,
        Role::Admin => "admin"@,
    }
}

/// The role a stored string names, if any.
pub open spec fn role_parse(s: Seq<char>) -> Option<Role> {
    if s == "viewer"@ {
        Some(Role::Viewer)
    } else if s == "editor"@ {
        Some(Role::Editor)
    } else if s == "admin"@ {
        Some(Role::Admin)
    } else {
        None
    }
}

/// Viewer, editor and admin may all read secret values.
pub open spec fn role_can_read(r: Role) -> bool {
    true
}

/// Editor and admin may create and update secrets and tokens.
pub open spec fn role_can_write(r: Role) -> bool {
    r == Role::Editor || r == Role::Admin
}

/// Only an admin may assign users to the vault.
pub open spec fn role_can_assign(r: Role) -> bool {
    r == Role::Admin
}

impl Role {
    /// Parse a stored role string; unknown values are rejected.
    pub fn parse(s: &str) -> (r: Option<Role>)
        ensures
            r == role_parse(s@),
    {
        if str_eq(s, "viewer") {
            Some(Role::Viewer)
        } else if str_eq(s, "editor") {
            Some(Role::Editor)
        } else if str_eq(s, "admin") {
            Some(Role::Admin)
        } else {
            None
        }
    }

    /// Canonical lowercase storage/display string.
    pub fn as_str(self) -> (s: &'static str)
        ensures
            s@ == role_text(self),
    {
        match self {
            Role::Viewer => "viewer",
            Role::Editor => "editor",
            Role::Admin => "admin",
        }
    }

    /// May read secret values (any role).
    pub fn can_read(self) -> (b: bool)
        ensures
            b == role_can_read(self),
    {
        true
    }

    /// May create/update secrets and create tokens (editor and admin).
    pub fn can_write(self) -> (b: bool)
        ensures
            b == role_can_write(self),
    {
        matches!(self, Role::Editor | Role::Admin)
    }

    /// May assign users to the vault (admin only).
    pub fn can_assign(self) -> (b: bool)
        ensures
            b == role_can_assign(self),
    {
        matches!(self, Role::Admin)
    }
}

/// Storing a role and reading it back gives the same role, and no two roles
/// share a storage string.
pub proof fn lemma_role_text_round_trip(r: Role, q: Role)
    ensures
        role_parse(role_text(r)) == Some(r),
        role_text(r) == role_text(q) ==> r == q,
{
    reveal_strlit("viewer");
    reveal_strlit("editor");
    reveal_strlit("admin");
    assert("viewer"@[0] != "editor"@[0]);
    assert("viewer"@.len() != "admin"@.len());
    assert("editor"@.len() != "admin"@.len());
}

/// The roles are ordered viewer < editor < admin: every capability of a role
/// is also held by each higher role.
pub proof fn lemma_role_capabilities_nested(r: Role)
    ensures
        role_can_assign(r) ==> role_can_write(r),
        role_can_write(r) ==> role_can_read(r),
        role_can_read(r),
{
}

/// The role a stored `role` column names; unknown strings read as no role.
pub fn role_from_stored(stored: Option<String>) -> (r: Option<Role>)
    ensures
        r == match stored {
            Some(s) => role_parse(s@),
            None => None,
        },
{
    match stored {
        Some(s) => Role::parse(s.as_str()),
        None => None,
    }
}

// ─────────────────────────────────────────────────────────────────────────────
// Vault metadata
// ─────────────────────────────────────────────────────────────────────────────

/// A vault row (metadata only — keys live escrowed/wrapped, never plaintext).
#[derive(Debug, Clone)]
pub struct VaultRow {
    pub id: String,
    pub name: String,
    pub description: Option<String>,
    pub locked: bool,
    pub created_by: Option<String>,
}

/// Summary of a vault for list views.
#[derive(Debug, Clone)]
pub struct VaultSummary {
    pub id: String,
    pub name: String,
    pub description: Option<String>,
}

/// A member of a vault: user + their role + grant time.
#[derive(Debug, Clone)]
pub struct VaultMember {
    pub user_id: String,
    pub username: String,
    pub role: String,
    pub granted_at: String,
}

/// The name a new vault is stored under: the trimmed input, which must not be
/// empty.
pub fn vault_name(name: &str) -> (r: Result<String, AppError>)
    ensures
        trimmed(name@).len() == 0 <==> r is Err,
        r matches Ok(n) ==> n@ == trimmed(name@),
        r matches Err(e) ==> is_bad_request(e, "vault name is required"@),
{
    let n = trim(name);
    if n.as_str().is_empty() {
        Err(AppError::BadRequest(owned("vault name is required")))
    } else {
        Ok(n)
    }
}

/// The description a new vault is stored with: the trimmed input, or none
/// when that is empty.
pub fn vault_description(description: &str) -> (r: Option<String>)
    ensures
        trimmed(description@).len() == 0 <==> r is None,
        r matches Some(d) ==> d@ == trimmed(description@),
{
    let d = trim(description);
    if d.as_str().is_empty() {
        None
    } else {
        Some(d)
    }
}

/// Refusal of a new vault whose name another vault already uses.
pub fn vault_name_taken(exists: bool) -> (r: Result<(), AppError>)
    ensures
        r is Err <==> exists,
        r matches Err(e) ==> is_bad_request(e, "a vault with that name already exists"@),
{
    if exists {
        Err(AppError::BadRequest(owned("a vault with that name already exists")))
    } else {
        Ok(())
    }
}


// ─────────────────────────────────────────────────────────────────────────────
// Network ACL columns (bare IPs in `acl_ips`, CIDRs in `acl_subnets`, each a
// JSON list of strings)
// ─────────────────────────────────────────────────────────────────────────────

/// Declares `serde_json::Error` so it can be carried through signatures.
#[verifier::external_type_specification]
#[verifier::external_body]
pub struct ExJsonError(serde_json::Error);

/// Whether `ipnet::IpNet::from_str` accepts the text.
pub uninterp spec fn cidr_text_valid(s: Seq<char>) -> bool;

/// Whether `core::net::IpAddr::from_str` (the std `IpAddr` parser) accepts the text.
pub uninterp spec fn ip_text_valid(s: Seq<char>) -> bool;

/// The JSON text `serde_json::to_string` writes for a list of strings.
pub uninterp spec fn json_list_text(v: Seq<Seq<char>>) -> Seq<char>;

/// The list of strings `serde_json::from_str::<Vec<String>>` reads, if any.
pub uninterp spec fn json_list_parse(s: Seq<char>) -> Option<Seq<Seq<char>>>;

/// `ipnet::IpNet::from_str(s).is_ok()`: the result is named `cidr_text_valid`.
#[verifier::external_body]
fn parses_as_cidr(s: &str) -> (b: bool)
    ensures
        b == cidr_text_valid(s@),
{
    s.parse::<ipnet::IpNet>().is_ok()
}

/// `core::net::IpAddr::from_str(s).is_ok()`: the result is named `ip_text_valid`.
#[verifier::external_body]
fn parses_as_ip(s: &str) -> (b: bool)
    ensures
        b == ip_text_valid(s@),
{
    s.parse::<core::net::IpAddr>().is_ok()
}

/// `serde_json::to_string` on a list of strings. The contract claims that it
/// succeeds (the docs name only a failing `Serialize` impl or non-string map
/// keys as causes, neither possible here), that the text is
/// `json_list_text` of the list, and that `serde_json::from_str` reads the
/// same list back from it.
#[verifier::external_body]
fn json_of_list(v: &Vec<String>) -> (r: Result<String, serde_json::Error>)
    ensures
        r is Ok,
        r matches Ok(s) ==> s@ == json_list_text(views(v@)),
        r matches Ok(s) ==> json_list_parse(s@) == Some(views(v@)),
{
    serde_json::to_string(v)
}

/// `serde_json::from_str::<Vec<String>>`: the result is named
/// `json_list_parse`; the contract also claims that the text `[]` reads as
/// the empty list.
#[verifier::external_body]
fn list_of_json(s: &str) -> (r: Result<Vec<String>, serde_json::Error>)
    ensures
        r matches Ok(v) ==> json_list_parse(s@) == Some(views(v@)),
        r is Err ==> json_list_parse(s@) is None,
        r is Err ==> s@ != "[]"@,
        r matches Ok(v) ==> (s@ == "[]"@ ==> v@.len() == 0),
{
    serde_json::from_str::<Vec<String>>(s)
}

/// Sorting a list of ACL entries: each is trimmed, blank entries are skipped,
/// entries with a `/` must be CIDRs and go to the second list, the others must
/// be IP addresses and go to the first. The first invalid entry is reported.
pub open spec fn acl_split(entries: Seq<Seq<char>>) -> Result<(Seq<Seq<char>>, Seq<Seq<char>>), Seq<char>>
    decreases entries.len(),
{
    if entries.len() == 0 {
        Ok((Seq::empty(), Seq::empty()))
    } else {
        match acl_split(entries.drop_last()) {
            Err(m) => Err(m),
            Ok((ips, subnets)) => {
                let e = trimmed(entries.last());
                if e.len() == 0 {
                    Ok((ips, subnets))
                } else if e.contains('/') {
                    if cidr_text_valid(e) {
                        Ok((ips, subnets.push(e)))
                    } else {
                        Err("invalid CIDR: "@ + e)
                    }
                } else if ip_text_valid(e) {
                    Ok((ips.push(e), subnets))
                } else {
                    Err("invalid IP: "@ + e)
                }
            },
        }
    }
}

proof fn lemma_acl_split_err_sticky(s: Seq<Seq<char>>, k: int)
    requires
        0 <= k <= s.len(),
        acl_split(s.take(k)) is Err,
    ensures
        acl_split(s) == acl_split(s.take(k)),
    decreases s.len() - k,
{
    if k < s.len() {
        assert(s.take(k + 1).drop_last() =~= s.take(k));
        lemma_acl_split_err_sticky(s, k + 1);
    } else {
        assert(s.take(k) =~= s);
    }
}

/// Sort ACL entries into bare IPs and CIDRs (see `acl_split`).
pub fn split_acl(entries: &Vec<String>) -> (r: Result<(Vec<String>, Vec<String>), AppError>)
    ensures
        r is Ok <==> acl_split(views(entries@)) is Ok,
        r matches Ok((ips, subnets)) ==> acl_split(views(entries@)) == Ok::<_, Seq<char>>((views(ips@), views(subnets@))),
        r matches Err(e) ==> (acl_split(views(entries@)) matches Err(m) && is_bad_request(e, m)),
{
    let ghost all = views(entries@);
    let mut ips: Vec<String> = Vec::new();
    let mut subnets: Vec<String> = Vec::new();
    let mut i: usize = 0;
    assert(all.take(0) =~= Seq::<Seq<char>>::empty());
    assert(views(ips@) =~= Seq::<Seq<char>>::empty());
    assert(views(subnets@) =~= Seq::<Seq<char>>::empty());
    while i < entries.len()
        invariant
            all == views(entries@),
            i <= entries.len(),
            acl_split(all.take(i as int)) == Ok::<_, Seq<char>>((views(ips@), views(subnets@))),
        decreases entries.len() - i,
    {
        let ghost t = all.take(i + 1);
        assert(t.drop_last() =~= all.take(i as int));
        assert(t.last() == entries@[i as int]@);
        let e = trim(entries[i].as_str());
        if e.as_str().is_empty() {
        } else if contains_char(e.as_str(), '/') {
            if parses_as_cidr(e.as_str()) {
                let ghost before = views(subnets@);
                subnets.push(e);
                assert(views(subnets@) =~= before.push(trimmed(t.last())));
            } else {
                let msg = concat("invalid CIDR: ", e.as_str());
                proof { lemma_acl_split_err_sticky(all, i + 1); }
                return Err(AppError::BadRequest(msg));
            }
        } else if parses_as_ip(e.as_str()) {
            let ghost before = views(ips@);
            ips.push(e);
            assert(views(ips@) =~= before.push(trimmed(t.last())));
        } else {
            let msg = concat("invalid IP: ", e.as_str());
            proof { lemma_acl_split_err_sticky(all, i + 1); }
            return Err(AppError::BadRequest(msg));
        }
        i = i + 1;
    }
    assert(all.take(entries.len() as int) =~= all);
    Ok((ips, subnets))
}

/// A stored JSON list column, read leniently: unreadable text is no entries.
pub open spec fn json_list_or_empty(s: Seq<char>) -> Seq<Seq<char>> {
    match json_list_parse(s) {
        Some(v) => v,
        None => Seq::empty(),
    }
}

/// The combined ACL a vault row's two columns describe: the IP list, then the
/// CIDR list.
pub open spec fn acl_entries_of(ips_json: Seq<char>, subnets_json: Seq<char>) -> Seq<Seq<char>> {
    json_list_or_empty(ips_json) + json_list_or_empty(subnets_json)
}

fn list_or_empty(s: &str) -> (v: Vec<String>)
    ensures
        views(v@) == json_list_or_empty(s@),
        s@ == "[]"@ ==> views(v@) == Seq::<Seq<char>>::empty(),
{
    match list_of_json(s) {
        Ok(v) => {
            assert(s@ == "[]"@ ==> views(v@) =~= Seq::<Seq<char>>::empty());
            v
        },
        Err(_) => {
            let v: Vec<String> = Vec::new();
            assert(views(v@) =~= Seq::<Seq<char>>::empty());
            v
        },
    }
}

/// A vault's network ACL from its `(acl_ips, acl_subnets)` columns; a missing
/// row reads as two empty lists.
pub fn acl_from_columns(row: Option<(String, String)>) -> (r: Vec<String>)
    ensures
        views(r@) == match row {
            Some((a, b)) => acl_entries_of(a@, b@),
            None => Seq::empty(),
        },
{
    let (a, b) = match row {
        Some(pair) => pair,
        None => (owned("[]"), owned("[]")),
    };
    let mut entries = list_or_empty(a.as_str());
    let subnets = list_or_empty(b.as_str());
    let ghost e0 = views(entries@);
    let mut i: usize = 0;
    while i < subnets.len()
        invariant
            i <= subnets.len(),
            views(entries@) == e0 + views(subnets@).take(i as int),
        decreases subnets.len() - i,
    {
        let ghost before = views(entries@);
        let x = subnets[i].clone();
        entries.push(x);
        assert(views(entries@) =~= before.push(subnets@[i as int]@));
        assert(views(subnets@).take(i + 1) =~= views(subnets@).take(i as int).push(subnets@[i as int]@));
        assert(views(entries@) =~= e0 + views(subnets@).take(i + 1));
        i = i + 1;
    }
    assert(views(subnets@).take(subnets.len() as int) =~= views(subnets@));
    entries
}

/// The `(acl_ips, acl_subnets)` column values that store a vault's network
/// ACL, or the error for the first invalid entry. Reading the columns back
/// gives the trimmed, non-blank entries, bare IPs first, then CIDRs.
pub fn acl_columns(entries: &Vec<String>) -> (r: Result<(String, String), AppError>)
    ensures
        r is Ok <==> acl_split(views(entries@)) is Ok,
        r matches Ok((a, b)) ==> (acl_split(views(entries@)) matches Ok((ips, subnets)) && a@
            == json_list_text(ips) && b@ == json_list_text(subnets) && acl_entries_of(a@, b@) == ips
            + subnets),
        r matches Err(e) ==> (acl_split(views(entries@)) matches Err(m) && is_bad_request(e, m)),
{
    let (ips, subnets) = split_acl(entries)?;
    let a = match json_of_list(&ips) {
        Ok(s) => s,
        Err(_) => owned("[]"),
    };
    let b = match json_of_list(&subnets) {
        Ok(s) => s,
        Err(_) => owned("[]"),
    };
    Ok((a, b))
}


// ─────────────────────────────────────────────────────────────────────────────
// Shape checks on stored key material
// ─────────────────────────────────────────────────────────────────────────────

/// A 32-byte key copied out of a slice of exactly that length.
pub(crate) fn key_array(b: &[u8]) -> (a: [u8; 32])
    requires
        b@.len() == 32,
    ensures
        a@ == b@,
{
    let mut a = [0u8; 32];
    let mut i: usize = 0;
    while i < 32
        invariant
            b@.len() == 32,
            i <= 32,
            forall|j: int| 0 <= j < i ==> a@[j] == b@[j],
        decreases 32 - i,
    {
        a[i] = b[i];
        i = i + 1;
    }
    assert(a@ =~= b@);
    a
}

/// A nonce copied out of a slice of exactly `NONCE_LEN` bytes.
fn nonce_array(b: &[u8]) -> (a: [u8; 12])
    requires
        b@.len() == NONCE_LEN,
    ensures
        a@ == b@,
{
    let mut a = [0u8; 12];
    let mut i: usize = 0;
    while i < 12
        invariant
            b@.len() == 12,
            i <= 12,
            forall|j: int| 0 <= j < i ==> a@[j] == b@[j],
        decreases 12 - i,
    {
        a[i] = b[i];
        i = i + 1;
    }
    assert(a@ =~= b@);
    a
}

/// A stored 32-byte key, or `Internal(what)` when it has another length.
pub fn stored_key(b: &[u8], what: &str) -> (r: Result<[u8; 32], AppError>)
    ensures
        r is Ok <==> b@.len() == KEY_LEN,
        r matches Ok(k) ==> k@ == b@,
        r matches Err(e) ==> is_internal(e, what@),
{
    if b.len() != KEY_LEN {
        Err(AppError::Internal(owned(what)))
    } else {
        Ok(key_array(b))
    }
}

/// A stored nonce, or `Internal(what)` when it has another length.
pub fn stored_nonce(b: &[u8], what: &str) -> (r: Result<[u8; 12], AppError>)
    ensures
        r is Ok <==> b@.len() == NONCE_LEN,
        r matches Ok(n) ==> n@ == b@,
        r matches Err(e) ==> is_internal(e, what@),
{
    if b.len() != NONCE_LEN {
        Err(AppError::Internal(owned(what)))
    } else {
        Ok(nonce_array(b))
    }
}

/// A member's wrapped-key row: its nonce and the granter's ephemeral public
/// key, both of the expected lengths, or the corruption error.
pub fn member_key_material(nonce: &[u8], granter_public: &[u8]) -> (r: Result<([u8; 12], [u8; 32]), AppError>)
    ensures
        r is Ok <==> (nonce@.len() == NONCE_LEN && granter_public@.len() == KEY_LEN),
        r matches Ok((n, g)) ==> n@ == nonce@ && g@ == granter_public@,
        r matches Err(e) ==> is_internal(e, "corrupt vault key material"@),
{
    if nonce.len() != NONCE_LEN || granter_public.len() != KEY_LEN {
        return Err(AppError::Internal(owned("corrupt vault key material")));
    }
    Ok((nonce_array(nonce), key_array(granter_public)))
}

/// A vault's master-key escrow `(ciphertext, nonce)`: a missing vault is
/// `NotFound`, a vault without both columns or with a bad nonce is an
/// internal error.
pub fn escrow_material(row: Option<(Option<Vec<u8>>, Option<Vec<u8>>)>) -> (r: Result<(Vec<u8>, [u8; 12]), AppError>)
    ensures
        row is None <==> r matches Err(AppError::NotFound),
        r is Ok <==> (row matches Some((Some(_), Some(n))) && n@.len() == NONCE_LEN),
        r matches Ok((enc, nonce)) ==> (row matches Some((Some(e), Some(n))) && enc@ == e@ && nonce@ == n@),
        row matches Some((ec, nc)) ==> ((ec is None || nc is None) <==> (r matches Err(e) && is_internal(e, "vault has no master escrow"@))),
        row matches Some((Some(_), Some(n))) ==> (n@.len() != NONCE_LEN <==> (r matches Err(e) && is_internal(e, "corrupt escrow nonce"@))),
{
    let (enc, nonce_vec) = match row {
        None => return Err(AppError::NotFound),
        Some(pair) => pair,
    };
    let (enc, nonce_vec) = match (enc, nonce_vec) {
        (Some(e), Some(n)) => (e, n),
        _ => return Err(AppError::Internal(owned("vault has no master escrow"))),
    };
    if nonce_vec.len() != NONCE_LEN {
        proof {
            reveal_strlit("vault has no master escrow");
            reveal_strlit("corrupt escrow nonce");
            assert("vault has no master escrow"@.len() != "corrupt escrow nonce"@.len());
        }
        return Err(AppError::Internal(owned("corrupt escrow nonce")));
    }
    let nonce = nonce_array(nonce_vec.as_slice());
    Ok((enc, nonce))
}

/// The result of unwrapping a vault key: the decrypted plaintext, which must
/// be exactly 32 bytes, or an internal error.
pub fn unwrapped_key(decrypted: Option<Vec<u8>>) -> (r: Result<[u8; 32], AppError>)
    ensures
        r is Ok <==> (decrypted matches Some(p) && p@.len() == KEY_LEN),
        r matches Ok(k) ==> (decrypted matches Some(p) && k@ == p@),
        decrypted is None ==> (r matches Err(e) && is_internal(e, "failed to unwrap vault key"@)),
        (decrypted matches Some(p) && p@.len() != KEY_LEN) ==> (r matches Err(e) && is_internal(e, "corrupt vault key"@)),
{
    match decrypted {
        None => Err(AppError::Internal(owned("failed to unwrap vault key"))),
        Some(plain) => stored_key(plain.as_slice(), "corrupt vault key"),
    }
}

/// The nonce of a blob re-encrypted during key rotation, or the internal
/// error for one of the wrong length.
pub fn blob_nonce(nonce_vec: &[u8]) -> (r: Result<[u8; 12], AppError>)
    ensures
        r is Ok <==> nonce_vec@.len() == NONCE_LEN,
        r matches Ok(n) ==> n@ == nonce_vec@,
        r matches Err(e) ==> is_internal(e, "corrupt nonce"@),
{
    stored_nonce(nonce_vec, "corrupt nonce")
}

/// The plaintext of a blob decrypted during key rotation, or the internal
/// error when decryption failed.
pub fn blob_plaintext(decrypted: Option<Vec<u8>>) -> (r: Result<Vec<u8>, AppError>)
    ensures
        match decrypted {
            Some(p) => r matches Ok(q) && q@ == p@,
            None => r matches Err(e) && is_internal(e, "rotation decrypt failed"@),
        },
{
    match decrypted {
        Some(p) => Ok(p),
        None => Err(AppError::Internal(owned("rotation decrypt failed"))),
    }
}

// ─────────────────────────────────────────────────────────────────────────────
// Assignment
// ─────────────────────────────────────────────────────────────────────────────

/// The user an assignment names, as the user store returns it.
#[derive(Debug, Clone)]
pub struct AssignTarget {
    pub id: String,
    pub username: String,
    pub is_master: bool,
    pub public_key: Vec<u8>,
}

/// What assigning `role` to a looked-up user does.
#[derive(Debug, PartialEq, Eq, Structural)]
pub enum AssignStep {
    /// The user is already a member: only the stored role changes.
    UpdateRole,
    /// The user is not a member yet: the vault key is wrapped for them.
    Grant,
}

/// Decide an assignment: an unknown user or the master user is refused; an
/// existing member only gets the new role; anyone else gets a wrapped key.
pub fn assign_step(target: &Option<AssignTarget>, existing: Option<Role>) -> (r: Result<AssignStep, AppError>)
    ensures
        target is None ==> (r matches Err(e) && is_bad_request(e, "no such user"@)),
        target matches Some(t) ==> (t.is_master <==> (r matches Err(e) && is_bad_request(e, "the master user cannot be a vault member"@))),
        (target matches Some(t) && !t.is_master) ==> r == if existing is Some {
            Ok::<AssignStep, AppError>(AssignStep::UpdateRole)
        } else {
            Ok::<AssignStep, AppError>(AssignStep::Grant)
        },
{
    match target {
        None => Err(AppError::BadRequest(owned("no such user"))),
        Some(t) => {
            if t.is_master {
                return Err(AppError::BadRequest(owned("the master user cannot be a vault member")));
            }
            if existing.is_some() {
                Ok(AssignStep::UpdateRole)
            } else {
                Ok(AssignStep::Grant)
            }
        },
    }
}

} // verus!
