//! The token-authenticated KV v2 API: reading the token header, the audit
//! entries for denied and completed requests, the write options, and the
//! directory listing under a path prefix.
use vstd::prelude::*;

use crate::audit::AuditEntry;
use crate::error::{AppError, is_bad_request, is_internal};
use crate::text::{chars_of, owned, trim, trimmed, views};
use crate::web::pages::SecretListing;

verus! {

broadcast use vstd::string::group_string_axioms;

/// Query flags for the metadata endpoint (`?list=true`).
#[derive(Default)]
pub struct MetadataQuery {
    pub list: bool,
}

/// Write options. `max_reads` makes the version single/N-use (burn after read).
pub struct WriteOptions {
    pub max_reads: Option<i64>,
}

/// The read limit a write asks for, if its options carry one.
pub fn max_reads_of(options: Option<WriteOptions>) -> (r: Option<i64>)
    ensures
        r == match options {
            Some(o) => o.max_reads,
            None => None,
        },
{
    match options {
        Some(o) => o.max_reads,
        None => None,
    }
}

/// The raw token of an `X-Vault-Token` header value: trimmed, and absent
/// when the header is missing or blank.
pub fn token_from_header(header: Option<&str>) -> (r: Option<String>)
    ensures
        match header {
            None => r is None,
            Some(h) => if trimmed(h@).len() == 0 {
                r is None
            } else {
                r matches Some(t) && t@ == trimmed(h@)
            },
        },
{
    match header {
        None => None,
        Some(h) => {
            let t = trim(h);
            if t.as_str().is_empty() {
                None
            } else {
                Some(t)
            }
        },
    }
}

/// A write needs the user who created the token: it becomes the secret's
/// author.
pub fn token_creator(created_by: Option<String>) -> (r: Result<String, AppError>)
    ensures
        match created_by {
            Some(c) => r matches Ok(s) && s@ == c@,
            None => r matches Err(e) && is_internal(e, "token has no owner"@),
        },
{
    match created_by {
        Some(c) => Ok(c),
        None => Err(AppError::Internal(owned("token has no owner"))),
    }
}

/// The audit entry for a refused request (403) with whatever token context
/// is known.
pub fn deny_entry<'a>(
    operation: &'a str,
    vault_id: Option<&'a str>,
    path: &'a str,
    actor: Option<&'a str>,
    ip: &'a str,
) -> (e: AuditEntry<'a>)
    ensures
        e.operation == operation,
        e.vault_id == vault_id,
        e.path == Some(path),
        e.actor_type@ == "api_token"@,
        e.actor_hash == actor,
        e.source_ip == Some(ip),
        e.response_code == 403,
{
    AuditEntry {
        operation,
        vault_id,
        path: Some(path),
        actor_type: "api_token",
        actor_hash: actor,
        source_ip: Some(ip),
        response_code: 403,
    }
}

/// The audit entry for a completed (or not-found) request against a token.
pub fn done_entry<'a>(
    operation: &'a str,
    vault_id: &'a str,
    path: &'a str,
    token_id: &'a str,
    ip: &'a str,
    code: i64,
) -> (e: AuditEntry<'a>)
    ensures
        e.operation == operation,
        e.vault_id == Some(vault_id),
        e.path == Some(path),
        e.actor_type@ == "api_token"@,
        e.actor_hash == Some(token_id),
        e.source_ip == Some(ip),
        e.response_code == code,
{
    AuditEntry {
        operation,
        vault_id: Some(vault_id),
        path: Some(path),
        actor_type: "api_token",
        actor_hash: Some(token_id),
        source_ip: Some(ip),
        response_code: code,
    }
}

// ─────────────────────────────────────────────────────────────────────────────
// Directory listing
// ─────────────────────────────────────────────────────────────────────────────

/// The metadata endpoint only lists.
pub fn check_list_flag(list: bool) -> (r: Result<(), AppError>)
    ensures
        list ==> r is Ok,
        !list ==> (r matches Err(e) && is_bad_request(e, "only ?list=true is supported on metadata"@)),
{
    if list {
        Ok(())
    } else {
        Err(AppError::BadRequest(owned("only ?list=true is supported on metadata")))
    }
}

/// `s` without its trailing slashes (as `trim_end_matches('/')`).
pub open spec fn without_trailing_slashes(s: Seq<char>) -> Seq<char>
    decreases s.len(),
{
    if s.len() > 0 && s.last() == '/' {
        without_trailing_slashes(s.drop_last())
    } else {
        s
    }
}

/// `path` lies under the directory `prefix`: every path does for the empty
/// prefix; otherwise the path is the prefix itself or starts with it and a
/// slash.
pub open spec fn under_prefix(path: Seq<char>, prefix: Seq<char>) -> bool {
    ||| prefix.len() == 0
    ||| path == prefix
    ||| (path.len() > prefix.len() && path.take(prefix.len() as int) == prefix && path[prefix.len() as int] == '/')
}

/// The paths among the first `n` listings that lie under `prefix`, in order.
pub open spec fn keys_under(items: Seq<SecretListing>, prefix: Seq<char>, n: int) -> Seq<Seq<char>>
    decreases n,
{
    if n <= 0 {
        Seq::empty()
    } else if under_prefix(items[n - 1].path@, prefix) {
        keys_under(items, prefix, n - 1).push(items[n - 1].path@)
    } else {
        keys_under(items, prefix, n - 1)
    }
}

/// `p` is the path of one of the first `n` listings.
pub open spec fn listed_path(items: Seq<SecretListing>, n: int, p: Seq<char>) -> bool {
    exists|j: int| 0 <= j < n && #[trigger] items[j].path@ == p
}

/// Every listed key lies under the prefix and is one of the listed paths,
/// and every listed path under the prefix is listed.
pub proof fn lemma_keys_under_prefix(items: Seq<SecretListing>, prefix: Seq<char>, n: int)
    requires
        0 <= n <= items.len(),
    ensures
        forall|i: int| 0 <= i < keys_under(items, prefix, n).len() ==> under_prefix(#[trigger] keys_under(items, prefix, n)[i], prefix),
        forall|i: int| 0 <= i < keys_under(items, prefix, n).len() ==> listed_path(items, n, #[trigger] keys_under(items, prefix, n)[i]),
        forall|j: int| 0 <= j < n && under_prefix(#[trigger] items[j].path@, prefix) ==> keys_under(items, prefix, n).contains(items[j].path@),
    decreases n,
{
    if n > 0 {
        lemma_keys_under_prefix(items, prefix, n - 1);
        let prev = keys_under(items, prefix, n - 1);
        let cur = keys_under(items, prefix, n);
        assert forall|i: int| 0 <= i < cur.len() implies listed_path(items, n, #[trigger] cur[i]) by {
            if i < prev.len() {
                assert(cur[i] == prev[i]);
                let j = choose|j: int| 0 <= j < n - 1 && #[trigger] items[j].path@ == prev[i];
                assert(items[j].path@ == cur[i]);
            } else {
                assert(items[n - 1].path@ == cur[i]);
            }
        }
        assert forall|j: int| 0 <= j < n && under_prefix(#[trigger] items[j].path@, prefix) implies cur.contains(items[j].path@) by {
            if j < n - 1 {
                let k = choose|k: int| 0 <= k < prev.len() && prev[k] == items[j].path@;
                assert(cur[k] == prev[k]);
            } else {
                assert(cur[cur.len() - 1] == items[j].path@);
            }
        }
    }
}

fn strip_trailing_slashes(path: &str) -> (r: Vec<char>)
    ensures
        r@ == without_trailing_slashes(path@),
{
    let mut v = chars_of(path);
    while v.len() > 0 && v[v.len() - 1] == '/'
        invariant
            without_trailing_slashes(v@) == without_trailing_slashes(path@),
        decreases v.len(),
    {
        let ghost before = v@;
        v.pop();
        assert(v@ =~= before.drop_last());
    }
    v
}

fn is_under(path: &str, prefix: &Vec<char>) -> (b: bool)
    ensures
        b == under_prefix(path@, prefix@),
{
    if prefix.len() == 0 {
        return true;
    }
    let p = chars_of(path);
    if p.len() < prefix.len() {
        proof {
            assert(path@ != prefix@ ==> true);
            if path@ == prefix@ {
                assert(false);
            }
        }
        return false;
    }
    let mut i: usize = 0;
    while i < prefix.len()
        invariant
            p@ == path@,
            p@.len() >= prefix@.len(),
            i <= prefix@.len(),
            forall|j: int| 0 <= j < i ==> p@[j] == prefix@[j],
        decreases prefix@.len() - i,
    {
        if p[i] != prefix[i] {
            proof {
                assert(path@.take(prefix@.len() as int)[i as int] != prefix@[i as int]);
                assert(path@ != prefix@);
                assert(path@.take(prefix@.len() as int) != prefix@);
            }
            return false;
        }
        i = i + 1;
    }
    assert(p@.take(prefix@.len() as int) =~= prefix@);
    if p.len() == prefix.len() {
        assert(p@ =~= prefix@);
        true
    } else {
        p[prefix.len()] == '/'
    }
}

/// Secret paths under `path` (trailing slashes ignored), in listing order.
pub fn metadata_keys(path: &str, listings: &[SecretListing]) -> (keys: Vec<String>)
    ensures
        views(keys@) == keys_under(listings@, without_trailing_slashes(path@), listings@.len() as int),
{
    let prefix = strip_trailing_slashes(path);
    let mut keys: Vec<String> = Vec::new();
    let mut i: usize = 0;
    while i < listings.len()
        invariant
            prefix@ == without_trailing_slashes(path@),
            i <= listings@.len(),
            views(keys@) == keys_under(listings@, prefix@, i as int),
        decreases listings@.len() - i,
    {
        let p = listings[i].path.as_str();
        if is_under(p, &prefix) {
            let ghost before = keys@;
            keys.push(owned(p));
            assert(views(keys@) =~= views(before).push(listings@[i as int].path@));
        }
        i = i + 1;
    }
    keys
}

} // verus!
