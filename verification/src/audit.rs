//! Audit log rows with per-row HMAC tamper detection, and the audit-log
//! retention setting.
//!
//! Each row carries an HMAC-SHA256 over its canonical field string, keyed by a
//! value derived from the master key, so a row edited at rest no longer
//! verifies. Secret values are never part of a row.
use vstd::prelude::*;

use crate::clock::{MAX_DELTA_SECS, MAX_UTC_SECS, MIN_UTC_SECS, now_rfc3339, rfc3339_at, rfc3339_text_of, rfc3339_utc_text, clock_now};

use crate::text::{
    hex_lower, i64_text, int_text, is_digit, is_lower_hex, lemma_i64_text_round_trip, lemma_int_text_chars,
    lemma_int_text_injective, owned, parse_i64, parse_i64_spec, push_i64, to_hex_lower,
};

verus! {

broadcast use vstd::string::group_string_axioms;

/// Settings key for the audit-log retention window, in days (0 = keep forever).
pub const RETENTION_KEY: &'static str = "audit_retention_days";

/// Domain-separation prefix of the audit HMAC key derivation.
pub const AUDIT_KEY_DOMAIN: &'static str = "easyvault-audit-hmac-v1";

/// A single audit event to record (borrowed fields, no secret values).
pub struct AuditEntry<'a> {
    pub operation: &'a str,
    pub vault_id: Option<&'a str>,
    pub path: Option<&'a str>,
    pub actor_type: &'a str,
    pub actor_hash: Option<&'a str>,
    pub source_ip: Option<&'a str>,
    pub response_code: i64,
}

/// An audit row as stored and read back for the viewer (incl. its HMAC).
#[derive(Debug, Clone)]
pub struct AuditRow {
    pub request_id: String,
    pub timestamp: String,
    pub operation: String,
    pub vault_id: Option<String>,
    pub path: Option<String>,
    pub actor_type: String,
    pub actor_hash: Option<String>,
    pub source_ip: Option<String>,
    pub response_code: Option<i64>,
    pub hmac: String,
}

// ─────────────────────────────────────────────────────────────────────────────
// Hash primitives
// ─────────────────────────────────────────────────────────────────────────────

/// SHA-256 of a byte string, as `sha2::Sha256` computes it.
pub uninterp spec fn sha256_of(data: Seq<u8>) -> Seq<u8>;

/// HMAC-SHA256 tag, as `hmac::Hmac<sha2::Sha256>` computes it.
pub uninterp spec fn hmac_sha256_of(key: Seq<u8>, data: Seq<u8>) -> Seq<u8>;

/// `sha2::Sha256::digest`: the digest is named `sha256_of`.
#[verifier::external_body]
fn sha256(data: &[u8]) -> (d: [u8; 32])
    ensures
        d@ == sha256_of(data@),
{
    <sha2::Sha256 as sha2::Digest>::digest(data).into()
}

/// `hmac::Hmac::<sha2::Sha256>` over `data` with `key`: the tag is named
/// `hmac_sha256_of`. `new_from_slice` accepts keys of every length for HMAC
/// (its implementation always returns `Ok`), so the `expect` never fires.
#[verifier::external_body]
fn hmac_sha256(key: &[u8], data: &[u8]) -> (t: [u8; 32])
    ensures
        t@ == hmac_sha256_of(key@, data@),
{
    let mut mac = <hmac::Hmac<sha2::Sha256> as hmac::Mac>::new_from_slice(key).expect("hmac accepts any key length");
    hmac::Mac::update(&mut mac, data);
    hmac::Mac::finalize(mac).into_bytes().into()
}

/// The hyphenated lowercase text of a UUID: 36 characters, `-` at positions
/// 8, 13, 18 and 23, lowercase hex digits elsewhere.
pub open spec fn uuid_text(s: Seq<char>) -> bool {
    &&& s.len() == 36
    &&& forall|i: int|
        0 <= i < 36 ==> if i == 8 || i == 13 || i == 18 || i == 23 {
            #[trigger] s[i] == '-'
        } else {
            is_lower_hex(s[i])
        }
}

/// The hyphenated lowercase text `uuid` writes for the version-4 UUID made
/// from the 16 random bytes `bytes`.
pub uninterp spec fn uuid_v4_text_of(bytes: Seq<u8>) -> Seq<char>;

/// `getrandom::fill` on 16 bytes: the bytes, or none when the operating
/// system's random source fails. Nothing is stated of the bytes: they are
/// random.
#[verifier::external_body]
fn random_16() -> (r: Option<[u8; 16]>) {
    let mut b = [0u8; 16];
    match getrandom::fill(&mut b) {
        Ok(()) => Some(b),
        Err(_) => None,
    }
}

/// `uuid::Builder::from_random_bytes(bytes).into_uuid()` written with
/// `Display`: the text is named, and it is always the hyphenated lowercase
/// form.
#[verifier::external_body]
fn uuid_v4_text(bytes: [u8; 16]) -> (r: String)
    ensures
        r@ == uuid_v4_text_of(bytes@),
        uuid_text(r@),
{
    uuid::Builder::from_random_bytes(bytes).into_uuid().to_string()
}

/// A fresh random request id (a version-4 UUID in hyphenated lowercase
/// text); none when the random source fails.
pub fn new_request_id() -> (r: Option<String>)
    ensures
        r matches Some(id) ==> uuid_text(id@),
{
    match random_16() {
        Some(b) => Some(uuid_v4_text(b)),
        None => None,
    }
}

// ─────────────────────────────────────────────────────────────────────────────
// Key derivation, canonical form, tag
// ─────────────────────────────────────────────────────────────────────────────

/// The audit HMAC key: SHA-256 over the domain prefix followed by the master key.
pub open spec fn audit_key_of(master_key: Seq<u8>) -> Seq<u8> {
    sha256_of(vstd::utf8::encode_utf8(AUDIT_KEY_DOMAIN@) + master_key)
}

/// Derive the audit HMAC key from the master key via a domain-separated SHA-256.
pub fn audit_key(master_key: &[u8; 32]) -> (k: [u8; 32])
    ensures
        k@ == audit_key_of(master_key@),
{
    let mut buf: Vec<u8> = Vec::new();
    let d = AUDIT_KEY_DOMAIN.as_bytes();
    let mut i: usize = 0;
    while i < d.len()
        invariant
            d@ == vstd::utf8::encode_utf8(AUDIT_KEY_DOMAIN@),
            i <= d.len(),
            buf@ == d@.take(i as int),
        decreases d.len() - i,
    {
        buf.push(d[i]);
        i = i + 1;
        assert(buf@ =~= d@.take(i as int));
    }
    let mut j: usize = 0;
    while j < 32
        invariant
            d@ == vstd::utf8::encode_utf8(AUDIT_KEY_DOMAIN@),
            i == d.len(),
            j <= 32,
            buf@ == d@ + master_key@.take(j as int),
        decreases 32 - j,
    {
        buf.push(master_key[j]);
        j = j + 1;
        assert(buf@ =~= d@ + master_key@.take(j as int));
    }
    assert(d@.take(d.len() as int) =~= d@);
    assert(master_key@.take(32) =~= master_key@);
    sha256(buf.as_slice())
}

/// An optional field's text; absent fields read as empty.
pub open spec fn opt_text(o: Option<Seq<char>>) -> Seq<char> {
    match o {
        Some(s) => s,
        None => Seq::empty(),
    }
}

/// The view of an optional string slice.
pub open spec fn opt_view(o: Option<&str>) -> Option<Seq<char>> {
    match o {
        Some(s) => Some(s@),
        None => None,
    }
}

/// The view of an optional owned string.
pub open spec fn opt_string_view(o: Option<String>) -> Option<Seq<char>> {
    match o {
        Some(s) => Some(s@),
        None => None,
    }
}

/// `p`, a `|`, then `x`.
pub open spec fn bar(p: Seq<char>, x: Seq<char>) -> Seq<char> {
    p + "|"@ + x
}

/// The stable field string the HMAC is computed over: the nine fields joined
/// by `|`, absent optional fields empty, the response code in decimal.
pub open spec fn canonical_text(
    request_id: Seq<char>,
    timestamp: Seq<char>,
    operation: Seq<char>,
    vault_id: Option<Seq<char>>,
    path: Option<Seq<char>>,
    actor_type: Seq<char>,
    actor_hash: Option<Seq<char>>,
    source_ip: Option<Seq<char>>,
    response_code: int,
) -> Seq<char> {
    bar(
        bar(
            bar(
                bar(
                    bar(bar(bar(bar(request_id, timestamp), operation), opt_text(vault_id)), opt_text(path)),
                    actor_type,
                ),
                opt_text(actor_hash),
            ),
            opt_text(source_ip),
        ),
        int_text(response_code),
    )
}

fn push_bar(out: &mut String, x: &str)
    ensures
        final(out)@ == bar(old(out)@, x@),
{
    out.append("|");
    out.append(x);
}

fn opt_str<'a>(o: Option<&'a str>) -> (s: &'a str)
    ensures
        s@ == opt_text(opt_view(o)),
{
    proof { reveal_strlit(""); }
    match o {
        Some(s) => s,
        None => "",
    }
}

/// Build the stable field string that the HMAC is computed over.
pub fn canonical(
    request_id: &str,
    timestamp: &str,
    operation: &str,
    vault_id: Option<&str>,
    path: Option<&str>,
    actor_type: &str,
    actor_hash: Option<&str>,
    source_ip: Option<&str>,
    response_code: i64,
) -> (s: String)
    ensures
        s@ == canonical_text(
            request_id@,
            timestamp@,
            operation@,
            opt_view(vault_id),
            opt_view(path),
            actor_type@,
            opt_view(actor_hash),
            opt_view(source_ip),
            response_code as int,
        ),
{
    proof { reveal_strlit(""); }
    let mut s = owned(request_id);
    push_bar(&mut s, timestamp);
    push_bar(&mut s, operation);
    push_bar(&mut s, opt_str(vault_id));
    push_bar(&mut s, opt_str(path));
    push_bar(&mut s, actor_type);
    push_bar(&mut s, opt_str(actor_hash));
    push_bar(&mut s, opt_str(source_ip));
    s.append("|");
    push_i64(&mut s, response_code);
    s
}

/// The lowercase-hex HMAC of `data` under the audit key of `master_key`.
pub open spec fn hmac_hex_of(master_key: Seq<u8>, data: Seq<char>) -> Seq<char> {
    hex_lower(hmac_sha256_of(audit_key_of(master_key), vstd::utf8::encode_utf8(data)))
}

/// Compute the lowercase-hex HMAC-SHA256 of `data` under the audit key.
pub fn hmac_hex(master_key: &[u8; 32], data: &str) -> (s: String)
    ensures
        s@ == hmac_hex_of(master_key@, data@),
        s@.len() == 64,
        forall|i: int| 0 <= i < s@.len() ==> is_lower_hex(#[trigger] s@[i]),
{
    let key = audit_key(master_key);
    let tag = hmac_sha256(&key, data.as_bytes());
    to_hex_lower(&tag)
}

/// The canonical string of a stored row (a missing response code reads as 0).
pub open spec fn row_canonical(row: AuditRow) -> Seq<char> {
    canonical_text(
        row.request_id@,
        row.timestamp@,
        row.operation@,
        opt_string_view(row.vault_id),
        opt_string_view(row.path),
        row.actor_type@,
        opt_string_view(row.actor_hash),
        opt_string_view(row.source_ip),
        match row.response_code {
            Some(c) => c as int,
            None => 0,
        },
    )
}

/// A stored row's HMAC matches the one recomputed from its fields.
pub open spec fn row_verifies(master_key: Seq<u8>, row: AuditRow) -> bool {
    hmac_hex_of(master_key, row_canonical(row)) == row.hmac@
}

fn opt_as_str(o: &Option<String>) -> (r: Option<&str>)
    ensures
        opt_view(r) == opt_string_view(*o),
{
    match o {
        Some(s) => Some(s.as_str()),
        None => None,
    }
}

/// Recompute a row's HMAC and compare it to the stored value (tamper check).
pub fn verify_row(master_key: &[u8; 32], row: &AuditRow) -> (ok: bool)
    ensures
        ok == row_verifies(master_key@, *row),
{
    let code = match row.response_code {
        Some(c) => c,
        None => 0,
    };
    let canon = canonical(
        row.request_id.as_str(),
        row.timestamp.as_str(),
        row.operation.as_str(),
        opt_as_str(&row.vault_id),
        opt_as_str(&row.path),
        row.actor_type.as_str(),
        opt_as_str(&row.actor_hash),
        opt_as_str(&row.source_ip),
        code,
    );
    let tag = hmac_hex(master_key, canon.as_str());
    tag == row.hmac
}

fn opt_owned(o: Option<&str>) -> (r: Option<String>)
    ensures
        opt_string_view(r) == opt_view(o),
{
    match o {
        Some(s) => Some(owned(s)),
        None => None,
    }
}

/// The row that records `entry` under `request_id` at `timestamp`: the entry's
/// fields, and the HMAC of their canonical string under the audit key.
/// The row verifies under the same master key.
pub fn sign_audit_row(master_key: &[u8; 32], request_id: &str, timestamp: &str, entry: &AuditEntry) -> (row: AuditRow)
    ensures
        row.request_id@ == request_id@,
        row.timestamp@ == timestamp@,
        row.operation@ == entry.operation@,
        opt_string_view(row.vault_id) == opt_view(entry.vault_id),
        opt_string_view(row.path) == opt_view(entry.path),
        row.actor_type@ == entry.actor_type@,
        opt_string_view(row.actor_hash) == opt_view(entry.actor_hash),
        opt_string_view(row.source_ip) == opt_view(entry.source_ip),
        row.response_code == Some(entry.response_code),
        row.hmac@ == hmac_hex_of(
            master_key@,
            canonical_text(
                request_id@,
                timestamp@,
                entry.operation@,
                opt_view(entry.vault_id),
                opt_view(entry.path),
                entry.actor_type@,
                opt_view(entry.actor_hash),
                opt_view(entry.source_ip),
                entry.response_code as int,
            ),
        ),
        row_verifies(master_key@, row),
{
    let canon = canonical(
        request_id,
        timestamp,
        entry.operation,
        entry.vault_id,
        entry.path,
        entry.actor_type,
        entry.actor_hash,
        entry.source_ip,
        entry.response_code,
    );
    let hmac = hmac_hex(master_key, canon.as_str());
    AuditRow {
        request_id: owned(request_id),
        timestamp: owned(timestamp),
        operation: owned(entry.operation),
        vault_id: opt_owned(entry.vault_id),
        path: opt_owned(entry.path),
        actor_type: owned(entry.actor_type),
        actor_hash: opt_owned(entry.actor_hash),
        source_ip: opt_owned(entry.source_ip),
        response_code: Some(entry.response_code),
        hmac,
    }
}

/// The row that records `entry` now, under a fresh random request id (a
/// hyphenated UUID text) and the current time (an RFC 3339 UTC text). Its
/// fields are the entry's, and it verifies under the same master key, whatever
/// id and time it received. None when no random id or no current time could
/// be had (the random source failed, or the clock reads before the epoch).
pub fn new_audit_row(master_key: &[u8; 32], entry: &AuditEntry) -> (r: Option<AuditRow>)
    ensures
        r matches Some(row) ==> {
            &&& uuid_text(row.request_id@)
            &&& rfc3339_utc_text(row.timestamp@)
            &&& row.operation@ == entry.operation@
            &&& opt_string_view(row.vault_id) == opt_view(entry.vault_id)
            &&& opt_string_view(row.path) == opt_view(entry.path)
            &&& row.actor_type@ == entry.actor_type@
            &&& opt_string_view(row.actor_hash) == opt_view(entry.actor_hash)
            &&& opt_string_view(row.source_ip) == opt_view(entry.source_ip)
            &&& row.response_code == Some(entry.response_code)
            &&& row_verifies(master_key@, row)
        },
{
    let request_id = match new_request_id() {
        Some(id) => id,
        None => return None,
    };
    let timestamp = match now_rfc3339() {
        Some(t) => t,
        None => return None,
    };
    Some(sign_audit_row(master_key, request_id.as_str(), timestamp.as_str(), entry))
}

// ─────────────────────────────────────────────────────────────────────────────
// The canonical string identifies the fields
// ─────────────────────────────────────────────────────────────────────────────

/// The text contains no `|`.
pub open spec fn bar_free(s: Seq<char>) -> bool {
    !s.contains('|')
}

proof fn lemma_bar_split(p1: Seq<char>, x1: Seq<char>, p2: Seq<char>, x2: Seq<char>)
    requires
        bar(p1, x1) == bar(p2, x2),
        bar_free(x1),
        bar_free(x2),
    ensures
        p1 == p2,
        x1 == x2,
{
    reveal_strlit("|");
    let s = bar(p1, x1);
    let n = s.len();
    if x1.len() < x2.len() {
        let i = n - x1.len() - 1;
        assert(s[i] == '|');
        assert(s[i] == x2[x2.len() - x1.len() - 1]);
        assert(x2.contains('|'));
    } else if x2.len() < x1.len() {
        let i = n - x2.len() - 1;
        assert(s[i] == '|');
        assert(s[i] == x1[x1.len() - x2.len() - 1]);
        assert(x1.contains('|'));
    }
    assert(x1 =~= s.subrange(n - x1.len(), n as int));
    assert(x2 =~= s.subrange(n - x2.len(), n as int));
    assert(p1 =~= s.subrange(0, p1.len() as int));
    assert(p2 =~= s.subrange(0, p2.len() as int));
}

/// When no field text contains `|`, the canonical string determines every
/// field text and the response code: a row whose fields were changed at rest
/// has a different canonical string, so its stored HMAC is over other data.
pub proof fn lemma_canonical_identifies_fields(
    a: (Seq<char>, Seq<char>, Seq<char>, Seq<char>, Seq<char>, Seq<char>, Seq<char>, Seq<char>, int),
    b: (Seq<char>, Seq<char>, Seq<char>, Seq<char>, Seq<char>, Seq<char>, Seq<char>, Seq<char>, int),
)
    requires
        bar_free(a.0) && bar_free(a.1) && bar_free(a.2) && bar_free(a.3) && bar_free(a.4),
        bar_free(a.5) && bar_free(a.6) && bar_free(a.7),
        bar_free(b.0) && bar_free(b.1) && bar_free(b.2) && bar_free(b.3) && bar_free(b.4),
        bar_free(b.5) && bar_free(b.6) && bar_free(b.7),
        canonical_text(a.0, a.1, a.2, Some(a.3), Some(a.4), a.5, Some(a.6), Some(a.7), a.8)
            == canonical_text(b.0, b.1, b.2, Some(b.3), Some(b.4), b.5, Some(b.6), Some(b.7), b.8),
    ensures
        a == b,
{
    assert(!is_digit('|'));
    lemma_int_text_chars(a.8, '|');
    lemma_int_text_chars(b.8, '|');
    let a7 = bar(bar(bar(bar(bar(bar(bar(a.0, a.1), a.2), a.3), a.4), a.5), a.6), a.7);
    let b7 = bar(bar(bar(bar(bar(bar(bar(b.0, b.1), b.2), b.3), b.4), b.5), b.6), b.7);
    lemma_bar_split(a7, int_text(a.8), b7, int_text(b.8));
    lemma_int_text_injective(a.8, b.8);
    let a6 = bar(bar(bar(bar(bar(bar(a.0, a.1), a.2), a.3), a.4), a.5), a.6);
    let b6 = bar(bar(bar(bar(bar(bar(b.0, b.1), b.2), b.3), b.4), b.5), b.6);
    lemma_bar_split(a6, a.7, b6, b.7);
    let a5 = bar(bar(bar(bar(bar(a.0, a.1), a.2), a.3), a.4), a.5);
    let b5 = bar(bar(bar(bar(bar(b.0, b.1), b.2), b.3), b.4), b.5);
    lemma_bar_split(a5, a.6, b5, b.6);
    let a4 = bar(bar(bar(bar(a.0, a.1), a.2), a.3), a.4);
    let b4 = bar(bar(bar(bar(b.0, b.1), b.2), b.3), b.4);
    lemma_bar_split(a4, a.5, b4, b.5);
    let a3 = bar(bar(bar(a.0, a.1), a.2), a.3);
    let b3 = bar(bar(bar(b.0, b.1), b.2), b.3);
    lemma_bar_split(a3, a.4, b3, b.4);
    lemma_bar_split(bar(bar(a.0, a.1), a.2), a.3, bar(bar(b.0, b.1), b.2), b.3);
    lemma_bar_split(bar(a.0, a.1), a.2, bar(b.0, b.1), b.2);
    lemma_bar_split(a.0, a.1, b.0, b.1);
}

/// A row signed under a master key verifies under that key.
pub proof fn lemma_signed_row_verifies(master_key: Seq<u8>, row: AuditRow)
    requires
        row.response_code is Some,
        row.hmac@ == hmac_hex_of(master_key, row_canonical(row)),
    ensures
        row_verifies(master_key, row),
{
}

// ─────────────────────────────────────────────────────────────────────────────
// Retention setting
// ─────────────────────────────────────────────────────────────────────────────

/// The retention window (days) a stored setting value means: its integer
/// value, 0 when absent or unreadable, never negative.
pub open spec fn retention_of(stored: Option<Seq<char>>) -> int {
    let v = match stored {
        Some(s) => match parse_i64_spec(s) {
            Some(n) => n as int,
            None => 0,
        },
        None => 0,
    };
    if v < 0 { 0 } else { v }
}

/// The retention window (days) that a stored setting value means.
pub fn retention_days_from(stored: Option<&str>) -> (days: i64)
    ensures
        days == retention_of(opt_view(stored)),
{
    let v = match stored {
        Some(s) => match parse_i64(s) {
            Some(n) => n,
            None => 0,
        },
        None => 0,
    };
    if v < 0 { 0 } else { v }
}

/// The setting value that stores a retention window of `days` (negative
/// windows are stored as 0). Reading it back gives the clamped window.
pub fn retention_setting(days: i64) -> (s: String)
    ensures
        s@ == int_text(if days < 0 { 0 } else { days as int }),
        retention_of(Some(s@)) == if days < 0 { 0 } else { days as int },
{
    let d = if days < 0 { 0 } else { days };
    proof { lemma_i64_text_round_trip(d); }
    i64_text(d)
}

/// The seconds in a retention window of `days` days.
pub open spec fn window_secs(days: i64) -> int {
    days * 86_400
}

/// The prune cutoff at the instant `(secs, nanos)`: the RFC 3339 text of that
/// instant less `days` days; none when that falls before chrono's range.
pub fn cutoff_at(secs: i64, nanos: u32, days: i64) -> (r: Option<String>)
    requires
        0 <= secs <= MAX_UTC_SECS,
        nanos < 1_000_000_000,
        0 < days,
        window_secs(days) <= MAX_DELTA_SECS,
    ensures
        secs - window_secs(days) >= MIN_UTC_SECS ==> (r matches Some(s) && s@ == rfc3339_text_of(
            (secs - window_secs(days)) as i64,
            nanos,
        )),
        secs - window_secs(days) < MIN_UTC_SECS ==> r is None,
        r matches Some(s) ==> rfc3339_utc_text(s@),
{
    let from: i64 = secs - days * 86_400;
    if from < -8_334_601_228_800i64 {
        return None;
    }
    rfc3339_at(from, nanos)
}

/// `s` is the cutoff `days` days before the instant `(t, n)`: its RFC 3339
/// text, the instant being a clock reading chrono can hold.
pub open spec fn cutoff_from(s: Seq<char>, days: i64, t: int, n: u32) -> bool {
    &&& 0 <= t <= MAX_UTC_SECS
    &&& n < 1_000_000_000
    &&& t - window_secs(days) >= MIN_UTC_SECS
    &&& s == rfc3339_text_of((t - window_secs(days)) as i64, n)
}

/// `s` is the cutoff `days` days before some clock reading.
pub open spec fn cutoff_of(s: Seq<char>, days: i64) -> bool {
    exists|t: int, n: u32| #[trigger] cutoff_from(s, days, t, n)
}

/// The prune cutoff now: the current time less `days` days, as RFC 3339 UTC
/// text (stored timestamps have the same form, so older rows sort before
/// it); none when the clock reads before the epoch or beyond chrono's range.
pub fn prune_cutoff(days: i64) -> (r: Option<String>)
    requires
        0 < days,
        window_secs(days) <= MAX_DELTA_SECS,
    ensures
        r matches Some(s) ==> rfc3339_utc_text(s@),
        r matches Some(s) ==> cutoff_of(s@, days),
{
    match clock_now() {
        Some((secs, nanos)) => {
            let r = cutoff_at(secs, nanos, days);
            proof {
                if r is Some {
                    let t = secs as int;
                    assert(0 <= t <= MAX_UTC_SECS && nanos < 1_000_000_000 && t - window_secs(days) >= MIN_UTC_SECS);
                    assert(cutoff_from(r->0@, days, t, nanos));
                }
            }
            r
        },
        None => None,
    }
}

/// Whether a prune with this retention window removes anything at all
/// (0 keeps the log forever).
pub fn prune_enabled(days: i64) -> (b: bool)
    ensures
        b == (days > 0),
{
    days > 0
}

} // verus!
