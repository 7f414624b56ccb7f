//! The init / unseal lifecycle: the checks before initialization, the
//! encoding of the shares handed out once, the progress that collects shares
//! until the threshold, the checks on the reconstructed key, and what the
//! status probes report.
use base64::Engine;
use vstd::prelude::*;

use crate::error::{AppError, is_bad_request, is_internal};
use crate::text::{owned, trim, trimmed};
use crate::vault::{KEY_LEN, NONCE_LEN, key_array, stored_nonce};

verus! {

broadcast use vstd::string::group_string_axioms;

/// Constant sealed under the master key at init; decrypting it back out at
/// unseal proves the reconstructed key is correct. Its UTF-8 bytes are what
/// is sealed.
pub const UNSEAL_VERIFICATION: &'static str = "easyvault-unseal-verification-v1";

/// The bytes sealed under the master key at init.
pub open spec fn verification_bytes() -> Seq<u8> {
    vstd::utf8::encode_utf8(UNSEAL_VERIFICATION@)
}

// ─────────────────────────────────────────────────────────────────────────────
// The stored init row
// ─────────────────────────────────────────────────────────────────────────────

/// Snapshot of the system_init row relevant to sealing.
pub struct InitRow {
    pub initialized: bool,
    pub sealed: bool,
    pub master_key_enc: Option<Vec<u8>>,
    pub master_key_nonce: Option<Vec<u8>>,
    pub key_shares: Option<i64>,
    pub key_threshold: Option<i64>,
}

/// The view of an optional byte vector.
pub open spec fn opt_bytes(o: Option<Vec<u8>>) -> Option<Seq<u8>> {
    match o {
        Some(v) => Some(v@),
        None => None,
    }
}

/// The init row read from the store; an absent row means "never
/// initialized" (and sealed).
pub fn init_row_of(
    row: Option<(bool, bool, Option<Vec<u8>>, Option<Vec<u8>>, Option<i64>, Option<i64>)>,
) -> (r: InitRow)
    ensures
        match row {
            Some((initialized, sealed, enc, nonce, shares, threshold)) => {
                &&& r.initialized == initialized
                &&& r.sealed == sealed
                &&& opt_bytes(r.master_key_enc) == opt_bytes(enc)
                &&& opt_bytes(r.master_key_nonce) == opt_bytes(nonce)
                &&& r.key_shares == shares
                &&& r.key_threshold == threshold
            },
            None => {
                &&& !r.initialized
                &&& r.sealed
                &&& r.master_key_enc is None
                &&& r.master_key_nonce is None
                &&& r.key_shares is None
                &&& r.key_threshold is None
            },
        },
{
    match row {
        Some((initialized, sealed, enc, nonce, shares, threshold)) => InitRow {
            initialized,
            sealed,
            master_key_enc: enc,
            master_key_nonce: nonce,
            key_shares: shares,
            key_threshold: threshold,
        },
        None => InitRow {
            initialized: false,
            sealed: true,
            master_key_enc: None,
            master_key_nonce: None,
            key_shares: None,
            key_threshold: None,
        },
    }
}

/// An optional count, zero when absent.
pub open spec fn or_zero(o: Option<i64>) -> i64 {
    match o {
        Some(v) => v,
        None => 0,
    }
}

// ─────────────────────────────────────────────────────────────────────────────
// Request and response bodies
// ─────────────────────────────────────────────────────────────────────────────

/// Request body for POST /v1/sys/init (all fields optional → config defaults).
#[derive(Default)]
pub struct InitRequest {
    pub secret_shares: Option<u8>,
    pub secret_threshold: Option<u8>,
}

/// Response body for POST /v1/sys/init — the shares are shown exactly once.
pub struct InitResponse {
    pub keys: Vec<String>,
    pub keys_base64: Vec<String>,
    pub shares: u8,
    pub threshold: u8,
}

/// Public snapshot of seal state, for the GUI and status handlers.
pub struct SealView {
    pub initialized: bool,
    pub sealed: bool,
    pub threshold: i64,
    pub shares: i64,
    pub progress: usize,
}

/// Request body for POST /v1/sys/unseal.
#[derive(Default)]
pub struct UnsealRequest {
    /// A single base64-encoded Shamir share.
    pub key: Option<String>,
    /// When true, discard any accumulated shares and report status.
    pub reset: bool,
}

/// Current initialization / seal / unseal-progress snapshot: missing counts
/// read as zero.
pub fn seal_view_of(row: &InitRow, sealed: bool, progress: usize) -> (v: SealView)
    ensures
        v.initialized == row.initialized,
        v.sealed == sealed,
        v.threshold == or_zero(row.key_threshold),
        v.shares == or_zero(row.key_shares),
        v.progress == progress,
{
    SealView {
        initialized: row.initialized,
        sealed,
        threshold: match row.key_threshold {
            Some(t) => t,
            None => 0,
        },
        shares: match row.key_shares {
            Some(n) => n,
            None => 0,
        },
        progress,
    }
}

/// Vault-style health status: 501 before initialization, 503 while sealed,
/// 200 when active.
pub fn health_status(initialized: bool, sealed: bool) -> (code: u16)
    ensures
        code == if !initialized {
            501u16
        } else if sealed {
            503u16
        } else {
            200u16
        },
{
    if !initialized {
        501
    } else if sealed {
        503
    } else {
        200
    }
}

// ─────────────────────────────────────────────────────────────────────────────
// Initialization
// ─────────────────────────────────────────────────────────────────────────────

/// The share and threshold counts of an init request, each falling back to
/// its configured default.
pub fn init_counts(req: &InitRequest, default_shares: u8, default_threshold: u8) -> (r: (u8, u8))
    ensures
        r.0 == match req.secret_shares {
            Some(n) => n,
            None => default_shares,
        },
        r.1 == match req.secret_threshold {
            Some(t) => t,
            None => default_threshold,
        },
{
    let shares = match req.secret_shares {
        Some(n) => n,
        None => default_shares,
    };
    let threshold = match req.secret_threshold {
        Some(t) => t,
        None => default_threshold,
    };
    (shares, threshold)
}

/// Initialization happens once, with `1 <= threshold <= shares`.
pub fn check_init(initialized: bool, shares: u8, threshold: u8) -> (r: Result<(), AppError>)
    ensures
        initialized ==> (r matches Err(e) && is_bad_request(e, "EasyVault is already initialized"@)),
        !initialized ==> (r is Ok <==> 1 <= threshold <= shares),
        (!initialized && r is Err) ==> (r matches Err(e) && is_bad_request(
            e,
            "secret_threshold must be between 1 and secret_shares"@,
        )),
{
    if initialized {
        return Err(AppError::BadRequest(owned("EasyVault is already initialized")));
    }
    if threshold == 0 || shares == 0 || threshold > shares {
        return Err(AppError::BadRequest(owned("secret_threshold must be between 1 and secret_shares")));
    }
    Ok(())
}

/// Standard padded base64 of a byte string, as the `base64` crate's
/// `STANDARD` engine encodes it.
pub uninterp spec fn base64_text(b: Seq<u8>) -> Seq<char>;

/// The bytes that standard padded base64 text decodes to, if it is valid.
pub uninterp spec fn base64_decoded(s: Seq<char>) -> Option<Seq<u8>>;

/// `STANDARD.encode` from the `base64` crate. The text is named; that the
/// same engine decodes it back to the input is stated (its documented round
/// trip). The crate panics when the encoded length overflows `usize`.
#[verifier::external_body]
fn b64_encode(b: &[u8]) -> (r: String)
    requires
        b@.len() / 3 * 4 + 4 <= usize::MAX,
    ensures
        r@ == base64_text(b@),
        base64_decoded(r@) == Some(b@),
{
    base64::engine::general_purpose::STANDARD.encode(b)
}

/// `STANDARD.decode` from the `base64` crate, with the error dropped. What it
/// decodes to is named, not stated.
#[verifier::external_body]
fn b64_decode(s: &str) -> (r: Option<Vec<u8>>)
    ensures
        match r {
            Some(v) => base64_decoded(s@) == Some(v@),
            None => base64_decoded(s@) is None,
        },
{
    base64::engine::general_purpose::STANDARD.decode(s).ok()
}

/// The views of a sequence of byte vectors.
pub open spec fn byte_views(v: Seq<Vec<u8>>) -> Seq<Seq<u8>> {
    v.map_values(|x: Vec<u8>| x@)
}

/// A share is short enough for its base64 text to fit in memory.
pub open spec fn encodable(b: Seq<u8>) -> bool {
    b.len() / 3 * 4 + 4 <= usize::MAX
}

/// The shares as handed out: each in standard base64, in order.
pub fn encode_shares(shares: &Vec<Vec<u8>>) -> (keys: Vec<String>)
    requires
        forall|i: int| 0 <= i < shares@.len() ==> encodable(#[trigger] shares@[i]@),
    ensures
        keys@.len() == shares@.len(),
        forall|i: int| 0 <= i < keys@.len() ==> #[trigger] keys@[i]@ == base64_text(shares@[i]@),
        forall|i: int| 0 <= i < keys@.len() ==> base64_decoded(#[trigger] keys@[i]@) == Some(shares@[i]@),
{
    let mut keys: Vec<String> = Vec::new();
    let mut i: usize = 0;
    while i < shares.len()
        invariant
            i <= shares@.len(),
            forall|j: int| 0 <= j < shares@.len() ==> encodable(#[trigger] shares@[j]@),
            keys@.len() == i,
            forall|j: int| 0 <= j < i ==> #[trigger] keys@[j]@ == base64_text(shares@[j]@),
            forall|j: int| 0 <= j < i ==> base64_decoded(#[trigger] keys@[j]@) == Some(shares@[j]@),
        decreases shares@.len() - i,
    {
        let k = b64_encode(shares[i].as_slice());
        keys.push(k);
        i = i + 1;
    }
    keys
}

/// The init response: the same shares under both keys, with the counts used.
pub fn init_response(keys: Vec<String>, shares: u8, threshold: u8) -> (r: InitResponse)
    ensures
        r.keys@.len() == keys@.len(),
        r.keys_base64@ == keys@,
        forall|i: int| 0 <= i < keys@.len() ==> #[trigger] r.keys@[i]@ == keys@[i]@,
        r.shares == shares,
        r.threshold == threshold,
{
    let mut copy: Vec<String> = Vec::new();
    let mut i: usize = 0;
    while i < keys.len()
        invariant
            i <= keys@.len(),
            copy@.len() == i,
            forall|j: int| 0 <= j < i ==> #[trigger] copy@[j]@ == keys@[j]@,
        decreases keys@.len() - i,
    {
        copy.push(owned(keys[i].as_str()));
        i = i + 1;
    }
    InitResponse { keys: copy, keys_base64: keys, shares, threshold }
}

// ─────────────────────────────────────────────────────────────────────────────
// Unsealing
// ─────────────────────────────────────────────────────────────────────────────

/// What an unseal request asks for, once its preconditions are checked.
pub enum UnsealAction {
    /// Discard the collected shares and report status.
    Reset,
    /// Already unsealed: report status.
    Status,
    /// Submit this share.
    Submit(String),
}

/// Decide an unseal request: nothing happens before initialization; a reset
/// always clears; an unsealed instance only reports; otherwise a share must
/// be present.
pub fn unseal_action(initialized: bool, sealed: bool, req: UnsealRequest) -> (r: Result<UnsealAction, AppError>)
    ensures
        !initialized ==> r matches Err(AppError::Uninitialized),
        initialized && req.reset ==> r matches Ok(UnsealAction::Reset),
        initialized && !req.reset && !sealed ==> r matches Ok(UnsealAction::Status),
        initialized && !req.reset && sealed ==> match req.key {
            Some(k) => r matches Ok(UnsealAction::Submit(k2)) && k2@ == k@,
            None => r matches Err(e) && is_bad_request(e, "missing 'key' share"@),
        },
{
    if !initialized {
        return Err(AppError::Uninitialized);
    }
    if req.reset {
        return Ok(UnsealAction::Reset);
    }
    if !sealed {
        return Ok(UnsealAction::Status);
    }
    match req.key {
        Some(k) => Ok(UnsealAction::Submit(k)),
        None => Err(AppError::BadRequest(owned("missing 'key' share"))),
    }
}

/// What one accepted share leads to.
pub enum ShareStep {
    /// The instance is not sealed: nothing to do.
    AlreadyUnsealed,
    /// Fewer shares than the threshold so far.
    Pending,
    /// The threshold is reached: combine the collected shares with this
    /// threshold.
    Combine(u8),
}

/// The unseal shares collected so far (in memory only, cleared on seal).
pub struct UnsealProgress {
    pub shares: Vec<Vec<u8>>,
}

/// The threshold an init row stores, as a share count.
pub open spec fn threshold_count(key_threshold: Option<i64>) -> usize {
    or_zero(key_threshold) as usize
}

impl UnsealProgress {
    /// No shares collected.
    pub fn new() -> (p: UnsealProgress)
        ensures
            p.shares@.len() == 0,
    {
        UnsealProgress { shares: Vec::new() }
    }

    /// Number of shares collected.
    pub fn len(&self) -> (n: usize)
        ensures
            n == self.shares@.len(),
    {
        self.shares.len()
    }

    /// Discard the collected shares (reset, seal, or a finished attempt).
    pub fn clear(&mut self)
        ensures
            final(self).shares@.len() == 0,
    {
        self.shares = Vec::new();
    }

    /// Record one base64 share. Refused before initialization, a no-op once
    /// unsealed, refused when not base64; otherwise the decoded share is
    /// collected, and reaching the threshold asks for reconstruction.
    pub fn submit(&mut self, initialized: bool, sealed: bool, key_b64: &str, key_threshold: Option<i64>) -> (r: Result<
        ShareStep,
        AppError,
    >)
        ensures
            !initialized ==> (r matches Err(AppError::Uninitialized) && byte_views(final(self).shares@) == byte_views(
                old(self).shares@,
            )),
            initialized && !sealed ==> (r matches Ok(ShareStep::AlreadyUnsealed) && byte_views(final(self).shares@)
                == byte_views(old(self).shares@)),
            initialized && sealed ==> match base64_decoded(trimmed(key_b64@)) {
                None => r matches Err(e) && is_bad_request(e, "share is not valid base64"@) && byte_views(
                    final(self).shares@,
                ) == byte_views(old(self).shares@),
                Some(d) => {
                    &&& byte_views(final(self).shares@) == byte_views(old(self).shares@).push(d)
                    &&& if final(self).shares@.len() < threshold_count(key_threshold) {
                        r matches Ok(ShareStep::Pending)
                    } else {
                        r matches Ok(ShareStep::Combine(t)) && t == threshold_count(key_threshold) as u8
                    }
                },
            },
    {
        if !initialized {
            return Err(AppError::Uninitialized);
        }
        if !sealed {
            return Ok(ShareStep::AlreadyUnsealed);
        }
        let t = trim(key_b64);
        let share = match b64_decode(t.as_str()) {
            Some(s) => s,
            None => return Err(AppError::BadRequest(owned("share is not valid base64"))),
        };
        let threshold: usize = match key_threshold {
            Some(v) => v as usize,
            None => 0,
        };
        let ghost before = self.shares@;
        self.shares.push(share);
        proof {
            assert(byte_views(self.shares@) =~= byte_views(before).push(share@));
        }
        if self.shares.len() < threshold {
            Ok(ShareStep::Pending)
        } else {
            Ok(ShareStep::Combine(threshold as u8))
        }
    }

    /// The outcome of combining the shares: a 32-byte key goes on to
    /// verification; anything else clears the shares and is refused.
    pub fn after_combine(&mut self, recovered: Option<Vec<u8>>) -> (r: Result<[u8; 32], AppError>)
        ensures
            match recovered {
                Some(k) => if k@.len() == KEY_LEN {
                    r matches Ok(a) && a@ == k@ && byte_views(final(self).shares@) == byte_views(old(self).shares@)
                } else {
                    r matches Err(e) && is_bad_request(e, "unseal failed: invalid shares"@) && final(self).shares@.len()
                        == 0
                },
                None => r matches Err(e) && is_bad_request(e, "unseal failed: invalid shares"@)
                    && final(self).shares@.len() == 0,
            },
    {
        match recovered {
            Some(k) => {
                if k.len() == KEY_LEN {
                    Ok(key_array(k.as_slice()))
                } else {
                    self.clear();
                    Err(AppError::BadRequest(owned("unseal failed: invalid shares")))
                }
            },
            None => {
                self.clear();
                Err(AppError::BadRequest(owned("unseal failed: invalid shares")))
            },
        }
    }

    /// The outcome of decrypting the verification ciphertext with the
    /// reconstructed key: the shares are cleared either way; only the sealed
    /// constant coming back out unseals.
    pub fn after_verify(&mut self, plain: Option<Vec<u8>>) -> (r: Result<(), AppError>)
        ensures
            final(self).shares@.len() == 0,
            r is Ok <==> (plain matches Some(p) && p@ == verification_bytes()),
            r is Err ==> (r matches Err(e) && is_bad_request(
                e,
                "unseal failed: shares did not reconstruct the master key"@,
            )),
    {
        self.clear();
        match plain {
            Some(p) => {
                if bytes_eq(p.as_slice(), UNSEAL_VERIFICATION.as_bytes()) {
                    Ok(())
                } else {
                    Err(AppError::BadRequest(owned("unseal failed: shares did not reconstruct the master key")))
                }
            },
            None => Err(AppError::BadRequest(owned("unseal failed: shares did not reconstruct the master key"))),
        }
    }
}

/// The verification ciphertext and nonce stored at init, or the internal
/// error for a row that lacks them or holds a nonce of the wrong length.
pub fn verification_material(enc: Option<Vec<u8>>, nonce: Option<Vec<u8>>) -> (r: Result<(Vec<u8>, [u8; 12]), AppError>)
    ensures
        enc is None ==> (r matches Err(e) && is_internal(e, "missing verification ciphertext"@)),
        (enc is Some && nonce is None) ==> (r matches Err(e) && is_internal(e, "missing verification nonce"@)),
        match (enc, nonce) {
            (Some(c), Some(n)) => if n@.len() == NONCE_LEN {
                r matches Ok((c2, n2)) && c2@ == c@ && n2@ == n@
            } else {
                r matches Err(e) && is_internal(e, "corrupt verification nonce"@)
            },
            _ => true,
        },
{
    let enc = match enc {
        Some(c) => c,
        None => return Err(AppError::Internal(owned("missing verification ciphertext"))),
    };
    let nonce_vec = match nonce {
        Some(n) => n,
        None => return Err(AppError::Internal(owned("missing verification nonce"))),
    };
    match stored_nonce(nonce_vec.as_slice(), "corrupt verification nonce") {
        Ok(n) => Ok((enc, n)),
        Err(e) => Err(e),
    }
}

/// Byte-wise equality of two slices.
fn bytes_eq(a: &[u8], b: &[u8]) -> (r: bool)
    ensures
        r == (a@ == b@),
{
    if a.len() != b.len() {
        return false;
    }
    let mut i: usize = 0;
    while i < a.len()
        invariant
            a@.len() == b@.len(),
            i <= a@.len(),
            forall|j: int| 0 <= j < i ==> a@[j] == b@[j],
        decreases a@.len() - i,
    {
        if a[i] != b[i] {
            return false;
        }
        i = i + 1;
    }
    assert(a@ =~= b@);
    true
}

/// For a stored threshold `t` in `1..=255`, a share count is below the
/// threshold the progress compares against exactly when it is below `t`, and
/// reaching `t` asks for reconstruction with threshold `t`.
pub proof fn lemma_threshold_triggers_combine(collected: nat, key_threshold: i64)
    requires
        1 <= key_threshold <= 255,
        1 <= collected <= key_threshold,
    ensures
        collected < threshold_count(Some(key_threshold)) <==> collected < key_threshold,
        collected == key_threshold ==> threshold_count(Some(key_threshold)) as u8 == key_threshold,
{
}

/// The decoded shares of a run of share texts, in the order submitted.
pub open spec fn decoded_run(keys: Seq<Seq<char>>) -> Seq<Seq<u8>>
    decreases keys.len(),
{
    if keys.len() == 0 {
        Seq::empty()
    } else {
        decoded_run(keys.drop_last()).push(base64_decoded(trimmed(keys.last())).unwrap())
    }
}

/// Every share text of the run is valid base64 (once trimmed).
pub open spec fn all_decode(keys: Seq<Seq<char>>) -> bool {
    forall|i: int| 0 <= i < keys.len() ==> (#[trigger] base64_decoded(trimmed(keys[i]))) is Some
}

/// An unseal run, over `submit`'s contract: starting from no shares on a
/// sealed, initialized instance whose stored threshold is `t`, submit `t`
/// valid shares one per call. The `k`-th call appends the `k`-th decoded
/// share, so afterwards the progress holds exactly the first `k` shares in
/// order; the first `t - 1` calls stay below the threshold (`Pending`) and
/// the `t`-th reaches it, asking to combine with threshold `t`. Whether the
/// combination then unseals is `after_combine` and `after_verify`, which
/// empty the progress in every outcome but a 32-byte key awaiting
/// verification.
pub proof fn lemma_unseal_run(keys: Seq<Seq<char>>, t: i64)
    requires
        1 <= t <= 255,
        keys.len() == t,
        all_decode(keys),
    ensures
        forall|k: int|
            1 <= k <= keys.len() ==> #[trigger] decoded_run(keys.take(k)) == decoded_run(keys.take(k - 1)).push(
                base64_decoded(trimmed(keys[k - 1])).unwrap(),
            ),
        forall|k: int| 0 <= k <= keys.len() ==> (#[trigger] decoded_run(keys.take(k))).len() == k,
        forall|k: int| 1 <= k < keys.len() ==> (#[trigger] decoded_run(keys.take(k))).len() < threshold_count(Some(t)),
        decoded_run(keys).len() == threshold_count(Some(t)),
        threshold_count(Some(t)) as u8 == t,
        decoded_run(keys.take(keys.len() as int)) == decoded_run(keys),
{
    assert forall|k: int| 1 <= k <= keys.len() implies #[trigger] decoded_run(keys.take(k)) == decoded_run(
        keys.take(k - 1),
    ).push(base64_decoded(trimmed(keys[k - 1])).unwrap()) by {
        assert(keys.take(k).drop_last() =~= keys.take(k - 1));
        assert(keys.take(k).last() == keys[k - 1]);
    }
    assert forall|k: int| 0 <= k <= keys.len() implies (#[trigger] decoded_run(keys.take(k))).len() == k by {
        lemma_decoded_run_len(keys.take(k));
    }
    assert(keys.take(keys.len() as int) =~= keys);
}

proof fn lemma_decoded_run_len(keys: Seq<Seq<char>>)
    ensures
        decoded_run(keys).len() == keys.len(),
    decreases keys.len(),
{
    if keys.len() > 0 {
        lemma_decoded_run_len(keys.drop_last());
    }
}

} // verus!
