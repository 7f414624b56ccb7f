//! The configuration data model, its defaults, and where state lives on
//! disk. Every field has a default, so a missing file still yields a usable
//! configuration.
use vstd::prelude::*;

use crate::text::{int_text, owned, push_dec, str_eq};

verus! {

broadcast use vstd::string::group_string_axioms;

/// Top-level application configuration, mirroring config.toml.example.
#[derive(Debug, Clone)]
pub struct Config {
    pub server: ServerConfig,
    pub storage: StorageConfig,
    pub security: SecurityConfig,
    pub audit: AuditConfig,
    pub init: InitConfig,
}

/// HTTP listener settings.
#[derive(Debug, Clone)]
pub struct ServerConfig {
    pub address: String,
    pub port: u16,
    pub tls: bool,
    pub tls_cert: String,
    pub tls_key: String,
}

/// Backing store selection. Only sqlite is supported.
#[derive(Debug, Clone)]
pub struct StorageConfig {
    pub kind: String,
    pub path: String,
    pub url: String,
}

/// GUI session / brute-force / proxy-trust knobs.
#[derive(Debug, Clone)]
pub struct SecurityConfig {
    pub session_ttl_hours: u64,
    pub max_login_attempts: u32,
    pub lockout_minutes: u64,
    pub trusted_proxies: Vec<String>,
}

/// Audit log behaviour and optional EasyLog sink.
#[derive(Debug, Clone)]
pub struct AuditConfig {
    pub enabled: bool,
    pub log_raw_values: bool,
    pub easylog_url: String,
}

/// Defaults used by the /v1/sys/init ceremony.
#[derive(Debug, Clone)]
pub struct InitConfig {
    pub default_key_shares: u8,
    pub default_key_threshold: u8,
}

impl Default for ServerConfig {
    fn default() -> (r: Self)
        ensures
            r.address@ == "0.0.0.0"@,
            r.port == 8200,
            !r.tls,
            r.tls_cert@.len() == 0,
            r.tls_key@.len() == 0,
    {
        ServerConfig {
            address: owned("0.0.0.0"),
            port: 8200,
            tls: false,
            tls_cert: String::new(),
            tls_key: String::new(),
        }
    }
}

impl Default for StorageConfig {
    fn default() -> (r: Self)
        ensures
            r.kind@ == "sqlite"@,
            r.path@ == "easyvault.db"@,
            r.url@.len() == 0,
    {
        StorageConfig { kind: owned("sqlite"), path: owned("easyvault.db"), url: String::new() }
    }
}

impl Default for SecurityConfig {
    fn default() -> (r: Self)
        ensures
            r.session_ttl_hours == 8,
            r.max_login_attempts == 5,
            r.lockout_minutes == 15,
            r.trusted_proxies@.len() == 1,
            r.trusted_proxies@[0]@ == "127.0.0.1"@,
    {
        let mut proxies: Vec<String> = Vec::new();
        proxies.push(owned("127.0.0.1"));
        SecurityConfig { session_ttl_hours: 8, max_login_attempts: 5, lockout_minutes: 15, trusted_proxies: proxies }
    }
}

impl Default for AuditConfig {
    fn default() -> (r: Self)
        ensures
            r.enabled,
            !r.log_raw_values,
            r.easylog_url@.len() == 0,
    {
        AuditConfig { enabled: true, log_raw_values: false, easylog_url: String::new() }
    }
}

impl Default for InitConfig {
    fn default() -> (r: Self)
        ensures
            r.default_key_shares == 5,
            r.default_key_threshold == 3,
    {
        InitConfig { default_key_shares: 5, default_key_threshold: 3 }
    }
}

impl Default for Config {
    fn default() -> (r: Self)
        ensures
            r.server.address@ == "0.0.0.0"@,
            r.server.port == 8200,
            !r.server.tls,
            r.server.tls_cert@.len() == 0,
            r.server.tls_key@.len() == 0,
            r.storage.kind@ == "sqlite"@,
            r.storage.path@ == "easyvault.db"@,
            r.storage.url@.len() == 0,
            r.security.session_ttl_hours == 8,
            r.security.max_login_attempts == 5,
            r.security.lockout_minutes == 15,
            r.security.trusted_proxies@.len() == 1,
            r.security.trusted_proxies@[0]@ == "127.0.0.1"@,
            r.audit.enabled,
            !r.audit.log_raw_values,
            r.audit.easylog_url@.len() == 0,
            r.init.default_key_shares == 5,
            r.init.default_key_threshold == 3,
    {
        Config {
            server: ServerConfig::default(),
            storage: StorageConfig::default(),
            security: SecurityConfig::default(),
            audit: AuditConfig::default(),
            init: InitConfig::default(),
        }
    }
}

// ─────────────────────────────────────────────────────────────────────────────
// Paths
// ─────────────────────────────────────────────────────────────────────────────

/// Whether `std::path::Path` considers `p` absolute on the target platform.
pub uninterp spec fn path_is_absolute(p: Seq<char>) -> bool;

/// `base` joined with `p` by `std::path::Path::join` on the target platform.
pub uninterp spec fn joined_path(base: Seq<char>, p: Seq<char>) -> Seq<char>;

/// `Path::is_absolute`. Named, not stated: the rule is the platform's.
#[verifier::external_body]
fn is_absolute_path(p: &str) -> (b: bool)
    ensures
        b == path_is_absolute(p@),
{
    std::path::Path::new(p).is_absolute()
}

/// `p` begins with a drive letter and `:` (`D:`), a Windows drive prefix.
pub open spec fn has_drive_prefix(p: Seq<char>) -> bool {
    &&& p.len() >= 2
    &&& p[1] == ':'
    &&& (('a' <= p[0] && p[0] <= 'z') || ('A' <= p[0] && p[0] <= 'Z'))
}

/// `Path::join`, read back as text (both inputs are text, so nothing is
/// lost). Named; two facts of `PathBuf::push` are stated: an absolute path
/// replaces the base, and joining onto an absolute base stays absolute. The
/// second is left unstated for a path that begins with a drive prefix, since
/// on Windows a drive-relative path such as `D:x` replaces the base and is
/// not absolute (on Unix such a path is an ordinary relative name).
#[verifier::external_body]
pub(crate) fn join_path(base: &str, p: &str) -> (r: String)
    ensures
        r@ == joined_path(base@, p@),
        path_is_absolute(p@) ==> r@ == p@,
        (path_is_absolute(base@) && !has_drive_prefix(p@)) ==> path_is_absolute(r@),
{
    std::path::Path::new(base).join(p).to_string_lossy().into_owned()
}

/// Where a stored path lives: absolute paths as they are, relative ones
/// under the data directory.
pub open spec fn resolved_under(data_dir: Seq<char>, p: Seq<char>) -> Seq<char> {
    if path_is_absolute(p) {
        p
    } else {
        joined_path(data_dir, p)
    }
}

impl StorageConfig {
    /// Resolve the SQLite path to an absolute, CWD-independent location:
    /// absolute paths are used as-is; relative paths anchor to `data_dir`.
    pub fn resolved_path(&self, data_dir: &str) -> (r: String)
        ensures
            r@ == resolved_under(data_dir@, self.path@),
            path_is_absolute(self.path@) ==> path_is_absolute(r@),
            (path_is_absolute(data_dir@) && !has_drive_prefix(self.path@)) ==> path_is_absolute(r@),
    {
        if is_absolute_path(self.path.as_str()) {
            owned(self.path.as_str())
        } else {
            join_path(data_dir, self.path.as_str())
        }
    }
}

/// A path resolved against any data directory is itself once absolute, so
/// resolving twice changes nothing.
pub proof fn lemma_absolute_paths_stay(data_dir: Seq<char>, other: Seq<char>, p: Seq<char>)
    requires
        path_is_absolute(p),
    ensures
        resolved_under(data_dir, p) == p,
        resolved_under(other, resolved_under(data_dir, p)) == p,
{
}

/// Base directory for EasyVault state (DB, TLS material) from the values of
/// `$EASYVAULT_HOME` and `$HOME`: the first, else `$HOME/.easyvault`, else
/// the current directory.
pub fn data_dir_from(easyvault_home: Option<&str>, home: Option<&str>) -> (r: String)
    ensures
        r@ == match easyvault_home {
            Some(h) => h@,
            None => match home {
                Some(h) => joined_path(h@, ".easyvault"@),
                None => "."@,
            },
        },
        match (easyvault_home, home) {
            (None, Some(h)) => path_is_absolute(h@) ==> path_is_absolute(r@),
            _ => true,
        },
{
    proof {
        reveal_strlit(".easyvault");
        assert(!has_drive_prefix(".easyvault"@));
    }
    match easyvault_home {
        Some(h) => owned(h),
        None => match home {
            Some(h) => join_path(h, ".easyvault"),
            None => owned("."),
        },
    }
}

/// The listener address text `address:port`.
pub fn listen_address(server: &ServerConfig) -> (r: String)
    ensures
        r@ == server.address@ + ":"@ + int_text(server.port as int),
{
    let mut s = owned(server.address.as_str());
    s.append(":");
    push_dec(&mut s, server.port as u64);
    s
}

/// Only the sqlite store exists; any other kind is refused with its name.
pub fn check_storage_kind(storage: &StorageConfig) -> (r: Result<(), String>)
    ensures
        storage.kind@ == "sqlite"@ ==> r is Ok,
        storage.kind@ != "sqlite"@ ==> (r matches Err(m) && m@ == "storage type '"@ + storage.kind@
            + "' is not supported yet (only sqlite)"@),
{
    if str_eq(storage.kind.as_str(), "sqlite") {
        Ok(())
    } else {
        let mut m = owned("storage type '");
        m.append(storage.kind.as_str());
        m.append("' is not supported yet (only sqlite)");
        Err(m)
    }
}

} // verus!
