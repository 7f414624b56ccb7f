//! TLS certificate material: the configured pair when both paths are set,
//! else a self-signed pair kept under the data directory and generated on
//! first run (covering `localhost` and `127.0.0.1`).
use vstd::prelude::*;

use crate::config::{ServerConfig, join_path, joined_path};
use crate::text::owned;

verus! {

broadcast use vstd::string::group_string_axioms;

/// PEM-encoded certificate chain + private key.
pub struct TlsPem {
    pub cert: Vec<u8>,
    pub key: Vec<u8>,
}

/// Where the certificate and key come from.
pub enum TlsSource {
    /// Both paths are configured: read them.
    Configured { cert: String, key: String },
    /// Self-signed material under `dir`: read it when both files exist,
    /// otherwise generate and store it there.
    SelfSigned { dir: String, cert: String, key: String },
}

/// Explicit config paths if both are given, else the persisted self-signed
/// pair under `<data_dir>/tls`.
pub fn tls_source(server: &ServerConfig, data_dir: &str) -> (r: TlsSource)
    ensures
        (server.tls_cert@.len() > 0 && server.tls_key@.len() > 0) ==> (r matches TlsSource::Configured { cert, key }
            && cert@ == server.tls_cert@ && key@ == server.tls_key@),
        !(server.tls_cert@.len() > 0 && server.tls_key@.len() > 0) ==> (r matches TlsSource::SelfSigned {
            dir,
            cert,
            key,
        } && dir@ == joined_path(data_dir@, "tls"@) && cert@ == joined_path(dir@, "cert.pem"@) && key@
            == joined_path(dir@, "key.pem"@)),
{
    if !server.tls_cert.as_str().is_empty() && !server.tls_key.as_str().is_empty() {
        return TlsSource::Configured {
            cert: owned(server.tls_cert.as_str()),
            key: owned(server.tls_key.as_str()),
        };
    }
    let dir = join_path(data_dir, "tls");
    let cert = join_path(dir.as_str(), "cert.pem");
    let key = join_path(dir.as_str(), "key.pem");
    TlsSource::SelfSigned { dir, cert, key }
}

/// The names a generated certificate covers.
pub fn self_signed_names() -> (v: Vec<String>)
    ensures
        v@.len() == 2,
        v@[0]@ == "localhost"@,
        v@[1]@ == "127.0.0.1"@,
{
    let mut v: Vec<String> = Vec::new();
    v.push(owned("localhost"));
    v.push(owned("127.0.0.1"));
    v
}

/// `s` ends with `suffix`.
pub open spec fn ends_with(s: Seq<char>, suffix: Seq<char>) -> bool {
    s.len() >= suffix.len() && s.subrange(s.len() - suffix.len(), s.len() as int) == suffix
}

/// A PEM block as the `pem` crate writes it for `label`: it opens with the
/// `-----BEGIN label-----` line and closes with the `-----END label-----`
/// line and a line ending (`\n`, or `\r\n` on Windows).
pub open spec fn pem_block(t: Seq<char>, label: Seq<char>) -> bool {
    let begin = "-----BEGIN "@ + label + "-----"@;
    let end = "-----END "@ + label + "-----"@;
    &&& t.len() >= begin.len()
    &&& t.subrange(0, begin.len() as int) == begin
    &&& (ends_with(t, end + "\n"@) || ends_with(t, end + "\r\n"@))
}

/// `b` is the UTF-8 of a PEM block for `label`.
pub open spec fn pem_bytes(b: Seq<u8>, label: Seq<char>) -> bool {
    exists|t: Seq<char>| b == vstd::utf8::encode_utf8(t) && #[trigger] pem_block(t, label)
}

/// Declares `rcgen::CertifiedKey` (a certificate with its key pair).
#[verifier::external_type_specification]
#[verifier::external_body]
pub struct ExCertifiedKey(rcgen::CertifiedKey);

/// Declares `rcgen::Error`.
#[verifier::external_type_specification]
#[verifier::external_body]
pub struct ExRcgenError(rcgen::Error);

/// `rcgen::generate_simple_self_signed`: a fresh key pair and a certificate
/// for `names`. The key pair is random, so nothing is stated of the result.
#[verifier::external_body]
fn generate_certified(names: Vec<String>) -> (r: Result<rcgen::CertifiedKey, rcgen::Error>) {
    rcgen::generate_simple_self_signed(names)
}

/// `rcgen::Certificate::pem` of the generated certificate: whatever the
/// random key, a PEM block labelled `CERTIFICATE`.
#[verifier::external_body]
fn certificate_pem(c: &rcgen::CertifiedKey) -> (r: String)
    ensures
        pem_block(r@, "CERTIFICATE"@),
{
    c.cert.pem()
}

/// `rcgen::KeyPair::serialize_pem` of the generated key pair: whatever the
/// random key, a PEM block labelled `PRIVATE KEY`.
#[verifier::external_body]
fn key_pair_pem(c: &rcgen::CertifiedKey) -> (r: String)
    ensures
        pem_block(r@, "PRIVATE KEY"@),
{
    c.key_pair.serialize_pem()
}

/// The message of an `rcgen::Error` (its `Display`). Nothing is stated of it.
#[verifier::external_body]
fn rcgen_error_text(e: &rcgen::Error) -> (r: String) {
    e.to_string()
}

/// The UTF-8 bytes of `s`.
pub fn utf8_bytes(s: &str) -> (b: Vec<u8>)
    ensures
        b@ == vstd::utf8::encode_utf8(s@),
{
    let src = s.as_bytes();
    let mut b: Vec<u8> = Vec::new();
    let mut i: usize = 0;
    while i < src.len()
        invariant
            src@ == vstd::utf8::encode_utf8(s@),
            i <= src@.len(),
            b@ == src@.take(i as int),
        decreases src@.len() - i,
    {
        b.push(src[i]);
        i = i + 1;
        assert(b@ =~= src@.take(i as int));
    }
    assert(src@.take(src@.len() as int) =~= src@);
    b
}

/// A fresh self-signed pair for `localhost` and `127.0.0.1`, as PEM bytes:
/// the certificate is the UTF-8 of a `CERTIFICATE` PEM block, the key that of
/// a `PRIVATE KEY` block.
pub fn generate_self_signed() -> (r: Result<TlsPem, String>)
    ensures
        r matches Ok(pem) ==> vstd::utf8::valid_utf8(pem.cert@) && vstd::utf8::valid_utf8(pem.key@),
        r matches Ok(pem) ==> pem_bytes(pem.cert@, "CERTIFICATE"@) && pem_bytes(pem.key@, "PRIVATE KEY"@),
{
    match generate_certified(self_signed_names()) {
        Ok(certified) => {
            let cert = certificate_pem(&certified);
            let key = key_pair_pem(&certified);
            let c = utf8_bytes(cert.as_str());
            let k = utf8_bytes(key.as_str());
            proof {
                vstd::utf8::encode_utf8_valid_utf8(cert@);
                vstd::utf8::encode_utf8_valid_utf8(key@);
                assert(pem_block(cert@, "CERTIFICATE"@));
                assert(pem_block(key@, "PRIVATE KEY"@));
            }
            Ok(TlsPem { cert: c, key: k })
        },
        Err(e) => Err(rcgen_error_text(&e)),
    }
}

} // verus!
