# easyvault

The verified core of EasyVault, a small self-hosted secrets manager with a
HashiCorp Vault–compatible KV API, per-vault roles, an HMAC-signed audit log
and a server-rendered management GUI.

`src/` is a Verus library. Its own functions carry contracts and are proved;
the calls into outside crates and into std that vstd does not specify go
through small `#[verifier::external_body]` wrappers whose contracts are
trusted, not proved (hashing, base64, JSON, IP/CIDR parsing, paths, UUIDs,
the clock, certificate generation).

- `text` — character-level primitives: trimming, decimal and hex rendering,
  integer parsing, line splitting.
- `clock` — the instants `chrono` can represent, reading the system clock
  without panicking, and RFC 3339 text.
- `audit` — the canonical field string of an audit event, its HMAC under a key
  derived from the master key, row signing and verification, the retention
  setting, the prune cutoff.
- `vault` — per-vault roles, vault metadata inputs, the network ACL columns,
  and the shape checks on stored key material.
- `config` — the configuration model, its defaults, and where state lives.
- `tls` — where TLS material comes from, and self-signed generation.
- `api::routes::sys` — the init / unseal lifecycle: parameter checks, share
  encoding, the unseal progress, health and seal status.
- `api::routes::kv` — token header, audit entries, write options and the
  directory listing of the KV API.
- `web` — form parsing, per-vault capabilities, the login throttle and the
  GUI handlers' decisions; `web::pages` renders every page, each contract
  giving the exact HTML.

`app/` is the program around the library: configuration files, the SQLite
store (audit log and vault metadata), TLS files and the HTTP status
endpoints. `tests/` exercises the
library on concrete values.
