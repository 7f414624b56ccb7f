//! The `/v1/*` route groups.
pub mod kv;
pub mod sys;
