//! Verified core of the Codex multi-instance store and of the kiro-proxy sidecar manager.

pub mod text;
pub mod json;
pub mod store;
pub mod store_laws;
pub mod history;
pub mod sync;
pub mod electron;
pub mod kiro_proxy;
