//! `dev.mcpg.identity.kerberos`: Kerberos / SPNEGO (HTTP Negotiate) identity
//! plugin.
//!
//! Resolves caller identity from `Authorization: Negotiate <b64 GSSAPI token>`
//! by verifying the token against the gateway's service keytab and reading the
//! caller's Kerberos principal.
//!
//! # Trust model
//!
//! A completed GSSAPI accept is cryptographic proof that the caller holds a
//! service ticket the KDC issued to them, so `resolution.trust_level:
//! "verified"` is the default.
//!
//! # Who calls GSSAPI
//!
//! The library decides and the host acts. [`KerberosIdentityPlugin::resolve`]
//! answers a request or hands out a [`gss::AcceptState`]; the host makes the
//! call that the state names and feeds the outcome to
//! [`gss::AcceptState::next`] until the attempt is over; its result goes to
//! [`KerberosIdentityPlugin::conclude`].
pub mod attributes;
pub mod config;
pub mod gss;
pub mod headers;
pub mod identity;
pub mod laws;
pub mod plugin;
pub mod text;
pub mod token;

pub use config::{ConfigError, KerberosConfig, ResolutionConfig};
pub use plugin::{KerberosIdentityPlugin, PLUGIN_ID};
