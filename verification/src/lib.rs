//! Verified core of an OpenID Connect provider's token introspection endpoint
//! and of its profile avatar mirror.

pub mod avatar;
pub mod avatar_laws;
pub mod avatar_storage;
pub mod headers;
pub mod introspect;
pub mod introspection_laws;
pub mod json;
pub mod laws;
pub mod oauth;
pub mod reply;
pub mod store;
pub mod text;
pub mod timestamp;
