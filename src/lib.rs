//! Realtor records: the input and stored shapes, server-side id generation,
//! offset pagination, a verified in-memory repository and the HTTP-facing
//! service decisions built on it.

pub mod ids;
pub mod laws;
pub mod pagination;
pub mod realtor;
pub mod service;
pub mod store;
