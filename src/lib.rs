//! Multi-tenant authorization core: the entity model, a storage interface
//! with an in-memory implementation, the referential-integrity validator,
//! the mutations built on them, and the access-control decision engine.
pub mod access;
pub mod deletion;
pub mod error;
pub mod ids;
pub mod integrity;
pub mod memstore;
pub mod metadata;
pub mod namespace;
pub mod operations;
pub mod organization_profile;
pub mod product;
pub mod rbac;
pub mod role;
pub mod store;
pub mod table;
pub mod tenant;
pub mod text;
pub mod timestamps;
pub mod user;
pub mod validation;
