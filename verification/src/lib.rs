//! Verified core of a contact-and-message chat service: the database
//! entities, the input forms, the user model, and the decisions that the
//! GraphQL mutations and the message subscription make.
pub mod constants;
pub mod entity;
pub mod error;
pub mod form;
pub mod laws;
pub mod model;
pub mod mutation;
pub mod operation_laws;
pub mod subscription;
pub mod text;
