//! A small multi-entity CRUD backend: validated value objects, a generic
//! concurrent keyed entity store, per-entity in-memory repositories, and a
//! service layer that checks referential integrity across stores before it
//! creates an association.

pub mod controllers;
pub mod errors;
pub mod ids;
pub mod laws;
pub mod models;
pub mod repositories;
pub mod services;
pub mod store;
pub mod text;
