//! Role-scoped access control for shared documents.
//!
//! The crate centers on a three-tier role lattice (viewer < editor < owner),
//! an access decision engine over that lattice, a permission mutation engine
//! with self-protection invariants, and a document lifecycle layer that seeds
//! an owner permission on creation and gates reads and writes through the
//! decision engine.

pub mod role;
pub mod text;
pub mod auth;
pub mod error;
pub mod store;
pub mod engine;
pub mod lifecycle;
pub mod controller;
pub mod project;
pub mod laws;
