//! Type information for PostgreSQL types: the catalog of built-in types with their OIDs,
//! names and kinds, custom and declared types, and how two types are compared.
//!
//! The contracts speak of the catalog through the spec functions of `catalog` and
//! `type_info`; `laws` states what holds across the functions.

pub mod ascii;
pub mod catalog;
pub mod laws;
pub mod oid;
pub mod type_info;

pub use ascii::eq_ignore_ascii_case;
pub use oid::Oid;
pub use type_info::{PgCustomType, PgType, PgTypeInfo, PgTypeKind};
