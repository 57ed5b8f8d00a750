//! Building blocks for domain-driven design: entities, value types, use cases
//! and repositories, together with the field-role resolution that decides how
//! a structure's fields implement them.

pub mod entity;
pub mod fields;
pub mod generate;
pub mod repo;
pub mod time;
pub mod usecase;
pub mod value_type;
