//! An in-memory store of person records: creation with validation, lookup by
//! identifier, and a count of stored records.

pub mod date;
pub mod laws;
pub mod person;
pub mod store;

pub use date::BirthDate;
pub use person::{NewPerson, Person, ValidationError};
pub use store::PersonStore;
