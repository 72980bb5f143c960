//! Core of a habit tracker: the records it keeps, and the exchanges with a
//! key-value store by which habits are created, read, checked and removed.

pub mod datetime_util;
pub mod exchange;
pub mod habits;
pub mod ident;
pub mod laws;
pub mod records;
pub mod settings;
pub mod store;
pub mod time;
