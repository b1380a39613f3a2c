//! Storage abstraction: the two store traits and their backends.
//!
//! `questions_dao` and `answers_dao` hold the capability traits the
//! serving layer is handed; `in_memory` holds the verified in-memory
//! backend that implements both.

pub mod answers_dao;
pub mod in_memory;
pub mod questions_dao;
