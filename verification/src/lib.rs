//! Data-access layer for a question/answer board.
//!
//! Clients create, list, update, and delete questions and the answers
//! attached to them. The layer is made of an entity model, a small error
//! taxonomy, and two store traits (one for questions, one for answers)
//! behind which backends can be swapped. A verified in-memory store
//! implements both traits; a relational backend can sit behind the same
//! traits outside this library.

pub mod handlers;
pub mod identifier;
pub mod laws;
pub mod models;
pub mod persistance;
