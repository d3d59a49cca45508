//! A mutable logical record on top of an immutable, content-addressed,
//! append-only action log.
//!
//! A logical entity is identified by the address of its original `Create`
//! action. Updates never mutate in place: each one commits a new action and a
//! timestamped "updates" edge from the original address to the new action (a
//! star topology rooted at the original, not a linked list). Deletes commit a
//! tombstoning `Delete` action; nothing is ever erased, and the history of a
//! deleted entity stays retrievable for audit.
//!
//! The crate is organised after the roles the data flows through:
//! - [`types`]: payloads, actions, addresses, edges, errors and verdicts;
//! - [`store`]: the content-addressed action log and link index;
//! - [`integrity`]: the validation predicates every mutation must satisfy;
//! - [`coordinator`]: the operations a caller sees (create, update, delete,
//!   latest-revision resolution and history reconstruction);
//! - [`laws`]: proved statements relating those operations to one another.

pub mod types;

pub mod store;

pub mod integrity;

pub mod coordinator;

pub mod laws;
