//! An in-memory store of per-user todo lists.
//!
//! Every user owns one ordered list of items. An item has no identifier of
//! its own: it is addressed by its current position in its owner's list, so
//! deleting an item moves every later item one position down.
//!
//! The store is [`TodoLists`]. Its contracts are stated over a mathematical
//! model, a map from user identifiers to sequences of item values, which the
//! `model` module defines and about which the `laws` module proves what
//! callers may rely on. The `request` module holds the argument records of
//! the four requests and the functions that carry them out on a store.

pub mod error;
pub mod item;
pub mod laws;
pub mod model;
pub mod request;
pub mod store;

pub use error::TodoError;
pub use item::Todo;
pub use request::{DeleteTodo, TodoPayload, UpdateTodoPayload, ViewAllTodos};
pub use store::TodoLists;
