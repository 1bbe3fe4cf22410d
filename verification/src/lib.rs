//! Zeit keeps a history of pomodoros: tracked intervals of work and of rest.
//!
//! The library holds the session model, the shape of the history document
//! and the plan by which a store is laid out on disk. Reading and writing
//! files is left to the caller.
//!
//! - [`pomodoro`]: sessions, their kinds, and the history.
//! - [`time`] and [`ident`]: the times and identifiers of sessions, and
//!   their texts, which chrono and uuid write and read.
//! - [`document`]: the history document as a tree of plain values.
//! - [`table`]: the toml crate's tables, which hold the document.
//! - [`codec`]: from a history to its document and text, and back.
//! - [`store`]: loading, saving, appending, and laying out a store.
//! - [`error`]: what can go wrong.

pub mod codec;
pub mod document;
pub mod error;
pub mod ident;
pub mod pomodoro;
pub mod store;
pub mod table;
pub mod time;
