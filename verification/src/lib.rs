//! An in-memory recipe manager: a store of recipes keyed by title, and the
//! state machine of a menu-driven interface for adding, viewing, updating,
//! deleting and listing them.

pub mod menu;
pub mod store;
