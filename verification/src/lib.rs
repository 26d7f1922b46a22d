//! A task-tracking service core: the item model, the repository and notifier
//! contracts with in-memory implementations, and the coordination logic that
//! ties each write to its advisory notifications.

pub mod clock;
pub mod external_service;
pub mod ident;
pub mod laws;
pub mod models;
pub mod repository;
pub mod row;
pub mod service;
pub mod store;
