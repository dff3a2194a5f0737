//! Session manager for short-lived shareable hubs: a text bin, uploaded files
//! and a collaborative whiteboard, all expiring with their record in a
//! key/value store.

pub mod error;
pub mod time;
pub mod hub;
pub mod store;
pub mod keys;
pub mod lifecycle;
pub mod bundle;
pub mod rooms;
pub mod session;
pub mod palette;
