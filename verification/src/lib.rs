//! Desktop notifications for executables that have no application bundle.
//!
//! The host only shows notifications of bundled applications. This library
//! holds the rules by which an unbundled process takes on the identity of a
//! registered application and by which a notification is handed to the host:
//! the description a caller fills in, the exact sequence of host calls that
//! delivers it, and the protocol that installs the identity override.
//! The host calls themselves are made by the program that links this library.

pub mod delivery;
pub mod identity;
pub mod notification;
pub mod runtime_model;
pub mod setup;

pub use crate::notification::{Notification, NotificationImage};
pub use crate::setup::init;
