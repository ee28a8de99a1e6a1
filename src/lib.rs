//! Client library for a network-management controller's REST service: a user
//! identity, the session client that logs in with it, and the typed inventory
//! records that the service returns.

pub mod client;
pub mod device;
pub mod error;
pub mod identity;
pub mod json;

pub use client::{Client, Method, Reply, Request, Session};
pub use device::Device;
pub use error::ClientError;
pub use identity::User;
pub use json::{JsonNumber, JsonValue};
