//! Verified core of an SDK for the Model Context Protocol: the message model,
//! the request bookkeeping of a running service, the tool registry, and the
//! decisions taken by the `#[tool]` attribute.
pub mod error;
pub mod handler;
pub mod json;
pub mod key_map;
pub mod model;
pub mod service;
pub mod tool_macro;
pub mod transport;

pub use error::Error;
pub use handler::client::ClientHandlerService;
pub use handler::server::ServerHandlerService;
pub use service::{RoleClient, RoleServer, ServiceError, ServiceRole};
