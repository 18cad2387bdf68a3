//! Domain core of an MCP server: the message types exchanged with clients,
//! the errors of the domain, the registry of tools addressed by name, and the
//! manager that routes a tool request to the tool registered under its name.
//!
//! Transports and tools are provided by the surrounding application; this
//! crate decides, for every request, which tool runs and what is answered.
pub mod error;
pub mod message;
pub mod registry;
pub mod mcp;
pub mod laws;

pub use error::{Error, ToolError, TransportError};
pub use message::{Message, Notification, Request, Response};
pub use registry::ToolRegistry;
pub use mcp::{MCPBuilder, RequestStep, MCP};
