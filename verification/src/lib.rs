pub mod codec;
pub mod json;
pub mod message;
pub mod registry;
pub mod server;
pub mod session;

pub use json::Json;
pub use json::JsonV;
