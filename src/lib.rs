pub mod connection;
pub mod laws;
pub mod message;
pub mod registry;

pub use message::{role_text, Notice, Relay, Role};
pub use registry::{JoinReply, Registry, RegistryModel};
pub use connection::{Action, Connection, Opened};
