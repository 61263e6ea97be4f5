//! Client-side building blocks for a chat-bot backend: a rich-text content
//! tree with its builder, and the sans-IO core of an authenticated RPC client.

pub mod auth;
pub mod block;
pub mod client;
pub mod epoch;
pub mod error;
pub mod message;
pub mod node;

pub use auth::AuthHeaderInterceptor;
pub use block::{Block, IntoBlock, IntoText};
pub use client::{Client, ClientConfig, Endpoint, Operation, OutboundCall, Transport};
pub use error::{ClientError, ConfigError};
pub use message::{IntoMessage, MessageContent};
pub use node::{ContentNode, NodeKind};
