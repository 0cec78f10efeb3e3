//! Globally unique, typed node identifiers for graph-query APIs.
pub mod context;
pub mod error;
pub mod hex;
pub mod identity;
pub mod node_id;
pub mod schema;

pub use context::RelayContext;
pub use error::RelayError;
pub use node_id::{RelayNode, RelayNodeID, RelayNodeInterface, RelayNodeStruct};
pub use schema::{Node, NodeRoute, QueryRoot, Tenant, User};
