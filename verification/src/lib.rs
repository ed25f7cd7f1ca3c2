//! Client logic for a home router's management interface, and a plain
//! text table renderer for the records it returns.
//!
//! Nothing here touches the network: the client says which request is to be
//! sent and takes what came back. The table renderer turns rows of any
//! record type into aligned text.

pub mod cli;
pub mod client;
pub mod codec;
pub mod containers;
pub mod json;
pub mod model;
pub mod rows;
pub mod session;
pub mod table;
pub mod text;
pub mod wire;
