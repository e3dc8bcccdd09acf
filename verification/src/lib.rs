//! Client-side submission of a transaction to a Cosmos network node:
//! assembling and packaging the transaction, judging the node's
//! acknowledgment and following the transaction until it is confirmed.

pub mod coin;
pub mod envelope;
pub mod fee;
pub mod msg;
pub mod poller;
pub mod response;
pub mod submit;
pub mod text;
pub mod wire;
