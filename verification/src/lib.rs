//! Client side of the OAuth device authorization grant against GitHub, and
//! the small decisions of the chat relay.
//!
//! Nothing here touches the network, the disk or the clock. Each operation is
//! split into the request that has to be sent and the reading of what came
//! back, so that the caller owns the transport and this crate owns every
//! decision:
//!
//! - [`provider`]: the four requests, and the reply to one;
//! - [`start`]: opening a device authorization;
//! - [`poll`]: one poll for the user's approval;
//! - [`identity`]: whose token it is;
//! - [`finalize`]: storing the login and telling the world;
//! - [`login`]: the poll, the two reads and what follows from each, as steps;
//! - [`check`]: whether a stored token is still good;
//! - [`codex`]: the chat relay;
//! - [`json`]: the provider's documents, read through `serde_json`.
//!
//! Every function is verified against its contract. What is taken on trust is
//! gathered in [`json`]: the behaviour of the `serde_json` functions that are
//! called there.

pub mod check;
pub mod codex;
pub mod finalize;
pub mod identity;
pub mod json;
pub mod login;
pub mod poll;
pub mod provider;
pub mod start;
mod text;
