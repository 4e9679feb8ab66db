//! A two-player card game's data model and the LAN service-discovery
//! protocol its processes use to find one another: a server multicasts
//! nothing but answers discovery requests with the port it serves on,
//! and a client multicasts one request and collects the answers.

pub mod card;
pub mod client;
pub mod frame;
pub mod peer;
pub mod record;
pub mod server;
pub mod wire;
