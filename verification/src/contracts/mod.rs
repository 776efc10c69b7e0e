pub mod browser;
pub mod cli;
pub mod decode;
pub mod envelope;
pub mod events;
pub mod health;
pub mod integrity;
pub mod ids;
pub mod payload_keys;
pub mod projection;
pub mod provider;
pub mod replies;
pub mod requests;
pub mod responses;
pub mod semantics;
