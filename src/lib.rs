pub mod connection;
pub mod handshake;
pub mod lifecycle;
pub mod login;
pub mod packets;
pub mod relay;
pub mod status;
pub mod types;
