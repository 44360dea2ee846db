//! Clipboard sharing between machines of one network: configuration handling,
//! role selection and the rules of the connection set-up.
pub mod config;
pub mod decimal;
pub mod session;
pub mod handshake;
pub mod tls;
