pub mod autorun;
pub mod chat_action;
pub mod dummy_cli;
pub mod handler;
pub mod pairing;
pub mod relay;
pub mod state;
pub mod wire;
