pub mod error;
pub mod info;
pub mod metadata;
pub mod state;
pub mod streamer;
