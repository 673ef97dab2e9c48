pub mod info;
pub mod metadata;
pub mod streamer;
