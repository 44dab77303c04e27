//! The recording, encoding and settings logic of a system-audio recorder.
pub mod encoder;
pub mod ffmpeg_manager;
pub mod paths;
pub mod recorder;
pub mod recording;
pub mod settings;
pub mod text;
