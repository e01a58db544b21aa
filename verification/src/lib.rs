//! Captions for videos: the file format of a caption track, the splitting of
//! transcribed speech into timed captions, the placing of the caption layer
//! on the picture, and the session that leads from a video through
//! extraction, transcription and editing to the video with its captions.
//!
//! The library decides and computes; it runs no tool and touches no file.
//! Where something has to happen outside, a function says so in what it
//! returns, and takes the outcome as an argument of the next call.

pub mod app;
pub mod audio;
pub mod browser;
pub mod cli;
pub mod command;
pub mod decimal;
pub mod error;
pub mod paths;
pub mod preview;
pub mod session_laws;
pub mod subtitle;
pub mod text;
