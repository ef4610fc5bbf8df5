//! Composing a video from an intro audio track and a website capture, and
//! delivering it to a drive folder.
pub mod audio;
pub mod drive;
pub mod encode;
pub mod errors;
pub mod ffmpeg;
pub mod job;
pub mod params;
pub mod render;
pub mod seconds;
