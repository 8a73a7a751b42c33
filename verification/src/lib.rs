//! Editing rules of a video trimming and conversion tool: frame orientation,
//! crop proportions, the trimming timeline, playback state, output formats,
//! and reading the probe tool's report of a video stream.
pub mod orientation;
pub mod text;
pub mod info;
pub mod profiles;
pub mod crop;
pub mod timeline;
pub mod preview;
