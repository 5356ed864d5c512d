//! Core logic of a desktop converter that turns videos into files for small
//! "TinyTV" screens: choosing output names, building the ffmpeg command lines
//! for each conversion, collecting file metadata, and turning a raw RGB frame
//! into a base64 PNG preview.

mod text;
pub mod stem;
pub mod paths;
pub mod metadata;
pub mod convert;
pub mod screenshot;
