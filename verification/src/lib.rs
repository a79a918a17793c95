//! Turns a timestamped sequence of JPEG screen captures into one H.264 video in
//! an MP4 container, with every decision of the pipeline stated as a contract
//! and proved.

pub mod colorspace;
pub mod decoder;
pub mod encoder;
pub mod geometry;
pub mod image;
pub mod muxer;
pub mod pipeline;
pub mod request;
pub mod setup;
pub mod timing;
