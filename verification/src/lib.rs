//! Pixel-format conversion for camera frames: packed 4:2:2 luma/chroma to
//! RGB or RGBA, baseline JPEG to RGB, and a facade that picks the decoder by
//! the detected encoding and fits the result to the declared geometry.

pub mod error;
pub mod frame;
pub mod mjpeg;
pub mod text;
pub mod types;
pub mod yuyv;
