//! Spectrograms of audio recordings: the layout of the image, the painting
//! of the time-frequency body and of the colour legend, and the placement of
//! the frequency, time and decibel scales.
//!
//! The library works in whole numbers throughout. Floating-point work (the
//! window, the transform, the decibel mapping, the colour gradient) and the
//! rasterising of lines and text are the caller's; the library tells the
//! caller which samples to analyse, takes the colours back, and hands out
//! what is to be drawn over them.

pub mod axes;
pub mod canvas;
pub mod decode;
pub mod downmix;
pub mod draw;
pub mod error;
pub mod font;
pub mod frames;
pub mod labels;
pub mod layout;
pub mod legend;
pub mod render;
pub mod spectrum;
