//! The exact, integer side of a small neural radiance field renderer.
//!
//! A radiance field is trained and rendered with floating-point tensors, but
//! a good part of what can go wrong is not numerical at all: a layer whose
//! input width does not match the features it is fed, a chunk boundary that
//! drops or repeats a sample, a split that loses an image, a pixel grid that
//! is off by half a pixel. This crate holds that part, and proves it. Tensors
//! appear here as their shapes, numbers that arrive as IEEE-754 values appear
//! as their bit patterns, and every function says in its contract exactly
//! what it returns.
pub mod dataset;
pub mod encoder;
pub mod error;
pub mod experiment;
pub mod ieee;
pub mod renderer;
pub mod scene;
pub mod source;
