//! A small automated poultry enclosure: the image classification pipeline that
//! tells chickens from predators, and the plain-value rules behind its
//! sensors, actuators, cache and command line.
//!
//! Binary32 numbers (scores, tensor entries) are carried by their IEEE-754
//! bit patterns, so the library itself performs no floating-point arithmetic.
//!
//! The functions here are verified against their contracts. Three contracts
//! speak of code outside the library and are taken on trust: that
//! `String::push` appends a character (`text`), what the `image` crate's
//! triangle-filter resampling returns (`preprocess`), and which texts the
//! `http` crate takes as header values (`actuator_server`).

pub mod actuator_server;
pub mod actuators;
pub mod ai;
pub mod alerts;
pub mod bitmap;
pub mod cache;
pub mod camera;
pub mod cli;
pub mod labels;
pub mod levels;
pub mod preprocess;
pub mod score;
pub mod sensors;
pub mod settings;
pub mod tagger;
pub mod tensor;
pub mod text;
