//! A verified model of a unified VP8/VP9/AV1 encoder/decoder front end.
//!
//! The heavy lifting of video compression is done by native codec
//! libraries behind a foreign-function boundary; this crate verifies the
//! layer in front of it: configuration derivation, back-end dispatch,
//! status-code classification, packet and frame iteration, and pixel
//! buffer geometry, all stated over plain values.

pub mod aom;
pub mod codec;
pub mod error;
pub mod frame;
pub mod menu;
pub mod sys;
pub mod vpx;
