//! Batch analyses over exported chat logs: URL frequency ranking, half-hour
//! time-of-day bucketing, a three-way tabular renderer and a fail-fast
//! dispatcher over a closed set of behaviors.
//!
//! Every analysis is a function from plain values to a [`common::Report`]; reading
//! the input and writing the report are left to the caller.

pub mod common;
pub mod text;
pub mod ranking;
pub mod render;
pub mod pattern;
pub mod timestamp;
pub mod document;
pub mod behavior;
pub mod behaviors;
pub mod dispatch;
