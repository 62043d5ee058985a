//! Verified core of a binding to Qt's QML engine.
//!
//! The Qt side lives behind a small C wrapper library. This crate decides,
//! for every operation of the binding, exactly which call the wrapper receives
//! and with which plain arguments (a [`request::Request`]), and it keeps a
//! model of the meta objects that users declare (signals, slots, methods and
//! properties, with the method indices Qt assigns to them). Performing the
//! requests against the wrapper is the job of the thin layer around it.

pub mod text;
pub mod variant;
pub mod request;
pub mod qml;

pub mod dispatch;

pub use qml::{Engine, MetaObject, Object};
pub use variant::Variant;
