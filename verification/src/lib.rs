//! The deciding half of a text editor widget that keeps its text and its
//! layout in a settings store.
//!
//! The crate holds no widget and does no input or output. It says what is
//! to be done and what follows from how it went; the program around it
//! does the doing. Every function is verified against its contract.
//!
//! - [`store`]: the settings store, which keeps a value in a structured
//!   backend where there is one and in a flat file per key otherwise.
//! - [`model`]: what a whole `set` and `get` come to, and what callers can
//!   rely on.
//! - [`key`], [`value`], [`decimal`], [`text`]: keys, typed values and
//!   their text.
//! - [`editor`], [`counts`]: the state of the text view, and the measures
//!   of its text.

pub mod counts;
pub mod decimal;
pub mod editor;
pub mod key;
pub mod model;
pub mod store;
pub mod text;
pub mod value;
