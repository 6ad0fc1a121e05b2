//! Harmonic primitives and the form built from them.

pub mod chord;
pub mod form;
pub mod interval;
pub mod key;
pub mod note;
pub mod scale;
pub mod songs;
