//! From a recording to one note per beat.

pub mod transcribe;
