//! Beat-by-beat feedback on a walking bass line: harmonic primitives, the form
//! a performance is held against, the harmonic analysis of the notes that were
//! played, the exercises that judge it, and the decisions of the capture loop.

pub mod analysis;
pub mod capture;
pub mod exercise;
pub mod exercises;
pub mod form;
pub mod forms;
pub mod text;
pub mod transcribe;
