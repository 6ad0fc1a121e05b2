//! What the played notes mean in the harmony of the form, and how an exercise
//! judges them.

pub mod analysis;
pub mod correction;
pub mod mistake;
