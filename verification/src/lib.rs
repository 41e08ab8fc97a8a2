//! Core logic of a small physics-tutoring backend: a keyword-driven
//! question-answering engine and a progress/achievement evaluator.
//!
//! The HTTP layer around these components lives outside the library; the
//! functions here are pure apart from reading the wall clock for timestamps.

pub mod ask;
pub mod progress;
pub mod text;
