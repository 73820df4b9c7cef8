//! What the server answers.

pub mod sys;
