//! Typed string values over a host runtime's untyped value handles.
pub mod env;
pub mod laws;
pub mod result;
pub mod string;
pub mod sys;
pub mod unicode;
pub mod value;
