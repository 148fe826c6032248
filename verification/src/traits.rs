//! Request object traits, for importing in one line.

pub use crate::request::Request;
