//! Rendering and publishing of match tickets.
//!
//! A ticket describes a sports match. From it the library derives the layout of
//! a composed image, a token document that points at the published image, and
//! the sequence of steps that publishes both.

pub mod calendar;
pub mod composition;
pub mod digest;
pub mod error;
pub mod json;
pub mod laws;
pub mod logo;
pub mod pipeline;
pub mod png;
pub mod text;
pub mod ticket;
pub mod token;
