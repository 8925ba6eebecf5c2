//! Scaffolding of new book projects and the markdown passthrough renderer.
//!
//! The library decides, as plain data, which filesystem operations a build
//! or a render performs and in which order; the caller carries them out.
pub mod action;
pub mod config;
pub mod error;
pub mod init;
pub mod renderer;
