//! Core of a desktop e-book reader backend: reconciliation of an EPUB's table
//! of contents with its spine into a zero-based chapter catalog, a
//! bounds-checked navigation cursor over that catalog, extraction of body
//! markup and stylesheets from container resources, the bookmark position
//! model, and the single shared slot that holds the open document.
//!
//! Container parsing, the metadata database and the UI transport are external
//! collaborators: they hand this crate plain values and take plain values
//! back.

pub mod bookinfo;
pub mod bookmark;
pub mod common;
pub mod config;
pub mod content;
pub mod epub;
pub mod notification;
pub mod reader;
