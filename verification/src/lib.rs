//! Appends an "edit this page" footer to every chapter of a book: it locates
//! the version-control root above the book directory, resolves which hosting
//! provider's edit-URL convention applies, relativizes each chapter's file
//! path against that root, and injects a marked HTML footer exactly once per
//! chapter.

pub mod config;
pub mod footer;
pub mod fsmodel;
pub mod host;
pub mod laws;
pub mod paths;
pub mod transform;

pub use transform::OpenOn;
