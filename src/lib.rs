//! Lists the immediate entries of a directory, with their sizes.
//!
//! The operating system is read by the caller: it hands the library what one
//! scan found (or that the directory could not be opened), and the library
//! builds the entry list that the interface shows.
pub mod app_data;
pub mod file;
pub mod files;
pub mod laws;
pub mod path;
