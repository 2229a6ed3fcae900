//! Organizes image files into a date-based hierarchy of symbolic links.
//!
//! The library reads the embedded metadata of an image, picks a capture
//! timestamp from a prioritized list of date fields, rewrites that timestamp
//! into a directory path, and composes the name the symbolic link should get.
//! All path and text handling is verified; the metadata block itself is
//! decoded by the `exif` crate behind trusted declarations.

pub mod datefmt;
pub mod error;
pub mod links;
pub mod metadata;
pub mod paths;
