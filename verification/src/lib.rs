//! Discovery of URL-capable applications installed on a machine.
//!
//! The crate models per-application manifests as plain documents, decides
//! which applications declare themselves able to handle web URLs, extracts
//! displayable identity (name, version, executable path) from their
//! manifests, folds many such per-entry results into one scan outcome that
//! never aborts on a single broken entry, converts native icon bitmaps into
//! a canonical pixel buffer, and sorts the surviving candidates for display.
//! Every function that makes a decision is verified against its contract;
//! the surrounding process (walking directories, reading files) lives in an
//! ordinary binary that feeds plain values into this library.

pub mod browser;
pub mod extract;
pub mod icon;
pub mod listing;
pub mod filter;
pub mod manifest;
pub mod scan;
pub mod text;
pub mod wide;
