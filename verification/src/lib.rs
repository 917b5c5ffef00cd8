//! Camera-frame QR detection and travel-document MRZ parsing.
//!
//! The crate has two independent halves. `decode` leads a detection of QR
//! symbols in an RGBA frame step by step: it names the image to scan next,
//! the caller runs the grid detector on it, and `scan` reads the grids that
//! were found; `regions` lays out the tiles that are searched, enlarged,
//! when the whole frame shows nothing. `mrz` turns the text read off a
//! machine-readable zone into its fields. `laws` holds what is proved of
//! both on every input.

pub mod decode;
pub mod detector;
pub mod frame;
pub mod laws;
pub mod mrz;
pub mod regions;
pub mod scan;
pub mod text;
