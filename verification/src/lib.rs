//! A uniform screen-capture core: surface descriptors for monitors, DPI scale
//! resolution with a primary/fallback strategy, and normalization of raw
//! capture buffers (stride stripping, channel reordering, alpha dropping)
//! into canonical RGBA/RGB images.
//!
//! Platform backends gather raw data through native APIs and hand plain
//! values to this crate; everything that decides or computes is verified here.

pub mod capture;
pub mod error;
pub mod img;
pub mod monitor;
pub mod pixel;
pub mod scale;
