//! Verified core of an interactive escape-time fractal renderer.
//!
//! The library holds the parts of the renderer that are exact over the
//! integers: the raster geometry (display, preview and export dimensions),
//! the assembly of per-pixel colors into a row-major byte buffer, and the
//! table that turns key events into pan/zoom/export commands.  The
//! floating-point kernel that evaluates the fractal itself lives outside
//! the library, in the application around it.

pub mod config;
pub mod frame;
pub mod input;
