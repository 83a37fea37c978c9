//! Verified core of an SVG icon renderer for immediate-mode user interfaces.
//!
//! The crate holds what decides and orders: how a path's command stream
//! becomes subpath events, which paths of a document are drawn in which order
//! and under which chain of transforms, how paint becomes vertex color, and
//! when a tessellated mesh can be taken from a cache. Numbers with a
//! fractional part are carried as bit patterns and never computed with.
pub mod cache;
pub mod color;
pub mod document;
pub mod loader;
pub mod mesh;
pub mod path;
pub mod svg;
