//! The model behind a 3D map of the roads and buildings around a location.
//!
//! The library holds what such a map decides: which stored rows are roads
//! and of what class, how a road's ribbon and a building's walls are laid
//! out, what each road class looks like, how the sun is turned, what is
//! drawn over a hovered feature, and how the local cache is named, filled
//! and read. It computes on whole numbers and text only: floats are carried
//! as bit patterns, lengths in fixed fractions of a scene unit, and the
//! placing of vertices in space is left to the caller.

pub mod cache;
pub mod extrusion;
pub mod hover;
pub mod json;
pub mod light;
pub mod query_transportation;
pub mod ribbon;
pub mod road_class;
pub mod text;
pub mod transportation;
pub mod wkb;
