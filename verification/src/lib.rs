//! A verified core for a 2D raster viewer: a view transform mapping between
//! screen space and image pixel space under composed zoom, pan and rotation
//! about an arbitrary pivot, and a value-stretch pipeline mapping raw samples
//! through normalization, a stretch curve and a contrast/bias transform to a
//! color lookup.
//!
//! All continuous quantities are modelled in fixed point: coordinates, zoom
//! levels and sample values carry a scale of 1000 (milli-units), relative
//! positions inside a rect a scale of 1_000_000. Samples that are not finite
//! numbers are represented as `None` and render as the lowest colormap entry.

pub mod fixed;
pub mod colormap;
pub mod geom;
pub mod stats;
pub mod stretch;
pub mod transform;
pub mod trig;
pub mod widget;
