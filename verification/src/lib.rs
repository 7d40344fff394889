//! Geometry clipmap terrain layout: mesh topology, block placement, asset
//! readiness and the per-frame draw command list, with machine-checked
//! contracts.
//!
//! A clipmap renders terrain as nested square rings around the viewer, each
//! ring at twice the grid spacing of the ring inside it. One ring is twelve
//! copies of one block mesh and one fix-up mesh that fills the gaps between
//! them; `tiling` proves that these pave the ring exactly.
//!
//! All numbers are exact: positions and offsets are integers counted in half
//! grid units, blend parameters are ratios of integers. The host turns them
//! into floats when it carries the commands out.

pub mod units;
pub mod placement;
pub mod topology;
pub mod triangles;
pub mod tiling;
pub mod component;
pub mod progress;
pub mod loading;
pub mod pass;
pub mod lights;
pub mod events;
