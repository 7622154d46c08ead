//! Planning core of a 2D chart renderer: tick positions, stacked-area strip
//! geometry, line-width emulation, the bundle table and the per-frame draw
//! plan, all over exact integer coordinates.

pub mod area;
pub mod axes;
pub mod bundle;
pub mod error;
pub mod frame;
pub mod job;
pub mod line;
pub mod program;
pub mod renderer;
pub mod store;
pub mod ticks;
pub mod vertices;
