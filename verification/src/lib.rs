//! The decision logic of a path-planning workbench: the views of its top bar,
//! the figures drawn on its canvas, and the choice of what its browsers show.
pub mod tabs;
pub mod polygon;
pub mod canvas;
pub mod browse;
pub mod theme;
