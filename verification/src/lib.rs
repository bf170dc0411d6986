//! Element composition and rendering for a retained-mode interface toolkit.
//!
//! A view builds a tree of elements in every frame. Each element goes through
//! three passes: `initialize` recovers its state, `layout` submits its style
//! to the layout solver, and `paint` issues draw calls within the bounds that
//! the solver resolved. Styles cascade by overlay: a base refinement, then
//! the refinements for the hovered and for the pressed state where they
//! apply. Images are fetched off the render thread; a paint pass polls the
//! resource cache and either paints what is there or defers to a later
//! frame.
//!
//! The library performs no input or output. What an element asks for is
//! recorded in the [`context::ViewContext`], and the host that owns the
//! window, the solver and the paint backend carries it out.
//!
//! - [`geometry`]: lengths, points, sizes, bounds and corner radii.
//! - [`style`]: styles, refinements and their overlay.
//! - [`resource`]: the deduplicating resource cache.
//! - [`context`]: the view context.
//! - [`element`]: the element protocol, identity kinds and capabilities.
//! - [`model`]: the element tree as a value, and the meaning of the passes.
//! - [`div`]: the container element and children of containers.
//! - [`img`]: the image element.
//! - [`panes`]: panes and pane groups.
//! - [`assets`]: which assets are fonts.

pub mod assets;
pub mod context;
pub mod div;
pub mod element;
pub mod geometry;
pub mod img;
pub mod model;
pub mod panes;
pub mod resource;
pub mod style;
