//! Evaluation core of a node-based graphics pipeline: the scene graph that a
//! node graph evaluates to, the nodes that build it from a footprint, the
//! adapters that erase and recover value types at node boundaries, and the
//! lowering of a scene into a vector output tree.

pub mod any;
pub mod graphic_element;
pub mod node;
pub mod opaque;
pub mod ops;
pub mod properties_panel_message;
pub mod raster;
pub mod renderer;
pub mod transform;
pub mod vector;
