//! Planning logic behind a handful of 3D viewer demos.
//!
//! The demos load models, swap their materials for custom ones and draw a
//! small overlay. What they decide along the way is kept here, apart from
//! the engine that carries it out:
//!
//! - [`load_gate`]: when a loaded scene is assembled, and that it happens
//!   once;
//! - [`scene`]: which entities a forest of scene nodes turns into, and under
//!   which parents;
//! - [`material`]: the binding tables of the custom materials and the bytes
//!   of their uniform buffers;
//! - [`fonts`]: where a custom font goes in the fallback order of each family.

pub mod fonts;
pub mod load_gate;
pub mod material;
pub mod scene;
