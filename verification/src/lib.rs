//! Core, floating-point-free logic of a small physically based ray tracer:
//! image buffers, the in-place partition and the tree shape of bounding
//! volume hierarchies, sampler bookkeeping, and the decisions a scene
//! description drives (which integrator, sampler, material, texture,
//! surface or transform an entry stands for).

pub mod array2d;
pub mod bvh;
pub mod integrators;
pub mod mesh;
pub mod registry;
pub mod samplers;
pub mod scene_desc;
pub mod split;
pub mod surface_tree;
pub mod text;
pub mod utils;

pub use array2d::Array2d;
pub use registry::Registry;
pub use split::partition;
pub use utils::lerp;
