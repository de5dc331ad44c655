//! Core of a Monte Carlo path tracer: the pixel canvas and its image encoding,
//! the tagged intersection results and root classification of implicit
//! surfaces, the path-depth rule of the integrator, the scene containers, and
//! the material and emitter kinds that carry no numeric state.

pub mod bsdf;
pub mod canvas;
pub mod geometry;
pub mod hitable_list;
pub mod light;
pub mod ppm;
pub mod query;
pub mod renderer;
pub mod scene;

pub use bsdf::{
    BlackBodyBsdf, BlackBodyBsdfQuerySampler, SimpleDielectricBsdfQuerySampler,
    SimpleLambertianBsdfQuerySampler, SimpleMetalBsdfQuerySampler,
};
pub use canvas::{Canvas, CanvasView, Rgba};
pub use geometry::{choose_root, DiscriminantSign, Root, RootChoice};
pub use hitable_list::HitableList;
pub use light::NoLight;
pub use ppm::encode_ppm;
pub use query::{IntersectionData, IntersectionResult, Reason};
pub use renderer::{path_step, PathStep};
pub use scene::Scene;
