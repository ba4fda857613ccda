//! A capability-safe handle layer over the Gmsh geometry and meshing engine.
//!
//! The engine keeps one global "current model" register, hands out bare
//! integer tags and reports failures as small integer status codes. This
//! library holds the decisions that keep those hazards contained: the
//! mapping of status codes to error kinds, per-kind tags, closed groups
//! of tag kinds, the session and model lifecycle, and the protocol that
//! selects a model before any call is made on it.
//!
//! The engine itself is reached through the [`Backend`] trait, one call at a
//! time; every function here is verified for whatever the engine answers.

pub mod backend;
pub mod err;
pub mod tags;
pub mod groups;
pub mod model;
pub mod session;
pub mod shared;
pub mod occ;
pub mod laws;

pub use backend::{Backend, Call, AUTO_TAG};
pub use err::{GmshError, GmshResult};
pub use groups::{BasicShape, CurveOrSurface, GeneralShape};
pub use model::{GeoModel, KernelType, Model, ModelHandle, NativeKernel, OCCKernel, OccModel};
pub use session::{Gmsh, Gui, Selection};
pub use tags::{CurveTag, PointTag, ShellTag, SurfaceTag, VolumeTag, WireTag};
