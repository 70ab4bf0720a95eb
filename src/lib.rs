//! Atmospheric cosmic-ray flux queries: particle identities, local
//! geometries, observation dates, and the broadcasting of a flux query over
//! energy and zenith-angle samples.

mod context;
mod date;
mod error;
mod flux;
mod geometry;
mod particles;
mod text;

pub use context::Context;
pub use date::{Date, DateArg};
pub use error::{Error, ErrorKind};
pub use flux::{
    given_or_derived, resolve, size_of_shape, Broadcast, Cell, FluxPlan, Overrides, Parameters,
};
pub use geometry::{Geometry, GeometryParameter};
pub use particles::{Particle, ParticleArg};
