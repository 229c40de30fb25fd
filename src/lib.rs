//! Motion-sensing core of a pointer-speed overlay: event normalisation,
//! speed estimation, adaptive smoothing, a hysteresis visibility switch and
//! the mapping from speed to render parameters.

pub mod animations;
pub mod chain;
pub mod logging;
pub mod models;
pub mod monitor;
pub mod smoothing;
pub mod visibility;
