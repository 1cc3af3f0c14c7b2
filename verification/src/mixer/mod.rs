//! Sample interpolation and downmixing for the mixer.

pub mod interpolator;
pub mod downmix;
