//! Camera shake driven by a decaying trauma value.
//!
//! A shaky camera follows one undisturbed ("pure") camera. While its trauma is
//! above zero it is displaced from the pure pose by coherent noise; when the
//! trauma has decayed to zero it snaps back onto the pure pose.
//!
//! Every number that crosses this library's boundary is a [`Scalar`]: a
//! single-precision value held by its IEEE-754 encoding. The library decides
//! and compares on encodings, exactly; whoever drives it does the rounding
//! arithmetic and hands the results in.

pub mod channels;
pub mod scalar;
pub mod shake;
pub mod shaker;
pub mod transform;
pub mod trauma;

pub use channels::{NoiseChannels, NoiseTables};
pub use scalar::Scalar;
pub use shake::{ShakeAction, ShakeError, ShakyCamera};
pub use shaker::{CameraShakePreset, CameraShaker2d};
pub use transform::{Rotation, Transform, Translation};
pub use trauma::Trauma;
