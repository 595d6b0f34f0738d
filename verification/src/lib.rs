//! Background removal: the verified core of a saliency-mask pipeline.
//!
//! An image is stretched to the model's grid and laid out as a tensor, the
//! model's scores are quantised into a mask at the image's size, and the mask
//! becomes the image's alpha channel. Decoding, inference and encoding are
//! left to the caller.

pub mod error;
pub mod model;
pub mod paths;
pub mod pipeline;
pub mod raster;
pub mod resample;
pub mod scalar;
pub mod tensor;

pub use crate::error::RemoveBgError;
pub use crate::paths::remove_background;
