//! Making a photo spatial: settings, models, formats, and the rendering of
//! the second view.

pub mod config;
pub mod depth;
pub mod error;
pub mod image_loader;
pub mod model;
pub mod output;
pub mod stereo;
