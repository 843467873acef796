//! The settings of the whole process.

use vstd::prelude::*;
use vstd::string::StringExecFns;
use crate::spatial_maker::depth::DepthConfig;

verus! {

/// How a photo is made spatial.
#[derive(Clone, Debug)]
pub struct SpatialConfig {
    /// The size of the depth model: `s`, `b` or `l`.
    pub encoder_size: String,
    /// How far, in pixels, the nearest pixels are moved.
    pub max_disparity: u32,
    /// The length, in pixels, that the shorter side is brought to for the
    /// depth model.
    pub target_depth_size: u32,
    /// Whether Apple's inference engine is used where it exists.
    pub use_coreml: bool,
}

impl Default for SpatialConfig {
    fn default() -> (config: Self)
        ensures
            config.encoder_size@ == "s"@,
            config.max_disparity == 30,
            config.target_depth_size == 518,
            config.use_coreml,
    {
        SpatialConfig {
            encoder_size: String::from_str("s"),
            max_disparity: 30,
            target_depth_size: 518,
            use_coreml: true,
        }
    }
}

impl SpatialConfig {
    /// The settings of the depth estimation that this configuration asks for.
    pub fn depth_config(&self) -> (depth: DepthConfig)
        ensures
            depth.encoder_size@ == self.encoder_size@,
            depth.target_size == self.target_depth_size,
            depth.use_coreml == self.use_coreml,
    {
        DepthConfig {
            encoder_size: self.encoder_size.clone(),
            target_size: self.target_depth_size,
            use_coreml: self.use_coreml,
        }
    }
}

} // verus!
