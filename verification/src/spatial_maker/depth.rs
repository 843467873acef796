//! The settings of the depth estimation.

use vstd::prelude::*;
use vstd::string::StringExecFns;

verus! {

/// The mean of each colour channel of the pictures that the models were
/// trained on, in thousandths.
pub const IMAGENET_MEAN: [u32; 3] = [485, 456, 406];

/// The standard deviation of each colour channel of those pictures, in
/// thousandths.
pub const IMAGENET_STD: [u32; 3] = [229, 224, 225];

/// How depth is estimated.
#[derive(Clone, Debug)]
pub struct DepthConfig {
    /// The size of the model: `s`, `b` or `l`.
    pub encoder_size: String,
    /// The length, in pixels, that the shorter side of the input is brought to.
    pub target_size: u32,
    /// Whether Apple's inference engine is used where it exists.
    pub use_coreml: bool,
}

impl Default for DepthConfig {
    fn default() -> (config: Self)
        ensures
            config.encoder_size@ == "s"@,
            config.target_size == 518,
            config.use_coreml,
    {
        DepthConfig { encoder_size: String::from_str("s"), target_size: 518, use_coreml: true }
    }
}

} // verus!
