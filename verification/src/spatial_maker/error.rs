//! The errors of the photo pipeline.

use vstd::prelude::*;
use vstd::string::StringExecFns;

verus! {

/// Why an operation on a picture, a model or a depth map failed.
#[derive(Clone, Debug)]
pub enum SpatialError {
    /// A model could not be found, loaded or run.
    ModelError(String),
    /// A picture could not be read, resized or written.
    ImageError(String),
    /// A tensor had the wrong shape or could not be converted.
    TensorError(String),
    /// A file could not be read or written.
    IoError(String),
    /// A setting is not valid.
    ConfigError(String),
    /// The inference runtime failed.
    OrtError(String),
    /// Anything else.
    Other(String),
}

/// The result of an operation that can fail with a [`SpatialError`].
pub type SpatialResult<T> = Result<T, SpatialError>;

/// The kinds of [`SpatialError`].
#[derive(Clone, Copy, Debug, PartialEq, Eq, Structural)]
pub enum SpatialErrorKind {
    Model,
    Image,
    Tensor,
    Io,
    Config,
    Ort,
    Other,
}

impl View for SpatialError {
    type V = (SpatialErrorKind, Seq<char>);

    /// The kind of the error and the detail that it carries.
    open spec fn view(&self) -> (SpatialErrorKind, Seq<char>) {
        match self {
            SpatialError::ModelError(m) => (SpatialErrorKind::Model, m@),
            SpatialError::ImageError(m) => (SpatialErrorKind::Image, m@),
            SpatialError::TensorError(m) => (SpatialErrorKind::Tensor, m@),
            SpatialError::IoError(m) => (SpatialErrorKind::Io, m@),
            SpatialError::ConfigError(m) => (SpatialErrorKind::Config, m@),
            SpatialError::OrtError(m) => (SpatialErrorKind::Ort, m@),
            SpatialError::Other(m) => (SpatialErrorKind::Other, m@),
        }
    }
}

/// The words in front of the detail of an error of this kind.
pub open spec fn kind_prefix(kind: SpatialErrorKind) -> Seq<char> {
    match kind {
        SpatialErrorKind::Model => "Model error: "@,
        SpatialErrorKind::Image => "Image error: "@,
        SpatialErrorKind::Tensor => "Tensor error: "@,
        SpatialErrorKind::Io => "I/O error: "@,
        SpatialErrorKind::Config => "Configuration error: "@,
        SpatialErrorKind::Ort => "ONNX Runtime error: "@,
        SpatialErrorKind::Other => "Error: "@,
    }
}

impl SpatialError {
    /// The text shown to the user: a prefix that names the kind, then the
    /// detail.
    pub fn message(&self) -> (text: String)
        ensures
            text@ == kind_prefix(self@.0) + self@.1,
    {
        match self {
            SpatialError::ModelError(m) => String::from_str("Model error: ").concat(m.as_str()),
            SpatialError::ImageError(m) => String::from_str("Image error: ").concat(m.as_str()),
            SpatialError::TensorError(m) => String::from_str("Tensor error: ").concat(m.as_str()),
            SpatialError::IoError(m) => String::from_str("I/O error: ").concat(m.as_str()),
            SpatialError::ConfigError(m) => String::from_str("Configuration error: ").concat(
                m.as_str(),
            ),
            SpatialError::OrtError(m) => String::from_str("ONNX Runtime error: ").concat(m.as_str()),
            SpatialError::Other(m) => String::from_str("Error: ").concat(m.as_str()),
        }
    }
}

} // verus!
