//! The failures that a build can end in.

use vstd::prelude::*;
use vstd::string::StringExecFns;

verus! {

/// Why a build failed. The variant is the stable part; the text it carries is
/// for the reader of a log.
#[derive(Debug, Clone, PartialEq, Eq)]
pub enum BuilderError {
    /// The image reference does not parse.
    InvalidImageRef(String),
    /// A registry or transport failure that is none of the three below.
    Registry(String),
    /// The registry answered 401.
    AuthFailed(String),
    /// The manifest request was answered 404.
    ImageNotFound(String),
    /// The image index has no entry for the platform asked for.
    PlatformNotAvailable(String),
    /// A layer is no gzipped tar, or could not be unpacked.
    LayerExtraction(String),
    /// An entry cannot be written into a newc archive.
    CpioGeneration(String),
    /// The encoder failed.
    Compression(String),
    /// A filesystem failure.
    Io(String),
    /// A manifest is no valid JSON document.
    Json(String),
}

impl BuilderError {
    /// The text that the variant carries.
    pub open spec fn detail(&self) -> Seq<char> {
        match self {
            BuilderError::InvalidImageRef(s) => s@,
            BuilderError::Registry(s) => s@,
            BuilderError::AuthFailed(s) => s@,
            BuilderError::ImageNotFound(s) => s@,
            BuilderError::PlatformNotAvailable(s) => s@,
            BuilderError::LayerExtraction(s) => s@,
            BuilderError::CpioGeneration(s) => s@,
            BuilderError::Compression(s) => s@,
            BuilderError::Io(s) => s@,
            BuilderError::Json(s) => s@,
        }
    }

    /// The words that introduce the detail in a message, one set per variant.
    pub open spec fn heading(&self) -> Seq<char> {
        match self {
            BuilderError::InvalidImageRef(_) => "Failed to parse image reference: "@,
            BuilderError::Registry(_) => "Registry error: "@,
            BuilderError::AuthFailed(_) => "Authentication failed: "@,
            BuilderError::ImageNotFound(_) => "Image not found: "@,
            BuilderError::PlatformNotAvailable(_) => "Platform not available: "@,
            BuilderError::LayerExtraction(_) => "Layer extraction failed: "@,
            BuilderError::CpioGeneration(_) => "CPIO generation failed: "@,
            BuilderError::Compression(_) => "Compression failed: "@,
            BuilderError::Io(_) => "IO error: "@,
            BuilderError::Json(_) => "JSON parsing error: "@,
        }
    }

    /// The one-line message: the variant's heading, then its detail.
    pub fn message(&self) -> (text: String)
        ensures
            text@ == self.heading() + self.detail(),
    {
        let (heading, detail) = match self {
            BuilderError::InvalidImageRef(s) => ("Failed to parse image reference: ", s),
            BuilderError::Registry(s) => ("Registry error: ", s),
            BuilderError::AuthFailed(s) => ("Authentication failed: ", s),
            BuilderError::ImageNotFound(s) => ("Image not found: ", s),
            BuilderError::PlatformNotAvailable(s) => ("Platform not available: ", s),
            BuilderError::LayerExtraction(s) => ("Layer extraction failed: ", s),
            BuilderError::CpioGeneration(s) => ("CPIO generation failed: ", s),
            BuilderError::Compression(s) => ("Compression failed: ", s),
            BuilderError::Io(s) => ("IO error: ", s),
            BuilderError::Json(s) => ("JSON parsing error: ", s),
        };
        let mut text = String::from_str(heading);
        text.append(detail.as_str());
        text
    }
}

} // verus!
