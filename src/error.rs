use vstd::prelude::*;

use crate::capability::GlVersion;

verus! {

/// Every recoverable failure that the interface layer reports to its host.
#[derive(Debug, Clone, PartialEq, Eq)]
pub enum MuiError {
    /// A driver or shading-language version string lacks a leading
    /// `major.minor` pair.
    VersionStringUnparseable,
    /// The driver's version is below the supported minimum.
    DriverUnsupported(GlVersion),
    /// The driver predates an extension's promotion to core and does not
    /// offer that extension, which the layer cannot do without.
    MissingRequiredExtension(GlVersion),
    /// The windowing library could not create a window or context.
    ContextCreationFailed(String),
    /// A shader failed to compile or link; carries the driver's diagnostic.
    ShaderCompileFailed(String),
    /// An image could not be opened or decoded.
    ResourceDecodeFailed(String),
}

} // verus!
