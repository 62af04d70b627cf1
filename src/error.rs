use vstd::prelude::*;

verus! {

/// The stage of a shader pipeline that a compiler diagnostic belongs to.
#[derive(Debug, Clone, Copy, PartialEq, Eq, Structural)]
pub enum ShaderStage {
    Vertex,
    Fragment,
}

/// Every failure that the resource layer reports.
#[derive(Debug, Clone, PartialEq, Eq)]
pub enum Error {
    /// Pixel data whose length disagrees with the declared size and format.
    SizeMismatch,
    /// A render-target attachment that is missing, out of range or incompatible.
    InvalidAttachment,
    /// A shader stage failed to compile; `log` is the compiler's output.
    ShaderCompileError { stage: ShaderStage, log: String },
    /// The program failed to link; `log` is the linker's output.
    ShaderLinkError { log: String },
    /// A uniform or attribute name that the compiled program does not have.
    UnknownBinding { name: String },
    /// The device cannot provide what was asked (no object handle left).
    DeviceError,
}

} // verus!
