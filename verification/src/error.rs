//! Construction-time error taxonomy.
//!
//! Every variant is fatal: it is reported to the caller of the
//! construction entry point and the application does not start. No error
//! conditions exist for the steady-state event-handling phase.

use vstd::prelude::*;

verus! {

/// A fatal construction failure.
#[derive(Clone, PartialEq, Eq, Debug)]
pub enum BuildError {
    /// No element in the hosting document matches the surface identifier.
    SurfaceNotFound,
    /// The surface cannot produce the requested GPU rendering context.
    ContextUnavailable,
    /// A shader stage failed to compile; carries the compiler diagnostic.
    ShaderCompileError { diagnostic: String },
    /// The program failed to link; carries the linker diagnostic.
    ShaderLinkError { diagnostic: String },
    /// The GPU buffer object could not be created.
    BufferAllocationError,
    /// The required "translation" uniform location could not be resolved.
    UniformResolutionError,
}

/// Mathematical model of `BuildError`, with diagnostics as character
/// sequences; contracts state errors in terms of this model.
pub enum BuildErrorView {
    SurfaceNotFound,
    ContextUnavailable,
    ShaderCompileError { diagnostic: Seq<char> },
    ShaderLinkError { diagnostic: Seq<char> },
    BufferAllocationError,
    UniformResolutionError,
}

impl View for BuildError {
    type V = BuildErrorView;

    open spec fn view(&self) -> BuildErrorView {
        match self {
            BuildError::SurfaceNotFound => BuildErrorView::SurfaceNotFound,
            BuildError::ContextUnavailable => BuildErrorView::ContextUnavailable,
            BuildError::ShaderCompileError { diagnostic } => BuildErrorView::ShaderCompileError {
                diagnostic: diagnostic@,
            },
            BuildError::ShaderLinkError { diagnostic } => BuildErrorView::ShaderLinkError {
                diagnostic: diagnostic@,
            },
            BuildError::BufferAllocationError => BuildErrorView::BufferAllocationError,
            BuildError::UniformResolutionError => BuildErrorView::UniformResolutionError,
        }
    }
}

} // verus!
