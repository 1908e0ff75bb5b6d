//! Shader pipeline: the two embedded shader sources and the verified
//! classification of the host's compile and link reports.
//!
//! Compiling and linking happen on the GPU context, outside this library;
//! what is verified here is the decision the pipeline takes on each
//! report: when a stage is accepted, and which error, with which
//! diagnostic text, is produced when it is not. Compile and link failures
//! are kept distinct so callers can report accurate diagnostics.

use vstd::prelude::*;

verus! {

use crate::error::{BuildError, BuildErrorView};

/// The two shader stages of the pipeline.
#[derive(Clone, Copy, PartialEq, Eq, Structural, Debug)]
pub enum ShaderStage {
    Vertex,
    Fragment,
}

/// The embedded source of each stage: the vertex shader subtracts the
/// current offset out of each vertex position, the fragment shader emits
/// constant opaque white.
pub open spec fn spec_shader_source(stage: ShaderStage) -> Seq<char> {
    match stage {
        ShaderStage::Vertex => "attribute vec4 position;\nuniform vec2 translation;\nvoid main() {\n    gl_Position = vec4(\n        position.x - translation.x,\n        position.y - translation.y,\n        position.z,\n        position.w);\n}\n"@,
        ShaderStage::Fragment => "void main() {\n    gl_FragColor = vec4(1.0, 1.0, 1.0, 1.0);\n}\n"@,
    }
}

/// Hand out the embedded source text of a shader stage.
pub fn shader_source(stage: ShaderStage) -> (s: &'static str)
    ensures
        s@ == spec_shader_source(stage),
{
    match stage {
        ShaderStage::Vertex => "attribute vec4 position;\nuniform vec2 translation;\nvoid main() {\n    gl_Position = vec4(\n        position.x - translation.x,\n        position.y - translation.y,\n        position.z,\n        position.w);\n}\n",
        ShaderStage::Fragment => "void main() {\n    gl_FragColor = vec4(1.0, 1.0, 1.0, 1.0);\n}\n",
    }
}

/// Name of the uniform that is resolved once after linking and updated on
/// every frame.
pub fn uniform_name() -> (s: &'static str)
    ensures
        s@ == "translation"@,
{
    "translation"
}

/// The diagnostic a failed compilation carries: the compiler's log when
/// the host offers one, otherwise a fixed fallback text (one for a shader
/// object that could not be created, one for a compile that failed with
/// no log).
pub open spec fn spec_compile_diagnostic(created: bool, log: Option<String>) -> Seq<char> {
    if !created {
        "Unable to create shader object"@
    } else {
        match log {
            Option::Some(l) => l@,
            Option::None => "Unknown error creating shader"@,
        }
    }
}

/// The diagnostic a failed link carries, under the same fallback policy.
pub open spec fn spec_link_diagnostic(created: bool, log: Option<String>) -> Seq<char> {
    if !created {
        "Unable to create shader object"@
    } else {
        match log {
            Option::Some(l) => l@,
            Option::None => "Unknown error creating program object"@,
        }
    }
}

/// Classify the host's report of one shader-stage compilation: `created`
/// says whether the shader object could be created, `status` is the
/// compile status the context reports, `log` the compiler's info log, if
/// any. Accepted exactly when the object was created and compiled;
/// otherwise the compile error with its diagnostic.
pub fn compile_shader(created: bool, status: bool, log: Option<String>) -> (r: Result<
    (),
    BuildError,
>)
    ensures
        r is Ok <==> created && status,
        r matches Err(e) ==> e@ == (BuildErrorView::ShaderCompileError {
            diagnostic: spec_compile_diagnostic(created, log),
        }),
{
    if !created {
        Result::Err(
            BuildError::ShaderCompileError {
                diagnostic: "Unable to create shader object".to_owned(),
            },
        )
    } else if status {
        Result::Ok(())
    } else {
        match log {
            Option::Some(l) => Result::Err(BuildError::ShaderCompileError { diagnostic: l }),
            Option::None => Result::Err(
                BuildError::ShaderCompileError {
                    diagnostic: "Unknown error creating shader".to_owned(),
                },
            ),
        }
    }
}

/// Classify the host's report of the program link: `created` says whether
/// the program object could be created, `status` is the link status the
/// context reports, `log` the linker's info log, if any. Accepted exactly
/// when the object was created and linked; otherwise the link error with
/// its diagnostic.
pub fn link_program(created: bool, status: bool, log: Option<String>) -> (r: Result<
    (),
    BuildError,
>)
    ensures
        r is Ok <==> created && status,
        r matches Err(e) ==> e@ == (BuildErrorView::ShaderLinkError {
            diagnostic: spec_link_diagnostic(created, log),
        }),
{
    if !created {
        Result::Err(
            BuildError::ShaderLinkError { diagnostic: "Unable to create shader object".to_owned() },
        )
    } else if status {
        Result::Ok(())
    } else {
        match log {
            Option::Some(l) => Result::Err(BuildError::ShaderLinkError { diagnostic: l }),
            Option::None => Result::Err(
                BuildError::ShaderLinkError {
                    diagnostic: "Unknown error creating program object".to_owned(),
                },
            ),
        }
    }
}

/// A failed compilation always carries a non-empty diagnostic, provided
/// the host's log, where it offers one, is itself non-empty: an absent
/// log is replaced by a fixed non-empty fallback text.
pub proof fn lemma_compile_diagnostic_nonempty(created: bool, log: Option<String>)
    requires
        log matches Option::Some(l) ==> l@.len() > 0,
    ensures
        spec_compile_diagnostic(created, log).len() > 0,
{
    reveal_strlit("Unable to create shader object");
    reveal_strlit("Unknown error creating shader");
}

} // verus!
