//! Construction state machine.
//!
//! Construction runs once at startup: locate the drawing surface, obtain
//! the GPU context, compile both shaders, link them, resolve the
//! "translation" uniform, allocate the vertex buffer and upload the fixed
//! geometry. Each of those acts on the live host, so the host performs
//! them; every decision — the order of the steps, when a report is
//! accepted, and which fatal error ends construction otherwise — is the
//! machine below. The host layer asks `request_of` what to do, does it,
//! and feeds the report back through `step`.

use vstd::prelude::*;

verus! {

use crate::error::{BuildError, BuildErrorView};
use crate::shader::{
    ShaderStage,
    compile_shader,
    link_program,
    spec_compile_diagnostic,
    spec_link_diagnostic,
};

/// The construction phases, in the order they run.
#[derive(Clone, Copy, PartialEq, Eq, Structural, Debug)]
pub enum BuildPhase {
    /// Locate the drawing surface by its identifier.
    NeedSurface,
    /// Obtain the GPU rendering context from the surface.
    NeedContext,
    /// Compile the embedded vertex shader.
    NeedVertexShader,
    /// Compile the embedded fragment shader.
    NeedFragmentShader,
    /// Attach both shaders to a fresh program object and link it.
    NeedLink,
    /// Resolve the "translation" uniform location, once.
    NeedUniform,
    /// Allocate the GPU buffer object.
    NeedBuffer,
    /// Bind the buffer and upload the fixed vertex sequence, once.
    NeedUpload,
    /// Construction is complete.
    Ready,
}

/// What the host must do in a phase. The arguments — shader sources, the
/// uniform name, the vertex data — are this library's fixed values.
#[derive(Clone, Copy, PartialEq, Eq, Structural, Debug)]
pub enum HostRequest {
    /// Look the drawing surface up in the hosting document.
    LookupSurface,
    /// Request the GPU rendering context from the surface.
    AcquireContext,
    /// Create, source and compile the shader of the given stage, with
    /// the source `spec_shader_source` fixes for it.
    CompileShader { stage: ShaderStage },
    /// Create a program object, attach both shaders, link.
    LinkProgram,
    /// Resolve the location of the "translation" uniform.
    ResolveUniform,
    /// Create the GPU buffer object.
    AllocateBuffer,
    /// Bind the buffer and upload `spec_vertex_tenths`, marked static.
    UploadVertices,
    /// Nothing is left to build: draw the first frame and wait for input.
    Render,
}

/// The host's report of one completed request.
#[derive(Clone, PartialEq, Eq, Debug)]
pub enum HostOutcome {
    /// Whether an element with the surface identifier exists.
    SurfaceLookup { found: bool },
    /// Whether the surface produced the GPU context.
    ContextRequest { available: bool },
    /// Whether the shader object was created and compiled, and the
    /// compiler's info log, if any.
    ShaderCompiled { created: bool, status: bool, log: Option<String> },
    /// Whether the program object was created and linked, and the
    /// linker's info log, if any.
    ProgramLinked { created: bool, status: bool, log: Option<String> },
    /// Whether the uniform location was resolved.
    UniformResolved { found: bool },
    /// Whether the buffer object was created.
    BufferAllocated { created: bool },
    /// The vertex upload ran; it reports no failure.
    VerticesUploaded,
}

/// The request each phase puts to the host.
pub open spec fn spec_request_of(p: BuildPhase) -> HostRequest {
    match p {
        BuildPhase::NeedSurface => HostRequest::LookupSurface,
        BuildPhase::NeedContext => HostRequest::AcquireContext,
        BuildPhase::NeedVertexShader => HostRequest::CompileShader { stage: ShaderStage::Vertex },
        BuildPhase::NeedFragmentShader => HostRequest::CompileShader {
            stage: ShaderStage::Fragment,
        },
        BuildPhase::NeedLink => HostRequest::LinkProgram,
        BuildPhase::NeedUniform => HostRequest::ResolveUniform,
        BuildPhase::NeedBuffer => HostRequest::AllocateBuffer,
        BuildPhase::NeedUpload => HostRequest::UploadVertices,
        BuildPhase::Ready => HostRequest::Render,
    }
}

/// Ask what the host must do in the given phase.
pub fn request_of(p: BuildPhase) -> (r: HostRequest)
    ensures
        r == spec_request_of(p),
{
    match p {
        BuildPhase::NeedSurface => HostRequest::LookupSurface,
        BuildPhase::NeedContext => HostRequest::AcquireContext,
        BuildPhase::NeedVertexShader => HostRequest::CompileShader { stage: ShaderStage::Vertex },
        BuildPhase::NeedFragmentShader => HostRequest::CompileShader {
            stage: ShaderStage::Fragment,
        },
        BuildPhase::NeedLink => HostRequest::LinkProgram,
        BuildPhase::NeedUniform => HostRequest::ResolveUniform,
        BuildPhase::NeedBuffer => HostRequest::AllocateBuffer,
        BuildPhase::NeedUpload => HostRequest::UploadVertices,
        BuildPhase::Ready => HostRequest::Render,
    }
}

/// Whether a report answers the request of the given phase.
pub open spec fn outcome_fits(p: BuildPhase, o: HostOutcome) -> bool {
    match p {
        BuildPhase::NeedSurface => o is SurfaceLookup,
        BuildPhase::NeedContext => o is ContextRequest,
        BuildPhase::NeedVertexShader => o is ShaderCompiled,
        BuildPhase::NeedFragmentShader => o is ShaderCompiled,
        BuildPhase::NeedLink => o is ProgramLinked,
        BuildPhase::NeedUniform => o is UniformResolved,
        BuildPhase::NeedBuffer => o is BufferAllocated,
        BuildPhase::NeedUpload => o is VerticesUploaded,
        BuildPhase::Ready => false,
    }
}

/// Whether a report is a success, i.e. lets construction go on.
pub open spec fn successful_outcome(o: HostOutcome) -> bool {
    match o {
        HostOutcome::SurfaceLookup { found } => found,
        HostOutcome::ContextRequest { available } => available,
        HostOutcome::ShaderCompiled { created, status, .. } => created && status,
        HostOutcome::ProgramLinked { created, status, .. } => created && status,
        HostOutcome::UniformResolved { found } => found,
        HostOutcome::BufferAllocated { created } => created,
        HostOutcome::VerticesUploaded => true,
    }
}

/// The phase that follows a phase when its report is a success.
pub open spec fn next_phase(p: BuildPhase) -> BuildPhase {
    match p {
        BuildPhase::NeedSurface => BuildPhase::NeedContext,
        BuildPhase::NeedContext => BuildPhase::NeedVertexShader,
        BuildPhase::NeedVertexShader => BuildPhase::NeedFragmentShader,
        BuildPhase::NeedFragmentShader => BuildPhase::NeedLink,
        BuildPhase::NeedLink => BuildPhase::NeedUniform,
        BuildPhase::NeedUniform => BuildPhase::NeedBuffer,
        BuildPhase::NeedBuffer => BuildPhase::NeedUpload,
        BuildPhase::NeedUpload => BuildPhase::Ready,
        BuildPhase::Ready => BuildPhase::Ready,
    }
}

/// The machine's transition: the next phase on a success, the fatal
/// error of the taxonomy on a failure. Reports that answer no request of
/// the phase do not arise; the function leaves the phase unchanged there.
pub open spec fn spec_step(p: BuildPhase, o: HostOutcome) -> Result<BuildPhase, BuildErrorView> {
    match (p, o) {
        (BuildPhase::NeedSurface, HostOutcome::SurfaceLookup { found }) => if found {
            Result::Ok(BuildPhase::NeedContext)
        } else {
            Result::Err(BuildErrorView::SurfaceNotFound)
        },
        (BuildPhase::NeedContext, HostOutcome::ContextRequest { available }) => if available {
            Result::Ok(BuildPhase::NeedVertexShader)
        } else {
            Result::Err(BuildErrorView::ContextUnavailable)
        },
        (
            BuildPhase::NeedVertexShader,
            HostOutcome::ShaderCompiled { created, status, log },
        ) => if created && status {
            Result::Ok(BuildPhase::NeedFragmentShader)
        } else {
            Result::Err(
                BuildErrorView::ShaderCompileError {
                    diagnostic: spec_compile_diagnostic(created, log),
                },
            )
        },
        (
            BuildPhase::NeedFragmentShader,
            HostOutcome::ShaderCompiled { created, status, log },
        ) => if created && status {
            Result::Ok(BuildPhase::NeedLink)
        } else {
            Result::Err(
                BuildErrorView::ShaderCompileError {
                    diagnostic: spec_compile_diagnostic(created, log),
                },
            )
        },
        (BuildPhase::NeedLink, HostOutcome::ProgramLinked { created, status, log }) => if created
            && status {
            Result::Ok(BuildPhase::NeedUniform)
        } else {
            Result::Err(
                BuildErrorView::ShaderLinkError { diagnostic: spec_link_diagnostic(created, log) },
            )
        },
        (BuildPhase::NeedUniform, HostOutcome::UniformResolved { found }) => if found {
            Result::Ok(BuildPhase::NeedBuffer)
        } else {
            Result::Err(BuildErrorView::UniformResolutionError)
        },
        (BuildPhase::NeedBuffer, HostOutcome::BufferAllocated { created }) => if created {
            Result::Ok(BuildPhase::NeedUpload)
        } else {
            Result::Err(BuildErrorView::BufferAllocationError)
        },
        (BuildPhase::NeedUpload, HostOutcome::VerticesUploaded) => Result::Ok(BuildPhase::Ready),
        _ => Result::Ok(p),
    }
}

/// Take one construction step: accept the host's report of the current
/// phase's request and decide the next phase, or the fatal error.
pub fn step(phase: BuildPhase, outcome: HostOutcome) -> (r: Result<BuildPhase, BuildError>)
    requires
        outcome_fits(phase, outcome),
    ensures
        r matches Ok(q) ==> spec_step(phase, outcome) == Result::<
            BuildPhase,
            BuildErrorView,
        >::Ok(q),
        r matches Err(e) ==> spec_step(phase, outcome) == Result::<
            BuildPhase,
            BuildErrorView,
        >::Err(e@),
{
    match (phase, outcome) {
        (BuildPhase::NeedSurface, HostOutcome::SurfaceLookup { found }) => {
            if found {
                Result::Ok(BuildPhase::NeedContext)
            } else {
                Result::Err(BuildError::SurfaceNotFound)
            }
        },
        (BuildPhase::NeedContext, HostOutcome::ContextRequest { available }) => {
            if available {
                Result::Ok(BuildPhase::NeedVertexShader)
            } else {
                Result::Err(BuildError::ContextUnavailable)
            }
        },
        (BuildPhase::NeedVertexShader, HostOutcome::ShaderCompiled { created, status, log }) => {
            match compile_shader(created, status, log) {
                Result::Ok(_) => Result::Ok(BuildPhase::NeedFragmentShader),
                Result::Err(e) => Result::Err(e),
            }
        },
        (BuildPhase::NeedFragmentShader, HostOutcome::ShaderCompiled { created, status, log }) => {
            match compile_shader(created, status, log) {
                Result::Ok(_) => Result::Ok(BuildPhase::NeedLink),
                Result::Err(e) => Result::Err(e),
            }
        },
        (BuildPhase::NeedLink, HostOutcome::ProgramLinked { created, status, log }) => {
            match link_program(created, status, log) {
                Result::Ok(_) => Result::Ok(BuildPhase::NeedUniform),
                Result::Err(e) => Result::Err(e),
            }
        },
        (BuildPhase::NeedUniform, HostOutcome::UniformResolved { found }) => {
            if found {
                Result::Ok(BuildPhase::NeedBuffer)
            } else {
                Result::Err(BuildError::UniformResolutionError)
            }
        },
        (BuildPhase::NeedBuffer, HostOutcome::BufferAllocated { created }) => {
            if created {
                Result::Ok(BuildPhase::NeedUpload)
            } else {
                Result::Err(BuildError::BufferAllocationError)
            }
        },
        (BuildPhase::NeedUpload, HostOutcome::VerticesUploaded) => {
            Result::Ok(BuildPhase::Ready)
        },
        _ => {
            proof {
                assert(false);
            }
            vstd::pervasive::unreached()
        },
    }
}

/// A successful report advances the machine to the next phase of the
/// fixed order, with no error.
pub proof fn lemma_successful_step(p: BuildPhase, o: HostOutcome)
    requires
        p != BuildPhase::Ready,
        outcome_fits(p, o),
        successful_outcome(o),
    ensures
        spec_step(p, o) == Result::<BuildPhase, BuildErrorView>::Ok(next_phase(p)),
{
}

/// Replay host reports from index `i` on: the phase the machine reaches,
/// or the first error it stops with.
pub open spec fn spec_run_from(p: BuildPhase, outs: Seq<HostOutcome>, i: int) -> Result<
    BuildPhase,
    BuildErrorView,
>
    decreases outs.len() - i,
{
    if i < 0 || i >= outs.len() {
        Result::Ok(p)
    } else {
        match spec_step(p, outs[i]) {
            Result::Ok(q) => spec_run_from(q, outs, i + 1),
            Result::Err(e) => Result::Err(e),
        }
    }
}

/// The phase the machine is in before the i-th of the eight construction
/// steps.
pub open spec fn phase_at(i: int) -> BuildPhase {
    if i <= 0 {
        BuildPhase::NeedSurface
    } else if i == 1 {
        BuildPhase::NeedContext
    } else if i == 2 {
        BuildPhase::NeedVertexShader
    } else if i == 3 {
        BuildPhase::NeedFragmentShader
    } else if i == 4 {
        BuildPhase::NeedLink
    } else if i == 5 {
        BuildPhase::NeedUniform
    } else if i == 6 {
        BuildPhase::NeedBuffer
    } else if i == 7 {
        BuildPhase::NeedUpload
    } else {
        BuildPhase::Ready
    }
}

/// On a valid host — the surface exists and yields a GPU context, both
/// shaders compile, the program links, the uniform resolves, the buffer
/// allocates and the upload runs — construction goes through all eight
/// steps and ends Ready, with no error.
pub proof fn lemma_valid_host_construction(outs: Seq<HostOutcome>)
    requires
        outs.len() == 8,
        forall|i: int| 0 <= i < 8 ==> outcome_fits(phase_at(i), #[trigger] outs[i]),
        forall|i: int| 0 <= i < 8 ==> successful_outcome(#[trigger] outs[i]),
    ensures
        spec_run_from(BuildPhase::NeedSurface, outs, 0) == Result::<
            BuildPhase,
            BuildErrorView,
        >::Ok(BuildPhase::Ready),
{
    assert forall|i: int| 0 <= i < 8 implies spec_step(phase_at(i), #[trigger] outs[i])
        == Result::<BuildPhase, BuildErrorView>::Ok(phase_at(i + 1)) by {
        lemma_successful_step(phase_at(i), outs[i]);
    }
    assert(spec_run_from(BuildPhase::NeedSurface, outs, 0) == spec_run_from(
        BuildPhase::NeedContext,
        outs,
        1,
    ));
    assert(spec_run_from(BuildPhase::NeedContext, outs, 1) == spec_run_from(
        BuildPhase::NeedVertexShader,
        outs,
        2,
    ));
    assert(spec_run_from(BuildPhase::NeedVertexShader, outs, 2) == spec_run_from(
        BuildPhase::NeedFragmentShader,
        outs,
        3,
    ));
    assert(spec_run_from(BuildPhase::NeedFragmentShader, outs, 3) == spec_run_from(
        BuildPhase::NeedLink,
        outs,
        4,
    ));
    assert(spec_run_from(BuildPhase::NeedLink, outs, 4) == spec_run_from(
        BuildPhase::NeedUniform,
        outs,
        5,
    ));
    assert(spec_run_from(BuildPhase::NeedUniform, outs, 5) == spec_run_from(
        BuildPhase::NeedBuffer,
        outs,
        6,
    ));
    assert(spec_run_from(BuildPhase::NeedBuffer, outs, 6) == spec_run_from(
        BuildPhase::NeedUpload,
        outs,
        7,
    ));
    assert(spec_run_from(BuildPhase::NeedUpload, outs, 7) == spec_run_from(
        BuildPhase::Ready,
        outs,
        8,
    ));
}

/// A vertex shader that fails to compile stops construction with a
/// compile error, and its diagnostic is non-empty whenever the host's
/// log, where it offers one, is itself non-empty.
pub proof fn lemma_vertex_compile_failure(created: bool, status: bool, log: Option<String>)
    requires
        !(created && status),
        log matches Option::Some(l) ==> l@.len() > 0,
    ensures
        spec_step(
            BuildPhase::NeedVertexShader,
            HostOutcome::ShaderCompiled { created, status, log },
        ) matches Result::Err(BuildErrorView::ShaderCompileError { diagnostic }) && diagnostic.len()
            > 0,
{
    crate::shader::lemma_compile_diagnostic_nonempty(created, log);
}

} // verus!
