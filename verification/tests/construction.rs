//! The construction state machine: the happy path, each fatal error, and
//! the diagnostic policy for compile and link failures.

use rust_webgl::app::App;
use rust_webgl::construction::{request_of, step, BuildPhase, HostOutcome, HostRequest};
use rust_webgl::error::BuildError;
use rust_webgl::shader::{compile_shader, link_program, shader_source, uniform_name, ShaderStage};
use rust_webgl::translation::Translation;

fn successful_outcomes() -> Vec<HostOutcome> {
    vec![
        HostOutcome::SurfaceLookup { found: true },
        HostOutcome::ContextRequest { available: true },
        HostOutcome::ShaderCompiled { created: true, status: true, log: None },
        HostOutcome::ShaderCompiled { created: true, status: true, log: None },
        HostOutcome::ProgramLinked { created: true, status: true, log: None },
        HostOutcome::UniformResolved { found: true },
        HostOutcome::BufferAllocated { created: true },
        HostOutcome::VerticesUploaded,
    ]
}

#[test]
fn construction_succeeds_on_valid_host() {
    let mut phase = BuildPhase::NeedSurface;
    for outcome in successful_outcomes() {
        phase = step(phase, outcome).expect("a valid host must not fail construction");
    }
    assert_eq!(phase, BuildPhase::Ready);
    let app = App::new();
    assert_eq!(app.translation, Translation { x: 0, y: 0 });
}

#[test]
fn construction_requests_in_order() {
    assert_eq!(request_of(BuildPhase::NeedSurface), HostRequest::LookupSurface);
    assert_eq!(request_of(BuildPhase::NeedContext), HostRequest::AcquireContext);
    assert_eq!(
        request_of(BuildPhase::NeedVertexShader),
        HostRequest::CompileShader { stage: ShaderStage::Vertex }
    );
    assert_eq!(
        request_of(BuildPhase::NeedFragmentShader),
        HostRequest::CompileShader { stage: ShaderStage::Fragment }
    );
    assert_eq!(request_of(BuildPhase::NeedLink), HostRequest::LinkProgram);
    assert_eq!(request_of(BuildPhase::NeedUniform), HostRequest::ResolveUniform);
    assert_eq!(request_of(BuildPhase::NeedBuffer), HostRequest::AllocateBuffer);
    assert_eq!(request_of(BuildPhase::NeedUpload), HostRequest::UploadVertices);
    assert_eq!(request_of(BuildPhase::Ready), HostRequest::Render);
}

#[test]
fn vertex_compile_failure_reports_diagnostic() {
    let mut phase = BuildPhase::NeedSurface;
    phase = step(phase, HostOutcome::SurfaceLookup { found: true }).unwrap();
    phase = step(phase, HostOutcome::ContextRequest { available: true }).unwrap();
    let r = step(
        phase,
        HostOutcome::ShaderCompiled {
            created: true,
            status: false,
            log: Some("ERROR: 0:4: 'vec4' : syntax error".to_string()),
        },
    );
    match r {
        Err(BuildError::ShaderCompileError { diagnostic }) => {
            assert!(!diagnostic.is_empty());
            assert_eq!(diagnostic, "ERROR: 0:4: 'vec4' : syntax error");
        }
        other => panic!("expected a compile error, got {:?}", other),
    }
}

#[test]
fn each_failure_maps_to_its_error() {
    assert_eq!(
        step(BuildPhase::NeedSurface, HostOutcome::SurfaceLookup { found: false }),
        Err(BuildError::SurfaceNotFound)
    );
    assert_eq!(
        step(BuildPhase::NeedContext, HostOutcome::ContextRequest { available: false }),
        Err(BuildError::ContextUnavailable)
    );
    assert_eq!(
        step(
            BuildPhase::NeedLink,
            HostOutcome::ProgramLinked {
                created: true,
                status: false,
                log: Some("mismatched varying interface".to_string()),
            }
        ),
        Err(BuildError::ShaderLinkError { diagnostic: "mismatched varying interface".to_string() })
    );
    assert_eq!(
        step(BuildPhase::NeedUniform, HostOutcome::UniformResolved { found: false }),
        Err(BuildError::UniformResolutionError)
    );
    assert_eq!(
        step(BuildPhase::NeedBuffer, HostOutcome::BufferAllocated { created: false }),
        Err(BuildError::BufferAllocationError)
    );
}

#[test]
fn fragment_compile_failure_is_a_compile_error() {
    let r = step(
        BuildPhase::NeedFragmentShader,
        HostOutcome::ShaderCompiled { created: true, status: false, log: None },
    );
    assert_eq!(
        r,
        Err(BuildError::ShaderCompileError {
            diagnostic: "Unknown error creating shader".to_string(),
        })
    );
}

#[test]
fn compile_failure_without_log_uses_fallback() {
    match compile_shader(true, false, None) {
        Err(BuildError::ShaderCompileError { diagnostic }) => {
            assert_eq!(diagnostic, "Unknown error creating shader");
        }
        other => panic!("expected a compile error, got {:?}", other),
    }
    match compile_shader(false, false, None) {
        Err(BuildError::ShaderCompileError { diagnostic }) => {
            assert_eq!(diagnostic, "Unable to create shader object");
        }
        other => panic!("expected a compile error, got {:?}", other),
    }
    assert_eq!(compile_shader(true, true, None), Ok(()));
}

#[test]
fn link_failure_without_log_uses_fallback() {
    match link_program(true, false, None) {
        Err(BuildError::ShaderLinkError { diagnostic }) => {
            assert_eq!(diagnostic, "Unknown error creating program object");
        }
        other => panic!("expected a link error, got {:?}", other),
    }
    match link_program(false, false, None) {
        Err(BuildError::ShaderLinkError { diagnostic }) => {
            assert_eq!(diagnostic, "Unable to create shader object");
        }
        other => panic!("expected a link error, got {:?}", other),
    }
    assert_eq!(link_program(true, true, Some("warnings only".to_string())), Ok(()));
}

#[test]
fn embedded_shader_sources() {
    let vs = shader_source(ShaderStage::Vertex);
    assert!(vs.contains("attribute vec4 position;"));
    assert!(vs.contains("uniform vec2 translation;"));
    assert!(vs.contains("position.x - translation.x"));
    assert!(vs.contains("position.y - translation.y"));
    let fs = shader_source(ShaderStage::Fragment);
    assert!(fs.contains("gl_FragColor = vec4(1.0, 1.0, 1.0, 1.0);"));
    assert_eq!(uniform_name(), "translation");
}
