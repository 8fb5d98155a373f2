use wasmgl::context::noop;
use wasmgl::error::{GlError, ResourceKind, ShaderStage};
use wasmgl::shader::{
    first_failure, flag_is_set, program_error, shader_error, StageFailure, COMPILE_STATUS,
    FRAGMENT_SHADER, LINK_STATUS, VERTEX_SHADER,
};
use web_sys::WebGl2RenderingContext;

fn rejected(log: &str) -> StageFailure {
    StageFailure::Rejected { info_log: Some(String::from(log)) }
}

#[test]
fn sources_that_compile_and_link_build() {
    assert_eq!(first_failure(None, None, None), Ok(()));
}

#[test]
fn a_rejected_vertex_source_is_a_vertex_compile_error() {
    let outcome = first_failure(Some(rejected("ERROR: 0:3: syntax error")), None, None);
    assert_eq!(
        outcome,
        Err(GlError::ShaderCompile {
            stage: ShaderStage::Vertex,
            log: String::from("ERROR: 0:3: syntax error"),
        })
    );
}

#[test]
fn a_rejected_fragment_source_is_a_fragment_compile_error() {
    let outcome = first_failure(None, Some(rejected("ERROR: 0:1: 'x' : undeclared")), None);
    assert_eq!(
        outcome,
        Err(GlError::ShaderCompile {
            stage: ShaderStage::Fragment,
            log: String::from("ERROR: 0:1: 'x' : undeclared"),
        })
    );
}

#[test]
fn the_first_failure_decides() {
    let outcome = first_failure(
        Some(rejected("vertex")),
        Some(rejected("fragment")),
        Some(rejected("link")),
    );
    assert_eq!(
        outcome,
        Err(GlError::ShaderCompile { stage: ShaderStage::Vertex, log: String::from("vertex") })
    );
    let outcome = first_failure(None, Some(rejected("fragment")), Some(rejected("link")));
    assert_eq!(
        outcome,
        Err(GlError::ShaderCompile { stage: ShaderStage::Fragment, log: String::from("fragment") })
    );
}

#[test]
fn shaders_that_do_not_link_are_a_link_error() {
    let outcome = first_failure(None, None, Some(rejected("varying v_Color mismatch")));
    assert_eq!(
        outcome,
        Err(GlError::ProgramLink { log: String::from("varying v_Color mismatch") })
    );
}

#[test]
fn a_missing_object_is_a_resource_error() {
    assert_eq!(
        first_failure(Some(StageFailure::NotCreated), None, None),
        Err(GlError::ResourceCreation { kind: ResourceKind::Shader })
    );
    assert_eq!(
        first_failure(None, Some(StageFailure::NotCreated), None),
        Err(GlError::ResourceCreation { kind: ResourceKind::Shader })
    );
    assert_eq!(
        first_failure(None, None, Some(StageFailure::NotCreated)),
        Err(GlError::ResourceCreation { kind: ResourceKind::Program })
    );
}

#[test]
fn the_log_is_kept_word_for_word() {
    let log = "ERROR: 0:2: '' :  syntax error\n\u{0}";
    assert_eq!(
        shader_error(ShaderStage::Vertex, rejected(log)),
        GlError::ShaderCompile { stage: ShaderStage::Vertex, log: String::from(log) }
    );
    assert_eq!(program_error(rejected(log)), GlError::ProgramLink { log: String::from(log) });
    assert_eq!(
        shader_error(ShaderStage::Fragment, rejected("")),
        GlError::ShaderCompile { stage: ShaderStage::Fragment, log: String::new() }
    );
}

#[test]
fn a_rejection_without_a_log_gets_the_fixed_text() {
    assert_eq!(
        shader_error(ShaderStage::Fragment, StageFailure::Rejected { info_log: None }),
        GlError::ShaderCompile {
            stage: ShaderStage::Fragment,
            log: String::from("unknown shader compile error"),
        }
    );
    assert_eq!(
        program_error(StageFailure::Rejected { info_log: None }),
        GlError::ProgramLink { log: String::from("Unknown error creating program object") }
    );
}

#[test]
fn only_a_plain_true_counts_as_success() {
    assert!(flag_is_set(Some(true)));
    assert!(!flag_is_set(Some(false)));
    assert!(!flag_is_set(None));
}

#[test]
fn the_codes_are_those_of_the_context() {
    assert_eq!(VERTEX_SHADER, WebGl2RenderingContext::VERTEX_SHADER);
    assert_eq!(FRAGMENT_SHADER, WebGl2RenderingContext::FRAGMENT_SHADER);
    assert_eq!(COMPILE_STATUS, WebGl2RenderingContext::COMPILE_STATUS);
    assert_eq!(LINK_STATUS, WebGl2RenderingContext::LINK_STATUS);
    assert_eq!(ShaderStage::Vertex.gl_enum(), WebGl2RenderingContext::VERTEX_SHADER);
    assert_eq!(ShaderStage::Fragment.gl_enum(), WebGl2RenderingContext::FRAGMENT_SHADER);
}

#[test]
fn each_failure_has_its_message() {
    let error = GlError::ShaderCompile { stage: ShaderStage::Vertex, log: String::from("a log") };
    assert_eq!(error.message(), "a log");
    let error = GlError::ProgramLink { log: String::from("another log") };
    assert_eq!(error.message(), "another log");
    let error = GlError::ResourceCreation { kind: ResourceKind::Buffer };
    assert_eq!(error.message(), "Failed to create the buffer object");
    let error = GlError::ResourceCreation { kind: ResourceKind::Texture };
    assert_eq!(error.message(), "Failed to create the texture object");
    let error = GlError::ResourceCreation { kind: ResourceKind::Shader };
    assert_eq!(error.message(), "Unable to create shader object");
    let error = GlError::ResourceCreation { kind: ResourceKind::Program };
    assert_eq!(error.message(), "Unable to create shader object");
    let error = GlError::AttributeOrUniformNotFound { name: String::from("a_Position") };
    assert_eq!(error.message(), "Failed to get the storage location of a_Position");
}

#[test]
fn noop_does_nothing() {
    noop();
}
