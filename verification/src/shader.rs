//! Building a shader program: compile the vertex stage, compile the fragment
//! stage, link the two, make the result current.
//!
//! Whether a source text compiles, and whether two shaders link, is for the
//! graphics context to say. What this module decides, and what is proved of
//! it, is what becomes of each answer: which failure is reported, with which
//! text, and that the first failure ends the build.

use vstd::prelude::*;
use vstd::string::*;
use web_sys::{WebGl2RenderingContext, WebGlProgram, WebGlShader};
use crate::error::{failure_in, Failure, GlError, ResourceKind, ShaderStage};
use crate::gl;

verus! {

/// The code by which a context knows a vertex shader.
pub const VERTEX_SHADER: u32 = 0x8B31;

/// The code by which a context knows a fragment shader.
pub const FRAGMENT_SHADER: u32 = 0x8B30;

/// The code of the flag that says whether a shader object compiled.
pub const COMPILE_STATUS: u32 = 0x8B81;

/// The code of the flag that says whether a program object linked.
pub const LINK_STATUS: u32 = 0x8B82;

/// The code by which a context knows shaders of `stage`.
pub open spec fn stage_code(stage: ShaderStage) -> u32 {
    match stage {
        ShaderStage::Vertex => VERTEX_SHADER,
        ShaderStage::Fragment => FRAGMENT_SHADER,
    }
}

impl ShaderStage {
    /// The code by which a context knows shaders of this stage.
    pub fn gl_enum(self) -> (code: u32)
        ensures
            code == stage_code(self),
    {
        match self {
            ShaderStage::Vertex => VERTEX_SHADER,
            ShaderStage::Fragment => FRAGMENT_SHADER,
        }
    }
}

/// What a context answered when one shader or program object could not be
/// made ready.
#[derive(Clone, Debug, PartialEq, Eq)]
pub enum StageFailure {
    /// The context handed out no object.
    NotCreated,
    /// The context made the object, and then did not report that compiling
    /// or linking it had succeeded; `info_log` is the diagnostic it kept, if
    /// it kept one.
    Rejected { info_log: Option<String> },
}

/// The text reported for a shader that was rejected without a diagnostic.
pub open spec fn unknown_shader_text() -> Seq<char> {
    "unknown shader compile error"@
}

/// The text reported for a program that was rejected without a diagnostic.
pub open spec fn unknown_program_text() -> Seq<char> {
    "Unknown error creating program object"@
}

/// The diagnostic of the context, word for word, or `generic` where there is
/// none.
pub open spec fn log_or(info_log: Option<String>, generic: Seq<char>) -> Seq<char> {
    match info_log {
        Some(log) => log@,
        None => generic,
    }
}

/// The failure reported when the shader of `stage` met `failure`.
pub open spec fn compile_failure(stage: ShaderStage, failure: StageFailure) -> Failure {
    match failure {
        StageFailure::NotCreated => Failure::ResourceCreation { kind: ResourceKind::Shader },
        StageFailure::Rejected { info_log } => Failure::ShaderCompile {
            stage,
            log: log_or(info_log, unknown_shader_text()),
        },
    }
}

/// The failure reported when the program met `failure`.
pub open spec fn link_failure(failure: StageFailure) -> Failure {
    match failure {
        StageFailure::NotCreated => Failure::ResourceCreation { kind: ResourceKind::Program },
        StageFailure::Rejected { info_log } => Failure::ProgramLink {
            log: log_or(info_log, unknown_program_text()),
        },
    }
}

/// The failure of a whole build, given what each step met: `None` stands for
/// a step that succeeded. The first step that failed decides, in the order
/// vertex shader, fragment shader, link; what later steps would have met
/// does not count.
pub open spec fn build_failure(
    vertex: Option<StageFailure>,
    fragment: Option<StageFailure>,
    link: Option<StageFailure>,
) -> Option<Failure> {
    match vertex {
        Some(failure) => Some(compile_failure(ShaderStage::Vertex, failure)),
        None => match fragment {
            Some(failure) => Some(compile_failure(ShaderStage::Fragment, failure)),
            None => match link {
                Some(failure) => Some(link_failure(failure)),
                None => None,
            },
        },
    }
}

/// What a build comes to, given what each of its steps met (`None` for a step
/// that succeeded): the error of the first step that failed, in the order
/// vertex shader, fragment shader, link. What later steps met does not count.
pub fn first_failure(
    vertex: Option<StageFailure>,
    fragment: Option<StageFailure>,
    link: Option<StageFailure>,
) -> (outcome: Result<(), GlError>)
    ensures
        failure_in(outcome) == build_failure(vertex, fragment, link),
{
    match vertex {
        Some(failure) => Err(shader_error(ShaderStage::Vertex, failure)),
        None => match fragment {
            Some(failure) => Err(shader_error(ShaderStage::Fragment, failure)),
            None => match link {
                Some(failure) => Err(program_error(failure)),
                None => Ok(()),
            },
        },
    }
}

/// Whether a status flag, as read from the context, says that the step
/// succeeded: only a plain `true` does.
pub fn flag_is_set(flag: Option<bool>) -> (set: bool)
    ensures
        set == (flag == Some(true)),
{
    match flag {
        Some(value) => value,
        None => false,
    }
}

/// The error for a shader of `stage` that met `failure`.
pub fn shader_error(stage: ShaderStage, failure: StageFailure) -> (error: GlError)
    ensures
        error@ == compile_failure(stage, failure),
{
    match failure {
        StageFailure::NotCreated => GlError::ResourceCreation { kind: ResourceKind::Shader },
        StageFailure::Rejected { info_log } => {
            let log = match info_log {
                Some(log) => log,
                None => String::from_str("unknown shader compile error"),
            };
            GlError::ShaderCompile { stage, log }
        },
    }
}

/// The error for a program that met `failure`.
pub fn program_error(failure: StageFailure) -> (error: GlError)
    ensures
        error@ == link_failure(failure),
{
    match failure {
        StageFailure::NotCreated => GlError::ResourceCreation { kind: ResourceKind::Program },
        StageFailure::Rejected { info_log } => {
            let log = match info_log {
                Some(log) => log,
                None => String::from_str("Unknown error creating program object"),
            };
            GlError::ProgramLink { log }
        },
    }
}

/// A shader object that its context reported as compiled.
pub struct CompiledShader {
    stage: ShaderStage,
    handle: WebGlShader,
    source: Ghost<Seq<char>>,
}

impl CompiledShader {
    /// The stage that this shader was compiled for.
    pub closed spec fn stage(&self) -> ShaderStage {
        self.stage
    }

    /// The source text that this shader was compiled from.
    pub closed spec fn source(&self) -> Seq<char> {
        self.source@
    }

    /// The stage that this shader was compiled for.
    pub fn get_stage(&self) -> (stage: ShaderStage)
        ensures
            stage == self.stage(),
    {
        self.stage
    }

    /// The handle by which the context knows this shader.
    pub closed spec fn shader_handle(&self) -> WebGlShader {
        self.handle
    }

    /// The handle by which the context knows this shader.
    pub fn handle(&self) -> (handle: &WebGlShader)
        ensures
            *handle == self.shader_handle(),
    {
        &self.handle
    }
}

/// A program object that its context reported as linked.
pub struct LinkedProgram {
    handle: WebGlProgram,
    shaders: Ghost<(CompiledShader, CompiledShader)>,
}

impl LinkedProgram {
    /// The shader that was attached to this program first: its vertex shader,
    /// where the program was built in the usual way.
    pub closed spec fn vertex(&self) -> CompiledShader {
        self.shaders@.0
    }

    /// The shader that was attached to this program second: its fragment
    /// shader, where the program was built in the usual way.
    pub closed spec fn fragment(&self) -> CompiledShader {
        self.shaders@.1
    }

    /// The handle by which the context knows this program.
    pub closed spec fn program_handle(&self) -> WebGlProgram {
        self.handle
    }

    /// The handle by which the context knows this program.
    pub fn handle(&self) -> (handle: &WebGlProgram)
        ensures
            *handle == self.program_handle(),
    {
        &self.handle
    }

    /// Gives up the handle by which the context knows this program.
    pub fn into_handle(self) -> (handle: WebGlProgram)
        ensures
            handle == self.program_handle(),
    {
        self.handle
    }
}

/// Asks `context` for a shader object of `stage`, hands it `source` and has
/// it compiled. Returns the shader if the context then reports the
/// compilation as successful, and else what the context answered. The
/// diagnostic is asked for only after a compilation that did not succeed.
///
/// Whether the source compiles is for the context to say. A shader that
/// comes back is the one made here: of `stage`, and compiled from `source`.
pub fn try_compile(
    context: &WebGl2RenderingContext,
    stage: ShaderStage,
    source: &str,
) -> (outcome: Result<CompiledShader, StageFailure>)
    ensures
        outcome matches Ok(shader) ==> shader.stage() == stage && shader.source() == source@,
{
    match gl::ctx_create_shader(context, stage.gl_enum()) {
        None => Err(StageFailure::NotCreated),
        Some(handle) => {
            gl::ctx_shader_source(context, &handle, source);
            gl::ctx_compile_shader(context, &handle);
            let status = gl::ctx_get_shader_parameter(context, &handle, COMPILE_STATUS);
            if flag_is_set(gl::js_as_bool(&status)) {
                Ok(CompiledShader { stage, handle, source: Ghost(source@) })
            } else {
                let info_log = gl::ctx_shader_info_log(context, &handle);
                Err(StageFailure::Rejected { info_log })
            }
        },
    }
}

/// Asks `context` for a program object, attaches the two shaders and has the
/// program linked. Returns the program if the context then reports the link
/// as successful, and else what the context answered. The diagnostic is
/// asked for only after a link that did not succeed.
///
/// Whether the shaders link is for the context to say. A program that comes
/// back is the one made here: from `vert_shader` and `frag_shader`, attached
/// in this order.
pub fn try_link(
    context: &WebGl2RenderingContext,
    vert_shader: &CompiledShader,
    frag_shader: &CompiledShader,
) -> (outcome: Result<LinkedProgram, StageFailure>)
    ensures
        outcome matches Ok(program) ==> program.vertex() == *vert_shader && program.fragment()
            == *frag_shader,
{
    match gl::ctx_create_program(context) {
        None => Err(StageFailure::NotCreated),
        Some(handle) => {
            gl::ctx_attach_shader(context, &handle, vert_shader.handle());
            gl::ctx_attach_shader(context, &handle, frag_shader.handle());
            gl::ctx_link_program(context, &handle);
            let status = gl::ctx_get_program_parameter(context, &handle, LINK_STATUS);
            if flag_is_set(gl::js_as_bool(&status)) {
                Ok(LinkedProgram { handle, shaders: Ghost((*vert_shader, *frag_shader)) })
            } else {
                let info_log = gl::ctx_program_info_log(context, &handle);
                Err(StageFailure::Rejected { info_log })
            }
        },
    }
}

/// The program was made from a vertex shader compiled from `vert_source` and
/// a fragment shader compiled from `frag_source`.
pub open spec fn built_from(
    program: LinkedProgram,
    vert_source: Seq<char>,
    frag_source: Seq<char>,
) -> bool {
    &&& program.vertex().stage() == ShaderStage::Vertex
    &&& program.vertex().source() == vert_source
    &&& program.fragment().stage() == ShaderStage::Fragment
    &&& program.fragment().source() == frag_source
}

/// Compiles `source` as a shader of `stage`.
///
/// Whether it compiles is for the context to say. Whatever it says, a shader
/// that comes back is of `stage` and compiled from `source`, and an error
/// that comes back is the one that [`compile_failure`] gives for `stage` and
/// for what the context answered: no shader object, or a compilation that it
/// did not report as successful, with its diagnostic.
pub fn compile_shader(
    context: &WebGl2RenderingContext,
    stage: ShaderStage,
    source: &str,
) -> (outcome: Result<CompiledShader, GlError>)
    ensures
        outcome matches Ok(shader) ==> shader.stage() == stage && shader.source() == source@,
        outcome matches Err(error) ==> exists|failure: StageFailure| #[trigger]
            compile_failure(stage, failure) == error@,
{
    match try_compile(context, stage, source) {
        Ok(shader) => Ok(shader),
        Err(failure) => Err(shader_error(stage, failure)),
    }
}

/// Links a vertex shader and a fragment shader into a program.
///
/// Whether they link is for the context to say. Whatever it says, a program
/// that comes back is made from these two shaders, and an error that comes
/// back is the one that [`link_failure`] gives for what the context
/// answered: no program object, or a link that it did not report as
/// successful, with its diagnostic.
pub fn link_program(
    context: &WebGl2RenderingContext,
    vert_shader: &CompiledShader,
    frag_shader: &CompiledShader,
) -> (outcome: Result<LinkedProgram, GlError>)
    ensures
        outcome matches Ok(program) ==> program.vertex() == *vert_shader && program.fragment()
            == *frag_shader,
        outcome matches Err(error) ==> exists|failure: StageFailure| #[trigger]
            link_failure(failure) == error@,
{
    match try_link(context, vert_shader, frag_shader) {
        Ok(program) => Ok(program),
        Err(failure) => Err(program_error(failure)),
    }
}

/// Makes `program` the current one of `context`: what is looked up and drawn
/// from then on goes by it.
pub fn use_program(context: &WebGl2RenderingContext, program: &LinkedProgram) {
    gl::ctx_use_program(context, program.handle())
}

/// Builds the program of a page: compiles `vert_shader` as the vertex stage,
/// then `frag_shader` as the fragment stage, links the two, and makes the
/// program the current one of `context`.
///
/// The first step that fails ends the build: after a vertex shader that did
/// not compile the fragment shader is not compiled, and nothing is linked
/// unless both compiled. The outcome is the one that [`build_failure`] gives
/// for what the context answered at the steps that were taken. A program
/// that comes back is made from a vertex shader compiled from `vert_shader`
/// and a fragment shader compiled from `frag_shader`.
pub fn init_shaders(
    context: &WebGl2RenderingContext,
    vert_shader: &str,
    frag_shader: &str,
) -> (outcome: Result<LinkedProgram, GlError>)
    ensures
        exists|
            vertex: Option<StageFailure>,
            fragment: Option<StageFailure>,
            link: Option<StageFailure>,
        | #[trigger]
            build_failure(vertex, fragment, link) == failure_in(outcome),
        outcome matches Ok(program) ==> built_from(program, vert_shader@, frag_shader@),
{
    let vert_shader = match try_compile(context, ShaderStage::Vertex, vert_shader) {
        Ok(shader) => shader,
        Err(failure) => {
            proof {
                assert(build_failure(Some(failure), None, None) == Some(
                    compile_failure(ShaderStage::Vertex, failure),
                ));
            }
            return Err(shader_error(ShaderStage::Vertex, failure));
        },
    };
    let frag_shader = match try_compile(context, ShaderStage::Fragment, frag_shader) {
        Ok(shader) => shader,
        Err(failure) => {
            proof {
                assert(build_failure(None, Some(failure), None) == Some(
                    compile_failure(ShaderStage::Fragment, failure),
                ));
            }
            return Err(shader_error(ShaderStage::Fragment, failure));
        },
    };
    match try_link(context, &vert_shader, &frag_shader) {
        Ok(program) => {
            use_program(context, &program);
            proof {
                assert(build_failure(None, None, None) == None::<Failure>);
            }
            Ok(program)
        },
        Err(failure) => {
            proof {
                assert(build_failure(None, None, Some(failure)) == Some(link_failure(failure)));
            }
            Err(program_error(failure))
        },
    }
}

/// A build succeeds if and only if each of its three steps does: when both
/// sources compile and the two shaders link, the program comes back, and
/// there is no other way for it to come back.
pub proof fn lemma_build_succeeds_iff_every_step_does(
    vertex: Option<StageFailure>,
    fragment: Option<StageFailure>,
    link: Option<StageFailure>,
)
    ensures
        build_failure(vertex, fragment, link) is None <==> vertex is None && fragment is None
            && link is None,
{
}

/// A source that the context rejects is reported as a failure to compile,
/// under the stage of that source and with the context's diagnostic word for
/// word. The first such failure decides alone: what the steps after it would
/// have met, the link among them, has no part in the outcome.
pub proof fn lemma_rejected_source_names_its_stage(
    info_log: Option<String>,
    fragment: Option<StageFailure>,
    link: Option<StageFailure>,
    other_fragment: Option<StageFailure>,
    other_link: Option<StageFailure>,
)
    ensures
        build_failure(Some(StageFailure::Rejected { info_log }), fragment, link) == Some(
            Failure::ShaderCompile {
                stage: ShaderStage::Vertex,
                log: log_or(info_log, unknown_shader_text()),
            },
        ),
        build_failure(None, Some(StageFailure::Rejected { info_log }), link) == Some(
            Failure::ShaderCompile {
                stage: ShaderStage::Fragment,
                log: log_or(info_log, unknown_shader_text()),
            },
        ),
        build_failure(Some(StageFailure::Rejected { info_log }), fragment, link) == build_failure(
            Some(StageFailure::Rejected { info_log }),
            other_fragment,
            other_link,
        ),
        build_failure(None, Some(StageFailure::Rejected { info_log }), link) == build_failure(
            None,
            Some(StageFailure::Rejected { info_log }),
            other_link,
        ),
        info_log matches Some(log) ==> log_or(info_log, unknown_shader_text()) == log@,
{
}

/// Two shaders that compile and then do not link are reported as a failure
/// to link, with the context's diagnostic word for word, and never as a
/// failure to compile.
pub proof fn lemma_rejected_link_is_a_link_failure(info_log: Option<String>)
    ensures
        build_failure(None, None, Some(StageFailure::Rejected { info_log })) == Some(
            Failure::ProgramLink { log: log_or(info_log, unknown_program_text()) },
        ),
        !(build_failure(None, None, Some(StageFailure::Rejected { info_log }))
            matches Some(Failure::ShaderCompile { .. })),
        info_log matches Some(log) ==> log_or(info_log, unknown_program_text()) == log@,
{
}

/// A build fails to compile only where a source was rejected, and fails to
/// link only where both sources compiled.
pub proof fn lemma_failure_tells_the_step(
    vertex: Option<StageFailure>,
    fragment: Option<StageFailure>,
    link: Option<StageFailure>,
)
    ensures
        build_failure(vertex, fragment, link) matches Some(
            Failure::ShaderCompile { stage: ShaderStage::Vertex, .. },
        ) <==> vertex matches Some(StageFailure::Rejected { .. }),
        build_failure(vertex, fragment, link) matches Some(
            Failure::ShaderCompile { stage: ShaderStage::Fragment, .. },
        ) <==> vertex is None && fragment matches Some(StageFailure::Rejected { .. }),
        build_failure(vertex, fragment, link) matches Some(Failure::ProgramLink { .. })
            <==> vertex is None && fragment is None && link matches Some(
            StageFailure::Rejected { .. },
        ),
{
}

} // verus!
