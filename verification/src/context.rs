//! The shader-building methods, on the graphics context itself.

use vstd::prelude::*;
use web_sys::WebGl2RenderingContext;
use crate::error::{failure_in, GlError, ShaderStage};
use crate::shader::{
    build_failure, built_from, compile_failure, compile_shader, init_shaders, link_failure,
    link_program, CompiledShader, LinkedProgram, StageFailure,
};

verus! {

/// Does nothing: the cleanup of a render that leaves nothing behind.
pub fn noop() {
}

/// Building shader programs, as methods of a graphics context.
pub trait WebGl2RenderingContextExt {
    /// Compiles `source` as a shader of `stage`; see [`compile_shader`].
    fn compile_shader_from_source(&self, stage: ShaderStage, source: &str) -> (outcome: Result<
        CompiledShader,
        GlError,
    >)
        ensures
            outcome matches Ok(shader) ==> shader.stage() == stage && shader.source() == source@,
            outcome matches Err(error) ==> exists|failure: StageFailure| #[trigger]
                compile_failure(stage, failure) == error@,
    ;

    /// Links the two shaders into a program; see [`link_program`].
    fn link_program_with_shaders(
        &self,
        vert_shader: &CompiledShader,
        frag_shader: &CompiledShader,
    ) -> (outcome: Result<LinkedProgram, GlError>)
        ensures
            outcome matches Ok(program) ==> program.vertex() == *vert_shader && program.fragment()
                == *frag_shader,
            outcome matches Err(error) ==> exists|failure: StageFailure| #[trigger]
                link_failure(failure) == error@,
    ;

    /// Builds the program of a page and makes it current; see
    /// [`init_shaders`].
    fn init_shaders(&self, vert_shader: &str, frag_shader: &str) -> (outcome: Result<
        LinkedProgram,
        GlError,
    >)
        ensures
            exists|
                vertex: Option<StageFailure>,
                fragment: Option<StageFailure>,
                link: Option<StageFailure>,
            | #[trigger]
                build_failure(vertex, fragment, link) == failure_in(outcome),
            outcome matches Ok(program) ==> built_from(program, vert_shader@, frag_shader@),
    ;

    /// Compiles `source` as a vertex shader.
    fn compile_vertex_shader_from_source(&self, source: &str) -> (outcome: Result<
        CompiledShader,
        GlError,
    >)
        ensures
            outcome matches Ok(shader) ==> shader.stage() == ShaderStage::Vertex
                && shader.source() == source@,
            outcome matches Err(error) ==> exists|failure: StageFailure| #[trigger]
                compile_failure(ShaderStage::Vertex, failure) == error@,
    {
        self.compile_shader_from_source(ShaderStage::Vertex, source)
    }

    /// Compiles `source` as a fragment shader.
    fn compile_fragment_shader_from_source(&self, source: &str) -> (outcome: Result<
        CompiledShader,
        GlError,
    >)
        ensures
            outcome matches Ok(shader) ==> shader.stage() == ShaderStage::Fragment
                && shader.source() == source@,
            outcome matches Err(error) ==> exists|failure: StageFailure| #[trigger]
                compile_failure(ShaderStage::Fragment, failure) == error@,
    {
        self.compile_shader_from_source(ShaderStage::Fragment, source)
    }
}

impl WebGl2RenderingContextExt for WebGl2RenderingContext {
    fn compile_shader_from_source(&self, stage: ShaderStage, source: &str) -> (outcome: Result<
        CompiledShader,
        GlError,
    >) {
        compile_shader(self, stage, source)
    }

    fn link_program_with_shaders(
        &self,
        vert_shader: &CompiledShader,
        frag_shader: &CompiledShader,
    ) -> (outcome: Result<LinkedProgram, GlError>) {
        link_program(self, vert_shader, frag_shader)
    }

    fn init_shaders(&self, vert_shader: &str, frag_shader: &str) -> (outcome: Result<
        LinkedProgram,
        GlError,
    >) {
        init_shaders(self, vert_shader, frag_shader)
    }
}

} // verus!
