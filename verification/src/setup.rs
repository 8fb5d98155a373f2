//! Setting up the graphics of one page, from a description of what it needs.
//!
//! A page needs a shader program, its vertex data in buffers, perhaps some
//! textures, and the places of the uniforms that it will set. They are made
//! in this order, and the first that cannot be had ends the setup: the page
//! then draws nothing.

use vstd::prelude::*;
use js_sys::Float32Array;
use web_sys::{WebGl2RenderingContext, WebGlTexture, WebGlUniformLocation};
use crate::buffer::{
    create_texture, init_vertex_buffers, uniform_location, vertex_setup_failure, VertexAttribute,
};
use crate::error::{Failure, GlError, ResourceKind};
use crate::shader::{build_failure, built_from, init_shaders, LinkedProgram, StageFailure};

verus! {

/// One array of vertex numbers, with the attributes that read from it.
pub struct VertexBuffer {
    /// The numbers.
    pub data: Float32Array,
    /// The attributes whose values lie in `data`.
    pub attributes: Vec<VertexAttribute>,
}

/// What a page that was set up holds on to.
pub struct PageSetup {
    /// The program of the page, which is the current one of its context.
    pub program: LinkedProgram,
    /// The texture objects that were asked for.
    pub textures: Vec<WebGlTexture>,
    /// The places of the uniforms that were asked for, in the order of their
    /// names.
    pub uniforms: Vec<WebGlUniformLocation>,
}

/// Whether `failure` is one that setting up a page with `buffers` and
/// `uniforms` can end in: a failure of building the program, a buffer that
/// was not to be had or an attribute of one of the buffers that the program
/// lacks, a texture that was not to be had, or a uniform that the program
/// lacks.
pub open spec fn setup_failure(
    failure: Failure,
    buffers: Seq<VertexBuffer>,
    uniforms: Seq<String>,
) -> bool {
    ||| exists|
        vertex: Option<StageFailure>,
        fragment: Option<StageFailure>,
        link: Option<StageFailure>,
    | #[trigger]
        build_failure(vertex, fragment, link) == Some(failure)
    ||| exists|i: int|
        0 <= i < buffers.len() && vertex_setup_failure(failure, (#[trigger] buffers[i]).attributes@)
    ||| failure == (Failure::ResourceCreation { kind: ResourceKind::Texture })
    ||| exists|i: int|
        0 <= i < uniforms.len() && failure == (Failure::AttributeOrUniformNotFound {
            name: (#[trigger] uniforms[i])@,
        })
}

/// Sets up the graphics of a page: builds the program from the two sources
/// and makes it current, fills one buffer object per entry of `buffers` and
/// assigns its attributes, asks for `textures` texture objects, and looks up
/// the place of each of `uniforms`.
///
/// What can be had is for the context to say. When everything could, the
/// page gets the program built from its two sources, and as many textures
/// and as many places as it asked for. Else the error is that of the first
/// thing that was missing.
pub fn setup_gl(
    context: &WebGl2RenderingContext,
    vert_shader: &str,
    frag_shader: &str,
    buffers: &Vec<VertexBuffer>,
    textures: usize,
    uniforms: &Vec<String>,
) -> (outcome: Result<PageSetup, GlError>)
    ensures
        outcome matches Ok(setup) ==> {
            &&& built_from(setup.program, vert_shader@, frag_shader@)
            &&& setup.textures@.len() == textures
            &&& setup.uniforms@.len() == uniforms@.len()
        },
        outcome matches Err(error) ==> setup_failure(error@, buffers@, uniforms@),
{
    let program = match init_shaders(context, vert_shader, frag_shader) {
        Ok(program) => program,
        Err(error) => {
            return Err(error);
        },
    };
    let mut i: usize = 0;
    while i < buffers.len()
        invariant
            i <= buffers.len(),
        decreases buffers.len() - i,
    {
        let buffer = &buffers[i];
        match init_vertex_buffers(context, &program, &buffer.data, &buffer.attributes) {
            Ok(()) => {},
            Err(error) => {
                assert(vertex_setup_failure(error@, buffers@[i as int].attributes@));
                return Err(error);
            },
        }
        i = i + 1;
    }
    let mut made: Vec<WebGlTexture> = Vec::new();
    while made.len() < textures
        invariant
            made@.len() <= textures,
        decreases textures - made@.len(),
    {
        match create_texture(context) {
            Ok(texture) => {
                made.push(texture);
            },
            Err(error) => {
                return Err(error);
            },
        }
    }
    let mut places: Vec<WebGlUniformLocation> = Vec::new();
    while places.len() < uniforms.len()
        invariant
            places@.len() <= uniforms@.len(),
        decreases uniforms@.len() - places@.len(),
    {
        let name = &uniforms[places.len()];
        match uniform_location(context, &program, name.as_str()) {
            Ok(place) => {
                places.push(place);
            },
            Err(error) => {
                assert(error@ == (Failure::AttributeOrUniformNotFound {
                    name: uniforms@[places@.len() as int]@,
                }));
                return Err(error);
            },
        }
    }
    Ok(PageSetup { program, textures: made, uniforms: places })
}

} // verus!
