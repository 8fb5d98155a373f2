//! Handing a page's vertex data to its program.
//!
//! A page keeps its vertices in one array of numbers and describes, attribute
//! by attribute, where in that array the values of each lie. Setting this up
//! can fail in two ways: the context hands out no buffer object, or the
//! linked program has no active attribute or uniform of the name asked for.

use vstd::prelude::*;
use vstd::string::*;
use js_sys::Float32Array;
use web_sys::{WebGl2RenderingContext, WebGlBuffer, WebGlTexture, WebGlUniformLocation};
use crate::error::{failure_in, outcome_view, Failure, GlError, ResourceKind};
use crate::gl;
use crate::shader::LinkedProgram;

verus! {

/// The code of the binding point for vertex data.
pub const ARRAY_BUFFER: u32 = 0x8892;

/// The code that tells the context that a buffer is filled once and drawn
/// from many times.
pub const STATIC_DRAW: u32 = 0x88E4;

/// The code of the 32-bit floating-point type.
pub const FLOAT: u32 = 0x1406;

/// The size in bytes of one vertex number.
pub const FSIZE: i32 = 4;

/// Where in a page's vertex array the values of one attribute lie.
#[derive(Clone, Debug, PartialEq, Eq)]
pub struct VertexAttribute {
    /// The name of the attribute in the vertex shader.
    pub name: String,
    /// How many numbers make up one value of the attribute.
    pub size: i32,
    /// The distance in bytes from one value to the next; 0 where the values
    /// follow each other with nothing in between.
    pub stride: i32,
    /// The distance in bytes of the first value from the start of the array.
    pub offset: i32,
}

/// What asking the context for an object of `kind` comes to: the object, or
/// the failure that none was to be had.
pub fn created<T>(object: Option<T>, kind: ResourceKind) -> (outcome: Result<T, GlError>)
    ensures
        object matches Some(object) ==> outcome == Ok::<T, GlError>(object),
        object is None ==> failure_in(outcome) == Some(Failure::ResourceCreation { kind }),
{
    match object {
        Some(object) => Ok(object),
        None => Err(GlError::ResourceCreation { kind }),
    }
}

/// What the context's answer `location` to a question for the attribute
/// `name` comes to: the answer itself as the index, or, for a negative
/// answer, the failure that the program has no such attribute.
pub open spec fn attribute_outcome(name: Seq<char>, location: i32) -> Result<u32, Failure> {
    if location < 0 {
        Err(Failure::AttributeOrUniformNotFound { name })
    } else {
        Ok(location as u32)
    }
}

/// What the context's answer `location` to a question for the attribute
/// `name` comes to: its index, or, for a negative answer, the failure that
/// the program has no such attribute.
pub fn attribute_index(name: &str, location: i32) -> (outcome: Result<u32, GlError>)
    ensures
        outcome_view(outcome) == attribute_outcome(name@, location),
        location >= 0 ==> outcome == Ok::<u32, GlError>(location as u32),
        location < 0 ==> failure_in(outcome) == Some(
            Failure::AttributeOrUniformNotFound { name: name@ },
        ),
{
    if location < 0 {
        Err(GlError::AttributeOrUniformNotFound { name: String::from_str(name) })
    } else {
        Ok(location as u32)
    }
}

/// What the context's answer `location` to a question for the uniform `name`
/// comes to: its place, or the failure that the program has no such uniform.
pub fn uniform_place<T>(name: &str, location: Option<T>) -> (outcome: Result<T, GlError>)
    ensures
        location matches Some(place) ==> outcome == Ok::<T, GlError>(place),
        location is None ==> failure_in(outcome) == Some(
            Failure::AttributeOrUniformNotFound { name: name@ },
        ),
{
    match location {
        Some(place) => Ok(place),
        None => Err(GlError::AttributeOrUniformNotFound { name: String::from_str(name) }),
    }
}

/// Asks `context` for a buffer object. The only failure is that none was to
/// be had.
pub fn create_buffer(context: &WebGl2RenderingContext) -> (outcome: Result<WebGlBuffer, GlError>)
    ensures
        outcome matches Err(error) ==> error@ == (Failure::ResourceCreation {
            kind: ResourceKind::Buffer,
        }),
{
    created(gl::ctx_create_buffer(context), ResourceKind::Buffer)
}

/// Asks `context` for a texture object. The only failure is that none was
/// to be had.
pub fn create_texture(context: &WebGl2RenderingContext) -> (outcome: Result<WebGlTexture, GlError>)
    ensures
        outcome matches Err(error) ==> error@ == (Failure::ResourceCreation {
            kind: ResourceKind::Texture,
        }),
{
    created(gl::ctx_create_texture(context), ResourceKind::Texture)
}

/// Asks `context` for the index of the attribute `name` of `program`.
///
/// Which index the attribute has, and whether the program has it at all, is
/// for the context to say. Whatever it says, the outcome is the one that
/// [`attribute_outcome`] gives for its answer: the answer itself, which is
/// then not negative, or the failure that names the attribute.
pub fn attribute_location(
    context: &WebGl2RenderingContext,
    program: &LinkedProgram,
    name: &str,
) -> (outcome: Result<u32, GlError>)
    ensures
        exists|location: i32| #[trigger] attribute_outcome(name@, location) == outcome_view(outcome),
        outcome matches Err(error) ==> error@ == (Failure::AttributeOrUniformNotFound {
            name: name@,
        }),
{
    attribute_index(name, gl::ctx_get_attrib_location(context, program.handle(), name))
}

/// Asks `context` for the place of the uniform `name` of `program`. The only
/// failure is that the program has no such uniform.
pub fn uniform_location(
    context: &WebGl2RenderingContext,
    program: &LinkedProgram,
    name: &str,
) -> (outcome: Result<WebGlUniformLocation, GlError>)
    ensures
        outcome matches Err(error) ==> error@ == (Failure::AttributeOrUniformNotFound {
            name: name@,
        }),
{
    uniform_place(name, gl::ctx_get_uniform_location(context, program.handle(), name))
}

/// Whether `failure` is one that handing over vertex data for `attributes`
/// can end in: no buffer object, or no attribute of one of their names.
pub open spec fn vertex_setup_failure(failure: Failure, attributes: Seq<VertexAttribute>) -> bool {
    ||| failure == (Failure::ResourceCreation { kind: ResourceKind::Buffer })
    ||| exists|i: int|
        0 <= i < attributes.len() && failure == (Failure::AttributeOrUniformNotFound {
            name: #[trigger] attributes[i].name@,
        })
}

/// Puts `vertices` into a new buffer object of `context` and has each of
/// `attributes` take its values from there, in their order.
///
/// Whether a buffer is to be had, and whether `program` has the attributes,
/// is for the context to say. The first thing that is missing ends the
/// setup, and the error names it: the buffer, or the attribute.
pub fn init_vertex_buffers(
    context: &WebGl2RenderingContext,
    program: &LinkedProgram,
    vertices: &Float32Array,
    attributes: &Vec<VertexAttribute>,
) -> (outcome: Result<(), GlError>)
    ensures
        outcome matches Err(error) ==> vertex_setup_failure(error@, attributes@),
{
    let buffer = match create_buffer(context) {
        Ok(buffer) => buffer,
        Err(error) => {
            return Err(error);
        },
    };
    gl::ctx_bind_buffer(context, ARRAY_BUFFER, &buffer);
    gl::ctx_buffer_data(context, ARRAY_BUFFER, vertices, STATIC_DRAW);
    let mut i: usize = 0;
    while i < attributes.len()
        invariant
            i <= attributes.len(),
        decreases attributes.len() - i,
    {
        let attribute = &attributes[i];
        match attribute_location(context, program, attribute.name.as_str()) {
            Ok(index) => {
                gl::ctx_vertex_attrib_pointer(
                    context,
                    index,
                    attribute.size,
                    FLOAT,
                    false,
                    attribute.stride,
                    attribute.offset,
                );
                gl::ctx_enable_vertex_attrib_array(context, index);
            },
            Err(error) => {
                assert(error@ == (Failure::AttributeOrUniformNotFound {
                    name: attributes@[i as int].name@,
                }));
                return Err(error);
            },
        }
        i = i + 1;
    }
    Ok(())
}

} // verus!
