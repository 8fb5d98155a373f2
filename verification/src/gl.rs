//! The calls into the browser's graphics context.
//!
//! Nothing in this file is proved. Each function makes one call into
//! `web_sys` or `wasm_bindgen`, most of them on a
//! `web_sys::WebGl2RenderingContext`. What such a call answers is decided by
//! the browser and the graphics driver, so no contract here promises anything
//! of an answer: the code that calls these functions is verified for every
//! answer that their types allow.
//!
//! The calls are made for a browser. Built for any other target, each of them
//! is a stand-in of `wasm_bindgen` that panics when it is called.

use vstd::prelude::*;
use js_sys::Float32Array;
use wasm_bindgen::JsValue;
use web_sys::{
    WebGl2RenderingContext, WebGlBuffer, WebGlProgram, WebGlShader, WebGlTexture,
    WebGlUniformLocation,
};

verus! {

/// `web_sys::WebGl2RenderingContext`, the drawing context of one canvas.
#[verifier::external_type_specification]
#[verifier::external_body]
pub struct ExWebGl2RenderingContext(web_sys::WebGl2RenderingContext);

/// `web_sys::WebGlShader`, the handle of one shader object.
#[verifier::external_type_specification]
#[verifier::external_body]
pub struct ExWebGlShader(web_sys::WebGlShader);

/// `web_sys::WebGlProgram`, the handle of one program object.
#[verifier::external_type_specification]
#[verifier::external_body]
pub struct ExWebGlProgram(web_sys::WebGlProgram);

/// `web_sys::WebGlBuffer`, the handle of one buffer object.
#[verifier::external_type_specification]
#[verifier::external_body]
pub struct ExWebGlBuffer(web_sys::WebGlBuffer);

/// `web_sys::WebGlTexture`, the handle of one texture object.
#[verifier::external_type_specification]
#[verifier::external_body]
pub struct ExWebGlTexture(web_sys::WebGlTexture);

/// `web_sys::WebGlUniformLocation`, the place of one uniform in a program.
#[verifier::external_type_specification]
#[verifier::external_body]
pub struct ExWebGlUniformLocation(web_sys::WebGlUniformLocation);

/// `wasm_bindgen::JsValue`, a value on the browser's side.
#[verifier::external_type_specification]
#[verifier::external_body]
pub struct ExJsValue(wasm_bindgen::JsValue);

/// `js_sys::Float32Array`, an array of 32-bit floating-point numbers on the
/// browser's side.
#[verifier::external_type_specification]
#[verifier::external_body]
pub struct ExFloat32Array(js_sys::Float32Array);

/// `WebGl2RenderingContext::create_shader`: asks the context for a new shader
/// object of the kind `kind`. Nothing is claimed of the answer.
#[verifier::external_body]
pub(crate) fn ctx_create_shader(
    context: &WebGl2RenderingContext,
    kind: u32,
) -> (shader: Option<WebGlShader>) {
    context.create_shader(kind)
}

/// `WebGl2RenderingContext::shader_source`: hands the source text to the
/// shader object.
#[verifier::external_body]
pub(crate) fn ctx_shader_source(
    context: &WebGl2RenderingContext,
    shader: &WebGlShader,
    source: &str,
) {
    context.shader_source(shader, source)
}

/// `WebGl2RenderingContext::compile_shader`: has the shader object compile
/// the source text it was handed.
#[verifier::external_body]
pub(crate) fn ctx_compile_shader(context: &WebGl2RenderingContext, shader: &WebGlShader) {
    context.compile_shader(shader)
}

/// `WebGl2RenderingContext::get_shader_parameter`: what the context says of
/// the parameter `pname` of the shader object. Nothing is claimed of the
/// answer.
#[verifier::external_body]
pub(crate) fn ctx_get_shader_parameter(
    context: &WebGl2RenderingContext,
    shader: &WebGlShader,
    pname: u32,
) -> (value: JsValue) {
    context.get_shader_parameter(shader, pname)
}

/// `JsValue::as_bool`: the boolean that `value` is, or `None` where it is
/// something else. Nothing is claimed of which it is.
#[verifier::external_body]
pub(crate) fn js_as_bool(value: &JsValue) -> (flag: Option<bool>) {
    value.as_bool()
}

/// `WebGl2RenderingContext::get_shader_info_log`: the diagnostic that the
/// context keeps for the shader object, if it keeps one. Nothing is claimed
/// of the answer.
#[verifier::external_body]
pub(crate) fn ctx_shader_info_log(
    context: &WebGl2RenderingContext,
    shader: &WebGlShader,
) -> (log: Option<String>) {
    context.get_shader_info_log(shader)
}

/// `WebGl2RenderingContext::create_program`: asks the context for a new
/// program object. Nothing is claimed of the answer.
#[verifier::external_body]
pub(crate) fn ctx_create_program(context: &WebGl2RenderingContext) -> (program: Option<
    WebGlProgram,
>) {
    context.create_program()
}

/// `WebGl2RenderingContext::attach_shader`: attaches the shader object to the
/// program object.
#[verifier::external_body]
pub(crate) fn ctx_attach_shader(
    context: &WebGl2RenderingContext,
    program: &WebGlProgram,
    shader: &WebGlShader,
) {
    context.attach_shader(program, shader)
}

/// `WebGl2RenderingContext::link_program`: has the program object link the
/// shaders attached to it.
#[verifier::external_body]
pub(crate) fn ctx_link_program(context: &WebGl2RenderingContext, program: &WebGlProgram) {
    context.link_program(program)
}

/// `WebGl2RenderingContext::get_program_parameter`: what the context says of
/// the parameter `pname` of the program object. Nothing is claimed of the
/// answer.
#[verifier::external_body]
pub(crate) fn ctx_get_program_parameter(
    context: &WebGl2RenderingContext,
    program: &WebGlProgram,
    pname: u32,
) -> (value: JsValue) {
    context.get_program_parameter(program, pname)
}

/// `WebGl2RenderingContext::get_program_info_log`: the diagnostic that the
/// context keeps for the program object, if it keeps one. Nothing is claimed
/// of the answer.
#[verifier::external_body]
pub(crate) fn ctx_program_info_log(
    context: &WebGl2RenderingContext,
    program: &WebGlProgram,
) -> (log: Option<String>) {
    context.get_program_info_log(program)
}

/// `WebGl2RenderingContext::use_program`: makes the program object the
/// current one of the context.
#[verifier::external_body]
pub(crate) fn ctx_use_program(context: &WebGl2RenderingContext, program: &WebGlProgram) {
    context.use_program(Some(program))
}

/// `WebGl2RenderingContext::create_buffer`: asks the context for a new buffer
/// object. Nothing is claimed of the answer.
#[verifier::external_body]
pub(crate) fn ctx_create_buffer(context: &WebGl2RenderingContext) -> (buffer: Option<WebGlBuffer>) {
    context.create_buffer()
}

/// `WebGl2RenderingContext::create_texture`: asks the context for a new
/// texture object. Nothing is claimed of the answer.
#[verifier::external_body]
pub(crate) fn ctx_create_texture(context: &WebGl2RenderingContext) -> (texture: Option<
    WebGlTexture,
>) {
    context.create_texture()
}

/// `WebGl2RenderingContext::bind_buffer`: binds the buffer object to
/// `target`.
#[verifier::external_body]
pub(crate) fn ctx_bind_buffer(
    context: &WebGl2RenderingContext,
    target: u32,
    buffer: &WebGlBuffer,
) {
    context.bind_buffer(target, Some(buffer))
}

/// `WebGl2RenderingContext::buffer_data_with_array_buffer_view`: fills the
/// buffer object bound to `target` with the numbers of `data`.
#[verifier::external_body]
pub(crate) fn ctx_buffer_data(
    context: &WebGl2RenderingContext,
    target: u32,
    data: &Float32Array,
    usage: u32,
) {
    context.buffer_data_with_array_buffer_view(target, data, usage)
}

/// `WebGl2RenderingContext::get_attrib_location`: the index of the attribute
/// called `name` in the program, as the context gives it. Nothing is claimed
/// of the answer.
#[verifier::external_body]
pub(crate) fn ctx_get_attrib_location(
    context: &WebGl2RenderingContext,
    program: &WebGlProgram,
    name: &str,
) -> (location: i32) {
    context.get_attrib_location(program, name)
}

/// `WebGl2RenderingContext::get_uniform_location`: the place of the uniform
/// called `name` in the program, if the context gives one. Nothing is
/// claimed of the answer.
#[verifier::external_body]
pub(crate) fn ctx_get_uniform_location(
    context: &WebGl2RenderingContext,
    program: &WebGlProgram,
    name: &str,
) -> (location: Option<WebGlUniformLocation>) {
    context.get_uniform_location(program, name)
}

/// `WebGl2RenderingContext::vertex_attrib_pointer_with_i32`: says where in
/// the bound buffer the values of the attribute at `index` lie.
#[verifier::external_body]
pub(crate) fn ctx_vertex_attrib_pointer(
    context: &WebGl2RenderingContext,
    index: u32,
    size: i32,
    kind: u32,
    normalized: bool,
    stride: i32,
    offset: i32,
) {
    context.vertex_attrib_pointer_with_i32(index, size, kind, normalized, stride, offset)
}

/// `WebGl2RenderingContext::enable_vertex_attrib_array`: has the attribute at
/// `index` take its values from the buffer.
#[verifier::external_body]
pub(crate) fn ctx_enable_vertex_attrib_array(context: &WebGl2RenderingContext, index: u32) {
    context.enable_vertex_attrib_array(index)
}

} // verus!
