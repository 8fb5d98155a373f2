//! The working parts of a set of WebGL example pages: building a page's
//! shader program, handing its vertices to the program, animating it frame by
//! frame, and following the pointer while it drags the view.
//!
//! The pages themselves, their mark-up and their drawing calls are not here:
//! they use this library and hand it plain values. What the graphics context
//! answers is never assumed; the code is verified for each answer it can give.

pub mod animation;
pub mod buffer;
pub mod context;
pub mod draging;
pub mod error;
pub mod gl;
pub mod look_at;
pub mod mode;
pub mod setup;
pub mod shader;
pub mod texture;
