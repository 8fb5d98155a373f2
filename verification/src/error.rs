//! The failures of setting up a page's graphics.
//!
//! Each of them is final for the page that met it: nothing is drawn, and
//! nothing is tried again.

use vstd::prelude::*;
use vstd::string::*;

verus! {

/// The two stages of a shader program.
#[derive(Clone, Copy, Debug, PartialEq, Eq, Structural)]
pub enum ShaderStage {
    /// Runs once per vertex and computes its position.
    Vertex,
    /// Runs once per pixel and computes its colour.
    Fragment,
}

/// The kinds of object that a graphics context hands out.
#[derive(Clone, Copy, Debug, PartialEq, Eq, Structural)]
pub enum ResourceKind {
    Buffer,
    Texture,
    Shader,
    Program,
}

/// A failure as contracts see it: a [`GlError`] with its texts as sequences
/// of characters.
pub enum Failure {
    ShaderCompile { stage: ShaderStage, log: Seq<char> },
    ProgramLink { log: Seq<char> },
    ResourceCreation { kind: ResourceKind },
    AttributeOrUniformNotFound { name: Seq<char> },
}

/// Why a page's graphics could not be set up.
#[derive(Clone, Debug, PartialEq, Eq)]
pub enum GlError {
    /// The shader of `stage` did not compile; `log` is the diagnostic of the
    /// context, word for word, or a fixed text where it gave none.
    ShaderCompile { stage: ShaderStage, log: String },
    /// The two shaders did not link; `log` is the diagnostic of the context,
    /// word for word, or a fixed text where it gave none.
    ProgramLink { log: String },
    /// The context handed out no object of `kind`.
    ResourceCreation { kind: ResourceKind },
    /// The linked program has no active attribute or uniform called `name`.
    AttributeOrUniformNotFound { name: String },
}

impl View for GlError {
    type V = Failure;

    open spec fn view(&self) -> Failure {
        match *self {
            GlError::ShaderCompile { stage, log } => Failure::ShaderCompile { stage, log: log@ },
            GlError::ProgramLink { log } => Failure::ProgramLink { log: log@ },
            GlError::ResourceCreation { kind } => Failure::ResourceCreation { kind },
            GlError::AttributeOrUniformNotFound { name } => Failure::AttributeOrUniformNotFound {
                name: name@,
            },
        }
    }
}

/// The failure that `outcome` stands for, if it is one.
pub open spec fn failure_in<T>(outcome: Result<T, GlError>) -> Option<Failure> {
    match outcome {
        Ok(_) => None,
        Err(error) => Some(error@),
    }
}

/// `outcome` as contracts see it: with its error, if it is one, as a
/// [`Failure`].
pub open spec fn outcome_view<T>(outcome: Result<T, GlError>) -> Result<T, Failure> {
    match outcome {
        Ok(value) => Ok(value),
        Err(error) => Err(error@),
    }
}

/// The text that reports that no object of `kind` could be had.
pub open spec fn creation_message(kind: ResourceKind) -> Seq<char> {
    match kind {
        ResourceKind::Buffer => "Failed to create the buffer object"@,
        ResourceKind::Texture => "Failed to create the texture object"@,
        ResourceKind::Shader => "Unable to create shader object"@,
        ResourceKind::Program => "Unable to create shader object"@,
    }
}

/// The text that reports `failure`: the log of a failed compilation or link,
/// the fixed text of the missing kind of object, or the missing name behind a
/// fixed beginning.
pub open spec fn message_of(failure: Failure) -> Seq<char> {
    match failure {
        Failure::ShaderCompile { log, .. } => log,
        Failure::ProgramLink { log } => log,
        Failure::ResourceCreation { kind } => creation_message(kind),
        Failure::AttributeOrUniformNotFound { name } => "Failed to get the storage location of "@
            + name,
    }
}

impl GlError {
    /// The text that reports this failure to a person.
    pub fn message(&self) -> (text: String)
        ensures
            text@ == message_of(self@),
    {
        match self {
            GlError::ShaderCompile { log, .. } => log.clone(),
            GlError::ProgramLink { log } => log.clone(),
            GlError::ResourceCreation { kind } => match kind {
                ResourceKind::Buffer => String::from_str("Failed to create the buffer object"),
                ResourceKind::Texture => String::from_str("Failed to create the texture object"),
                ResourceKind::Shader => String::from_str("Unable to create shader object"),
                ResourceKind::Program => String::from_str("Unable to create shader object"),
            },
            GlError::AttributeOrUniformNotFound { name } => String::from_str(
                "Failed to get the storage location of ",
            ).concat(name.as_str()),
        }
    }
}

} // verus!
