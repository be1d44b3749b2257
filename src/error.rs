use vstd::prelude::*;

verus! {

/// A shader stage of a program.
#[derive(Clone, Copy, Debug, PartialEq, Eq, Structural)]
pub enum Stage {
    Vertex,
    Fragment,
}

/// Everything that can go wrong while setting up or driving a program.
#[derive(Debug)]
pub enum GfxError {
    /// A stage failed to compile; carries the driver's diagnostic text.
    ShaderCompile { stage: Stage, log: String },
    /// The stages failed to link; carries the driver's diagnostic text.
    ProgramLink { log: String },
    /// The linked program has no vertex attribute of this name.
    MissingAttribute { name: String },
    /// The linked program has no uniform of this name.
    MissingUniform { name: String },
    /// The attribute was never registered with the program.
    AttributeNotRegistered { name: String },
    /// The uniform was never registered with the program.
    UniformNotRegistered { name: String },
    /// A uniform upload was attempted while another program was active.
    WrongActiveProgram { expected: u32, active: u32 },
    /// Every program identifier has been handed out.
    ProgramIdsExhausted,
    /// A vertex attribute reads 1 to 4 components per vertex.
    InvalidComponentCount { components: i32 },
    /// The vertex data does not split into whole vertices.
    PartialVertex { len: usize, components: i32 },
}

} // verus!
