use vstd::prelude::*;

verus! {

/// One call into the graphics driver, as the library decides it. Float values
/// are carried as their bit patterns. The caller performs the actions in the
/// order given.
#[derive(Clone, Debug, PartialEq)]
pub enum Action {
    /// Attach a compiled stage to a program.
    AttachShader { program: u32, shader: u32 },
    /// Release a compiled stage.
    DeleteShader { shader: u32 },
    /// Bind the named fragment output of a program to a color slot.
    BindFragDataLocation { program: u32, color: u32, name: String },
    /// Release a program.
    DeleteProgram { program: u32 },
    /// Fill an allocated array buffer with float components.
    UploadBuffer { buffer: u32, data: Vec<u32> },
    /// Release an array buffer.
    DeleteBuffer { buffer: u32 },
    /// Make a vertex array current.
    BindVertexArray { array: u32 },
    /// Release a vertex array.
    DeleteVertexArray { array: u32 },
    /// Make an array buffer current.
    BindBuffer { buffer: u32 },
    /// Read attribute `location` from the current buffer: `size` floats per
    /// record, tightly packed, from offset zero; and enable it.
    EnableAttribute { location: u32, size: u32 },
    /// Make a program current.
    UseProgram { program: u32 },
    /// Set a 2-vector uniform.
    Uniform2 { location: i32, x: u32, y: u32 },
    /// Set a 3-vector uniform.
    Uniform3 { location: i32, x: u32, y: u32, z: u32 },
    /// Set a row-major 4x4 matrix uniform.
    UniformMatrix { location: i32, value: [[u32; 4]; 4] },
    /// Select a texture unit.
    ActiveTexture { unit: u32 },
    /// Bind a 2D texture to the selected unit.
    BindTexture { texture: u32 },
    /// Set an integer uniform (a sampler's texture unit).
    Uniform1i { location: i32, value: i32 },
    /// Draw `count` records of the current vertex array.
    DrawArrays { mode: u32, count: usize },
    /// Clear the color and depth buffers.
    Clear,
    /// Set the clear color.
    ClearColor { r: u32, g: u32, b: u32, a: u32 },
    /// Fill an allocated 2D texture with pixel bytes.
    UploadTexture { texture: u32, format: u32, width: u32, height: u32, data: Vec<u8> },
    /// Release a texture.
    DeleteTexture { texture: u32 },
    /// Present the finished frame.
    Present,
}

/// What an action is, with its byte and text payloads as sequences.
pub enum ActionView {
    BindFragDataLocation { program: u32, color: u32, name: Seq<char> },
    UploadBuffer { buffer: u32, data: Seq<u32> },
    UploadTexture { texture: u32, format: u32, width: u32, height: u32, data: Seq<u8> },
    /// Any action without such a payload.
    Plain(Action),
}

impl View for Action {
    type V = ActionView;

    open spec fn view(&self) -> ActionView {
        match self {
            Action::BindFragDataLocation { program, color, name } => ActionView::BindFragDataLocation {
                program: *program,
                color: *color,
                name: name@,
            },
            Action::UploadBuffer { buffer, data } => ActionView::UploadBuffer {
                buffer: *buffer,
                data: data@,
            },
            Action::UploadTexture { texture, format, width, height, data } => ActionView::UploadTexture {
                texture: *texture,
                format: *format,
                width: *width,
                height: *height,
                data: data@,
            },
            _ => ActionView::Plain(*self),
        }
    }
}

/// The actions of a list, as views.
pub open spec fn calls(v: Seq<Action>) -> Seq<ActionView> {
    v.map_values(|a: Action| a@)
}

/// A plain action as a view.
pub open spec fn plain(a: Action) -> ActionView {
    ActionView::Plain(a)
}

pub proof fn lemma_calls_push(v: Seq<Action>, a: Action)
    ensures
        calls(v.push(a)) == calls(v).push(a@),
{
    assert(calls(v.push(a)) =~= calls(v).push(a@));
}

} // verus!
