use vstd::prelude::*;

verus! {

/// Primitive topology of one draw call.
#[derive(Clone, Copy, Debug, PartialEq, Eq, Structural)]
pub enum DrawType {
    Triangles,
    TriangleStrip,
}

/// One per-vertex attribute stream. Components are single-precision floats,
/// held as their IEEE-754 bit patterns (`f32::to_bits`), laid out record after
/// record.
#[derive(Clone, Debug, PartialEq)]
pub enum InputBuffer {
    Vec2(Vec<u32>),
    Vec3(Vec<u32>),
}

/// Size in bytes of one float component.
pub const COMPONENT_SIZE: usize = 4;

impl InputBuffer {
    /// The flat sequence of components.
    pub open spec fn data(&self) -> Seq<u32> {
        match self {
            InputBuffer::Vec2(v) => v@,
            InputBuffer::Vec3(v) => v@,
        }
    }

    /// Number of components in one record.
    pub open spec fn arity(&self) -> nat {
        match self {
            InputBuffer::Vec2(_) => 2,
            InputBuffer::Vec3(_) => 3,
        }
    }

    /// Number of records in the stream.
    pub open spec fn records(&self) -> nat {
        self.data().len() / self.arity()
    }

    /// The stream is made of whole records only.
    pub open spec fn wf(&self) -> bool {
        self.data().len() % self.arity() == 0
    }

    /// Record count.
    pub fn len(&self) -> (r: usize)
        ensures
            r == self.records(),
    {
        match self {
            InputBuffer::Vec2(v) => v.len() / 2,
            InputBuffer::Vec3(v) => v.len() / 3,
        }
    }

    /// Components per record.
    pub fn elem_len(&self) -> (r: usize)
        ensures
            r == self.arity(),
    {
        match self {
            InputBuffer::Vec2(_) => 2,
            InputBuffer::Vec3(_) => 3,
        }
    }

    /// Byte size of one record: its arity times the size of a float.
    pub fn input_size(&self) -> (r: usize)
        ensures
            r == self.arity() * 4,
    {
        self.elem_len() * COMPONENT_SIZE
    }

    /// Byte size of the whole stream.
    pub fn buffer_size(&self) -> (r: usize)
        requires
            self.data().len() * 4 <= usize::MAX,
        ensures
            r == self.data().len() * 4,
    {
        match self {
            InputBuffer::Vec2(v) => v.len() * COMPONENT_SIZE,
            InputBuffer::Vec3(v) => v.len() * COMPONENT_SIZE,
        }
    }

    /// The components, in order.
    pub fn as_slice(&self) -> (r: &[u32])
        ensures
            r@ == self.data(),
    {
        match self {
            InputBuffer::Vec2(v) => v.as_slice(),
            InputBuffer::Vec3(v) => v.as_slice(),
        }
    }

    /// A copy of the components, in order.
    pub fn components(&self) -> (r: Vec<u32>)
        ensures
            r@ == self.data(),
    {
        let v = match self {
            InputBuffer::Vec2(v) => v,
            InputBuffer::Vec3(v) => v,
        };
        let r = v.clone();
        assert(r@ =~= v@);
        r
    }

    /// Whether the stream holds whole records only: a trailing partial record
    /// would leave the backend reading a stride that the data does not have.
    pub fn is_complete(&self) -> (r: bool)
        ensures
            r == self.wf(),
    {
        match self {
            InputBuffer::Vec2(v) => v.len() % 2 == 0,
            InputBuffer::Vec3(v) => v.len() % 3 == 0,
        }
    }
}

/// Layout of one pixel in texture data.
#[derive(Clone, Copy, Debug, PartialEq, Eq, Structural)]
pub enum ColorFormat {
    RGB,
    RGBA,
}

impl ColorFormat {
    /// Bytes per pixel of this format.
    pub open spec fn spec_size(self) -> nat {
        match self {
            ColorFormat::RGB => 3,
            ColorFormat::RGBA => 4,
        }
    }

    pub fn size(self) -> (r: usize)
        ensures
            r == self.spec_size(),
    {
        match self {
            ColorFormat::RGB => 3,
            ColorFormat::RGBA => 4,
        }
    }
}

/// A value handed to a shader once per draw call. Float components are held
/// as their bit patterns; a matrix is row-major. `T` is the texture handle.
#[derive(Clone, Debug, PartialEq)]
pub enum Uniform<T> {
    Vec2(u32, u32),
    Vec3(u32, u32, u32),
    Matrix([[u32; 4]; 4]),
    Texture2D(T),
}

/// Named uniform values, in declaration order.
#[derive(Debug)]
pub struct Uniforms<T> {
    pub names: Vec<String>,
    pub uniforms: Vec<Uniform<T>>,
}

impl<T> Uniforms<T> {
    /// Each name has its value.
    pub open spec fn wf(&self) -> bool {
        self.names@.len() == self.uniforms@.len()
    }

    /// The names as character sequences.
    pub open spec fn name_seq(&self) -> Seq<Seq<char>> {
        self.names@.map_values(|s: String| s@)
    }

    pub fn new() -> (r: Uniforms<T>)
        ensures
            r.wf(),
            r.names@.len() == 0,
            r.uniforms@.len() == 0,
    {
        Uniforms { names: Vec::new(), uniforms: Vec::new() }
    }

    pub fn add_uniform(&mut self, name: &str, uniform: Uniform<T>)
        ensures
            final(self).name_seq() == old(self).name_seq().push(name@),
            final(self).uniforms@ == old(self).uniforms@.push(uniform),
            old(self).wf() ==> final(self).wf(),
    {
        self.names.push(name.to_owned());
        self.uniforms.push(uniform);
        assert(self.name_seq() =~= old(self).name_seq().push(name@));
    }
}

/// One attribute stream held by a backend.
pub trait Buffer {
    /// The stream's data.
    spec fn input(&self) -> InputBuffer;

    /// The backend handle.
    spec fn handle(&self) -> u32;

    fn get_buffer(&self) -> (r: &InputBuffer)
        ensures
            *r == self.input(),
    ;

    fn get_bind(&self) -> (r: u32)
        ensures
            r == self.handle(),
    ;

    /// Components per record.
    fn elem_len(&self) -> (r: usize)
        ensures
            r == self.input().arity(),
    ;

    /// Record count.
    fn len(&self) -> (r: usize)
        ensures
            r == self.input().records(),
    ;
}

/// Named attribute streams read through one vertex array.
pub trait VertexBuffer {
    /// The stream names, in order.
    spec fn name_seq(&self) -> Seq<Seq<char>>;

    /// The stream handles, in order.
    spec fn bind_seq(&self) -> Seq<u32>;

    /// The vertex array handle.
    spec fn handle(&self) -> u32;

    /// Record count shared by all streams.
    spec fn records(&self) -> nat;

    spec fn wf(&self) -> bool;

    fn get_names(&self) -> (r: &Vec<String>)
        ensures
            r@.map_values(|s: String| s@) == self.name_seq(),
    ;

    fn get_binds(&self) -> (r: Vec<u32>)
        ensures
            r@ == self.bind_seq(),
    ;

    fn get_bind(&self) -> (r: u32)
        ensures
            r == self.handle(),
    ;

    fn len(&self) -> (r: usize)
        requires
            self.wf(),
        ensures
            r == self.records(),
    ;
}

/// A linked shader program.
pub trait Program {
    /// The backend handle.
    spec fn handle(&self) -> u32;

    fn get_bind(&self) -> (r: u32)
        ensures
            r == self.handle(),
    ;
}

/// A 2D texture held by a backend.
pub trait Texture2D {
    /// The backend handle.
    spec fn handle(&self) -> u32;

    fn get_bind(&self) -> (r: u32)
        ensures
            r == self.handle(),
    ;

    /// The uniform value that refers to this texture: its handle, with no
    /// pixel data.
    fn as_uniform(&self) -> (r: Uniform<u32>)
        ensures
            r == Uniform::Texture2D(self.handle()),
    ;
}

/// The window side of a backend: the input events since the last poll, and
/// presenting the finished frame.
pub trait Context {
    type Event;

    fn get_events(&self) -> Vec<Self::Event>;

    fn finish(&self);
}

} // verus!
