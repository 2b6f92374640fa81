use vstd::prelude::*;

use crate::action::{calls, lemma_calls_push, plain, Action, ActionView};
use crate::backend::{
    Buffer, ColorFormat, DrawType, InputBuffer, Program, Texture2D, Uniform, Uniforms, VertexBuffer,
};

verus! {

/// Relies on gl::TRIANGLES, which gl's bindings take from the Khronos
/// registry: 0x0004.
#[verifier::external_body]
fn gl_triangles() -> (r: u32)
    ensures
        r == 0x0004,
{
    gl::TRIANGLES
}

/// Relies on gl::TRIANGLE_STRIP, from the Khronos registry: 0x0005.
#[verifier::external_body]
fn gl_triangle_strip() -> (r: u32)
    ensures
        r == 0x0005,
{
    gl::TRIANGLE_STRIP
}

/// Relies on gl::RGB, from the Khronos registry: 0x1907.
#[verifier::external_body]
fn gl_rgb() -> (r: u32)
    ensures
        r == 0x1907,
{
    gl::RGB
}

/// Relies on gl::RGBA, from the Khronos registry: 0x1908.
#[verifier::external_body]
fn gl_rgba() -> (r: u32)
    ensures
        r == 0x1908,
{
    gl::RGBA
}

/// Relies on gl::VERTEX_SHADER, from the Khronos registry: 0x8B31.
#[verifier::external_body]
fn gl_vertex_shader() -> (r: u32)
    ensures
        r == 0x8B31,
{
    gl::VERTEX_SHADER
}

/// Relies on gl::FRAGMENT_SHADER, from the Khronos registry: 0x8B30.
#[verifier::external_body]
fn gl_fragment_shader() -> (r: u32)
    ensures
        r == 0x8B30,
{
    gl::FRAGMENT_SHADER
}

/// Relies on gl::GEOMETRY_SHADER, from the Khronos registry: 0x8DD9.
#[verifier::external_body]
fn gl_geometry_shader() -> (r: u32)
    ensures
        r == 0x8DD9,
{
    gl::GEOMETRY_SHADER
}

/// The GL primitive mode of a draw type.
pub open spec fn draw_mode(t: DrawType) -> u32 {
    match t {
        DrawType::Triangles => 0x0004,
        DrawType::TriangleStrip => 0x0005,
    }
}

/// The GL pixel format of a color format.
pub open spec fn pixel_format(f: ColorFormat) -> u32 {
    match f {
        ColorFormat::RGB => 0x1907,
        ColorFormat::RGBA => 0x1908,
    }
}

pub fn draw_type_to_gl_type(t: DrawType) -> (r: u32)
    ensures
        r == draw_mode(t),
{
    match t {
        DrawType::Triangles => gl_triangles(),
        DrawType::TriangleStrip => gl_triangle_strip(),
    }
}

pub fn color_format_to_gl_type(format: ColorFormat) -> (r: u32)
    ensures
        r == pixel_format(format),
{
    match format {
        ColorFormat::RGB => gl_rgb(),
        ColorFormat::RGBA => gl_rgba(),
    }
}

/// The calls that set one uniform at `loc`, with `unit` the next free texture
/// unit.
pub open spec fn uniform_calls(loc: i32, val: Uniform<u32>, unit: u32) -> Seq<ActionView> {
    match val {
        Uniform::Vec2(x, y) => seq![plain(Action::Uniform2 { location: loc, x, y })],
        Uniform::Vec3(x, y, z) => seq![plain(Action::Uniform3 { location: loc, x, y, z })],
        Uniform::Matrix(m) => seq![plain(Action::UniformMatrix { location: loc, value: m })],
        Uniform::Texture2D(t) => seq![
            plain(Action::ActiveTexture { unit }),
            plain(Action::BindTexture { texture: t }),
            plain(Action::Uniform1i { location: loc, value: unit as i32 }),
        ],
    }
}

/// Texture units that one uniform takes.
pub open spec fn units_of(val: Uniform<u32>) -> nat {
    match val {
        Uniform::Texture2D(_) => 1,
        _ => 0,
    }
}

/// Texture units taken by the first `n` uniforms.
pub open spec fn units_before(us: Seq<Uniform<u32>>, n: nat) -> nat
    decreases n,
{
    if n == 0 {
        0
    } else {
        units_before(us, (n - 1) as nat) + units_of(us[n - 1])
    }
}

pub proof fn lemma_units_bounded(us: Seq<Uniform<u32>>, n: nat)
    ensures
        units_before(us, n) <= n,
    decreases n,
{
    if n > 0 {
        lemma_units_bounded(us, (n - 1) as nat);
    }
}

/// Sets one uniform value at `loc`. A texture takes the unit `*texid`, which
/// then moves on by one.
pub fn set_uniform_value(loc: i32, val: &Uniform<u32>, texid: &mut u32) -> (r: Vec<Action>)
    requires
        *old(texid) < i32::MAX,
    ensures
        calls(r@) == uniform_calls(loc, *val, *old(texid)),
        *final(texid) == *old(texid) + units_of(*val),
{
    let mut r: Vec<Action> = Vec::new();
    match val {
        Uniform::Vec2(x, y) => {
            r.push(Action::Uniform2 { location: loc, x: *x, y: *y });
        },
        Uniform::Vec3(x, y, z) => {
            r.push(Action::Uniform3 { location: loc, x: *x, y: *y, z: *z });
        },
        Uniform::Matrix(m) => {
            r.push(Action::UniformMatrix { location: loc, value: *m });
        },
        Uniform::Texture2D(b) => {
            let unit = *texid;
            r.push(Action::ActiveTexture { unit });
            r.push(Action::BindTexture { texture: *b });
            r.push(Action::Uniform1i { location: loc, value: unit as i32 });
            *texid = unit + 1;
        },
    }
    assert(calls(r@) =~= uniform_calls(loc, *val, *old(texid)));
    r
}

/// One attribute stream held by the backend.
#[derive(Debug)]
pub struct GLBuffer {
    buffer: InputBuffer,
    bind: u32,
}

impl GLBuffer {
    /// Takes `buffer` into the backend buffer `bind`, which the caller has
    /// allocated: the one action uploads the data there.
    pub fn new(buffer: InputBuffer, bind: u32) -> (r: (GLBuffer, Action))
        ensures
            r.0.input() == buffer,
            r.0.handle() == bind,
            r.1@ == (ActionView::UploadBuffer { buffer: bind, data: buffer.data() }),
    {
        let data = buffer.components();
        (GLBuffer { buffer, bind }, Action::UploadBuffer { buffer: bind, data })
    }

    /// Releases the backend buffer.
    pub fn release(self) -> (r: Action)
        ensures
            r@ == plain(Action::DeleteBuffer { buffer: self.handle() }),
    {
        Action::DeleteBuffer { buffer: self.bind }
    }
}

impl Buffer for GLBuffer {
    closed spec fn input(&self) -> InputBuffer {
        self.buffer
    }

    closed spec fn handle(&self) -> u32 {
        self.bind
    }

    fn get_buffer(&self) -> (r: &InputBuffer) {
        &self.buffer
    }

    fn get_bind(&self) -> (r: u32) {
        self.bind
    }

    fn elem_len(&self) -> (r: usize) {
        self.buffer.elem_len()
    }

    fn len(&self) -> (r: usize) {
        self.buffer.len()
    }
}

/// Some earlier name equals the one at `j`.
pub open spec fn dup_at(names: Seq<Seq<char>>, j: int) -> bool {
    exists|i: int| 0 <= i < j && names[i] == names[j]
}

/// No name occurs twice.
pub open spec fn unique(names: Seq<Seq<char>>) -> bool {
    forall|j: int| 0 <= j < names.len() ==> !#[trigger] dup_at(names, j)
}

/// The handles of a list of buffers.
pub open spec fn handles(bs: Seq<GLBuffer>) -> Seq<u32> {
    bs.map_values(|b: GLBuffer| b.handle())
}

/// The calls that release the given buffers, in order.
pub open spec fn release_calls(bs: Seq<GLBuffer>) -> Seq<ActionView> {
    bs.map_values(|b: GLBuffer| plain(Action::DeleteBuffer { buffer: b.handle() }))
}

/// The calls that wire the first `n` buffers to their attribute locations.
pub open spec fn wiring_calls(bs: Seq<GLBuffer>, locs: Seq<i32>, n: nat) -> Seq<ActionView>
    decreases n,
{
    if n == 0 {
        seq![]
    } else {
        wiring_calls(bs, locs, (n - 1) as nat) + seq![
            plain(Action::BindBuffer { buffer: bs[n - 1].handle() }),
            plain(
                Action::EnableAttribute {
                    location: locs[n - 1] as u32,
                    size: bs[n - 1].input().arity() as u32,
                },
            ),
        ]
    }
}

/// A built set of named attribute streams and the vertex array that reads
/// them.
#[derive(Debug)]
pub struct GLVertexBuffer {
    names: Vec<String>,
    buffers: Vec<GLBuffer>,
    vao: u32,
}

impl GLVertexBuffer {
    /// The streams, in order.
    pub closed spec fn buffer_seq(&self) -> Seq<GLBuffer> {
        self.buffers@
    }

    pub fn new(names: Vec<String>, buffers: Vec<GLBuffer>, vao: u32) -> (r: GLVertexBuffer)
        requires
            buffers@.len() > 0,
            names@.len() == buffers@.len(),
            unique(names@.map_values(|s: String| s@)),
            forall|i: int|
                0 <= i < buffers@.len() ==> #[trigger] buffers@[i].input().records()
                    == buffers@[0].input().records(),
        ensures
            r.wf(),
            r.name_seq() == names@.map_values(|s: String| s@),
            r.buffer_seq() == buffers@,
            r.handle() == vao,
    {
        GLVertexBuffer { names, buffers, vao }
    }

    pub fn get_buffers(&self) -> (r: &Vec<GLBuffer>)
        ensures
            r@ == self.buffer_seq(),
    {
        &self.buffers
    }

    /// Releases the vertex array, then every buffer in order.
    pub fn release(self) -> (r: Vec<Action>)
        ensures
            calls(r@) == seq![plain(Action::DeleteVertexArray { array: self.handle() })]
                + release_calls(self.buffer_seq()),
    {
        let mut r: Vec<Action> = Vec::new();
        r.push(Action::DeleteVertexArray { array: self.vao });
        release_all(self.buffers, &mut r);
        r
    }
}

impl VertexBuffer for GLVertexBuffer {
    closed spec fn name_seq(&self) -> Seq<Seq<char>> {
        self.names@.map_values(|s: String| s@)
    }

    open spec fn bind_seq(&self) -> Seq<u32> {
        handles(self.buffer_seq())
    }

    closed spec fn handle(&self) -> u32 {
        self.vao
    }

    /// Record count shared by all streams.
    open spec fn records(&self) -> nat {
        self.buffer_seq()[0].input().records()
    }

    /// At least one stream; one name per stream, no name twice; every stream
    /// of the same record count.
    open spec fn wf(&self) -> bool {
        &&& self.buffer_seq().len() > 0
        &&& self.name_seq().len() == self.buffer_seq().len()
        &&& unique(self.name_seq())
        &&& forall|i: int|
            0 <= i < self.buffer_seq().len() ==> #[trigger] self.buffer_seq()[i].input().records()
                == self.buffer_seq()[0].input().records()
    }

    fn get_names(&self) -> (r: &Vec<String>) {
        &self.names
    }

    fn get_bind(&self) -> (r: u32) {
        self.vao
    }

    /// The buffer handles, in order.
    fn get_binds(&self) -> (r: Vec<u32>) {
        let mut r: Vec<u32> = Vec::new();
        let mut i: usize = 0;
        while i < self.buffers.len()
            invariant
                i <= self.buffers@.len(),
                r@ == handles(self.buffers@.subrange(0, i as int)),
            decreases self.buffers@.len() - i,
        {
            r.push(self.buffers[i].get_bind());
            i += 1;
            assert(handles(self.buffers@.subrange(0, i as int)) =~= handles(
                self.buffers@.subrange(0, (i - 1) as int),
            ).push(self.buffers@[i - 1].handle()));
        }
        assert(self.buffers@.subrange(0, i as int) =~= self.buffers@);
        r
    }

    fn len(&self) -> (r: usize) {
        self.buffers[0].len()
    }
}

/// Appends the release of every buffer, in order.
fn release_all(buffers: Vec<GLBuffer>, out: &mut Vec<Action>)
    ensures
        calls(final(out)@) == calls(old(out)@) + release_calls(buffers@),
{
    let ghost head = calls(out@);
    let mut buffers = buffers;
    let ghost all = buffers@;
    let ghost done: Seq<GLBuffer> = seq![];
    while buffers.len() > 0
        invariant
            all == done + buffers@,
            calls(out@) == head + release_calls(done),
        decreases buffers@.len(),
    {
        let b = buffers.remove(0);
        proof {
            lemma_calls_push(out@, Action::DeleteBuffer { buffer: b.handle() });
        }
        out.push(b.release());
        proof {
            assert(release_calls(done.push(b)) =~= release_calls(done).push(
                plain(Action::DeleteBuffer { buffer: b.handle() }),
            ));
            done = done.push(b);
            assert(all =~= done + buffers@);
        }
    }
    assert(done =~= all);
}

/// Why a vertex buffer could not be built. `index` is the position of the
/// first offending input.
#[derive(Clone, Copy, Debug, PartialEq, Eq, Structural)]
pub enum BuildError {
    /// No input was added.
    Empty,
    /// The input's name was used by an earlier input.
    DuplicateName { index: usize },
    /// The input's record count differs from the first input's.
    LengthMismatch { index: usize },
    /// The program has no attribute of the input's name.
    UnknownAttribute { index: usize },
}

/// Stream `j` has as many records as the first.
pub open spec fn same_records(bs: Seq<GLBuffer>, j: int) -> bool {
    bs[j].input().records() == bs[0].input().records()
}

/// Every input can be wired: there is one, names are unique, record counts
/// agree, and each name has an attribute location.
pub open spec fn buildable(names: Seq<Seq<char>>, bs: Seq<GLBuffer>, locs: Seq<i32>) -> bool {
    &&& names.len() > 0
    &&& unique(names)
    &&& forall|j: int| 0 <= j < bs.len() ==> #[trigger] same_records(bs, j)
    &&& forall|j: int| 0 <= j < locs.len() ==> #[trigger] locs[j] >= 0
}

/// `e` is the first rule, in the order of [`BuildError`]'s variants, that
/// the inputs break, at its first offending input.
pub open spec fn first_violation(
    e: BuildError,
    names: Seq<Seq<char>>,
    bs: Seq<GLBuffer>,
    locs: Seq<i32>,
) -> bool {
    match e {
        BuildError::Empty => names.len() == 0,
        BuildError::DuplicateName { index } => {
            &&& names.len() > 0
            &&& index < names.len()
            &&& dup_at(names, index as int)
            &&& forall|k: int| 0 <= k < index ==> !#[trigger] dup_at(names, k)
        },
        BuildError::LengthMismatch { index } => {
            &&& names.len() > 0
            &&& unique(names)
            &&& index < bs.len()
            &&& !same_records(bs, index as int)
            &&& forall|k: int| 0 <= k < index ==> #[trigger] same_records(bs, k)
        },
        BuildError::UnknownAttribute { index } => {
            &&& names.len() > 0
            &&& unique(names)
            &&& forall|j: int| 0 <= j < bs.len() ==> #[trigger] same_records(bs, j)
            &&& index < locs.len()
            &&& locs[index as int] < 0
            &&& forall|k: int| 0 <= k < index ==> #[trigger] locs[k] >= 0
        },
    }
}

/// What a build over `names`, `bs` and `locs` into `vao` gives: the vertex
/// buffer and its wiring when the inputs are buildable, else the first rule
/// broken and the release of every resource.
pub open spec fn build_outcome(
    names: Seq<Seq<char>>,
    bs: Seq<GLBuffer>,
    locs: Seq<i32>,
    vao: u32,
    r: Result<GLVertexBuffer, BuildError>,
    actions: Seq<Action>,
) -> bool {
    match r {
        Ok(vb) => {
            &&& buildable(names, bs, locs)
            &&& vb.wf()
            &&& vb.name_seq() == names
            &&& vb.buffer_seq() == bs
            &&& vb.handle() == vao
            &&& calls(actions) == seq![plain(Action::BindVertexArray { array: vao })]
                + wiring_calls(bs, locs, bs.len())
        },
        Err(e) => {
            &&& !buildable(names, bs, locs)
            &&& first_violation(e, names, bs, locs)
            &&& calls(actions) == seq![plain(Action::DeleteVertexArray { array: vao })]
                + release_calls(bs)
        },
    }
}

/// Streams of a built vertex buffer all have the same record count, and a
/// build over streams whose record counts differ fails: nothing is truncated.
pub proof fn lemma_built_lengths_agree(
    names: Seq<Seq<char>>,
    bs: Seq<GLBuffer>,
    locs: Seq<i32>,
    vao: u32,
    r: Result<GLVertexBuffer, BuildError>,
    actions: Seq<Action>,
)
    requires
        build_outcome(names, bs, locs, vao, r, actions),
    ensures
        r matches Ok(vb) ==> forall|i: int|
            0 <= i < vb.buffer_seq().len() ==> #[trigger] vb.buffer_seq()[i].input().records()
                == vb.records(),
        (exists|i: int| 0 <= i < bs.len() && !#[trigger] same_records(bs, i)) ==> r is Err,
{
}

/// Collects named attribute streams, each uploaded when it is added, until
/// [`GLVertexBufferBuilder::build`] wires them into a vertex array.
#[derive(Debug)]
pub struct GLVertexBufferBuilder {
    names: Vec<String>,
    buffers: Vec<GLBuffer>,
}

impl GLVertexBufferBuilder {
    pub closed spec fn name_seq(&self) -> Seq<Seq<char>> {
        self.names@.map_values(|s: String| s@)
    }

    pub closed spec fn buffer_seq(&self) -> Seq<GLBuffer> {
        self.buffers@
    }

    /// One name per stream.
    pub open spec fn wf(&self) -> bool {
        self.name_seq().len() == self.buffer_seq().len()
    }

    pub fn new() -> (r: GLVertexBufferBuilder)
        ensures
            r.wf(),
            r.name_seq().len() == 0,
    {
        GLVertexBufferBuilder { names: Vec::new(), buffers: Vec::new() }
    }

    /// Appends the stream `input` under `name`, held in the backend buffer
    /// `bind` that the caller has allocated. The returned action uploads it.
    /// A stream with a partial record is refused before this call: see
    /// [`InputBuffer::is_complete`].
    pub fn add_input(&mut self, name: &str, input: InputBuffer, bind: u32) -> (r: Action)
        requires
            input.wf(),
        ensures
            final(self).name_seq() == old(self).name_seq().push(name@),
            final(self).buffer_seq().len() == old(self).buffer_seq().len() + 1,
            final(self).buffer_seq().subrange(0, old(self).buffer_seq().len() as int)
                == old(self).buffer_seq(),
            final(self).buffer_seq().last().input() == input,
            final(self).buffer_seq().last().handle() == bind,
            old(self).wf() ==> final(self).wf(),
            r@ == (ActionView::UploadBuffer { buffer: bind, data: input.data() }),
    {
        let (buffer, upload) = GLBuffer::new(input, bind);
        self.names.push(name.to_owned());
        self.buffers.push(buffer);
        assert(self.name_seq() =~= old(self).name_seq().push(name@));
        assert(self.buffers@.subrange(0, old(self).buffers@.len() as int) =~= old(self).buffers@);
        upload
    }

    /// The names added so far, in order: the attributes to look up.
    pub fn get_names(&self) -> (r: &Vec<String>)
        ensures
            r@.map_values(|s: String| s@) == self.name_seq(),
    {
        &self.names
    }

    /// Releases every buffer of a builder that will not be built.
    pub fn release(self) -> (r: Vec<Action>)
        ensures
            calls(r@) == release_calls(self.buffer_seq()),
    {
        let mut r: Vec<Action> = Vec::new();
        release_all(self.buffers, &mut r);
        assert(calls(r@) =~= release_calls(self.buffer_seq()));
        r
    }

    /// Wires every stream, in insertion order, to its attribute location in
    /// the vertex array `vao`, which the caller has allocated.
    /// `locations[i]` is the location that the program gives the `i`-th name,
    /// negative where it has none. On failure the actions release the vertex
    /// array and every buffer.
    pub fn build(self, locations: &Vec<i32>, vao: u32) -> (r: (
        Result<GLVertexBuffer, BuildError>,
        Vec<Action>,
    ))
        requires
            self.wf(),
            locations@.len() == self.name_seq().len(),
        ensures
            build_outcome(self.name_seq(), self.buffer_seq(), locations@, vao, r.0, r.1@),
    {
        let ghost names = self.name_seq();
        let ghost bs = self.buffer_seq();
        let ghost locs = locations@;
        let n = self.names.len();
        let mut err: Option<BuildError> = None;
        if n == 0 {
            err = Some(BuildError::Empty);
        }
        let mut j: usize = 1;
        while err.is_none() && j < n
            invariant
                n == names.len(),
                names == self.name_seq(),
                1 <= j <= n || n == 0,
                err.is_none() ==> n > 0 && forall|k: int| 0 <= k < j ==> !#[trigger] dup_at(names, k),
                err.is_some() ==> first_violation(err.unwrap(), names, bs, locs),
            decreases n - j,
        {
            let mut i: usize = 0;
            while err.is_none() && i < j
                invariant
                    n == names.len(),
                    names == self.name_seq(),
                    0 <= i <= j < n,
                    err.is_none() ==> forall|k: int| 0 <= k < i ==> names[k] != names[j as int],
                    err.is_none() ==> forall|k: int| 0 <= k < j ==> !#[trigger] dup_at(names, k),
                    err.is_some() ==> first_violation(err.unwrap(), names, bs, locs),
                decreases j - i,
            {
                if self.names[i] == self.names[j] {
                    assert(names[i as int] == self.names@[i as int]@);
                    assert(names[j as int] == self.names@[j as int]@);
                    assert(dup_at(names, j as int));
                    err = Some(BuildError::DuplicateName { index: j });
                }
                i += 1;
            }
            j += 1;
        }
        if err.is_none() {
            let first = self.buffers[0].len();
            let mut j: usize = 1;
            assert(same_records(bs, 0));
            while err.is_none() && j < n
                invariant
                    n == names.len() == bs.len(),
                    bs == self.buffer_seq(),
                    first == bs[0].input().records(),
                    1 <= j <= n,
                    unique(names),
                    err.is_none() ==> forall|k: int| 0 <= k < j ==> #[trigger] same_records(bs, k),
                    err.is_some() ==> first_violation(err.unwrap(), names, bs, locs),
                decreases n - j,
            {
                if self.buffers[j].len() != first {
                    err = Some(BuildError::LengthMismatch { index: j });
                }
                j += 1;
            }
        }
        if err.is_none() {
            let mut j: usize = 0;
            while err.is_none() && j < n
                invariant
                    n == names.len() == bs.len() == locs.len(),
                    locs == locations@,
                    j <= n,
                    unique(names),
                    forall|k: int| 0 <= k < n ==> #[trigger] same_records(bs, k),
                    err.is_none() ==> forall|k: int| 0 <= k < j ==> #[trigger] locs[k] >= 0,
                    err.is_some() ==> first_violation(err.unwrap(), names, bs, locs),
                decreases n - j,
            {
                if locations[j] < 0 {
                    err = Some(BuildError::UnknownAttribute { index: j });
                }
                j += 1;
            }
        }
        let mut actions: Vec<Action> = Vec::new();
        match err {
            Some(e) => {
                proof {
                    match e {
                        BuildError::Empty => {},
                        BuildError::DuplicateName { index } => {
                            assert(!unique(names)) by {
                                assert(dup_at(names, index as int));
                            }
                        },
                        BuildError::LengthMismatch { index } => {
                            assert(!same_records(bs, index as int));
                        },
                        BuildError::UnknownAttribute { index } => {
                            assert(locs[index as int] < 0);
                        },
                    }
                }
                actions.push(Action::DeleteVertexArray { array: vao });
                assert(calls(actions@) =~= seq![plain(Action::DeleteVertexArray { array: vao })]);
                release_all(self.buffers, &mut actions);
                (Err(e), actions)
            },
            None => {
                actions.push(Action::BindVertexArray { array: vao });
                assert(buildable(names, bs, locs));
                let ghost head = calls(actions@);
                assert(head =~= seq![plain(Action::BindVertexArray { array: vao })]);
                let mut i: usize = 0;
                while i < n
                    invariant
                        n == bs.len() == locs.len(),
                        bs == self.buffers@,
                        locs == locations@,
                        i <= n,
                        buildable(names, bs, locs),
                        calls(actions@) == head + wiring_calls(bs, locs, i as nat),
                    decreases n - i,
                {
                    let loc = locations[i];
                    let size = self.buffers[i].elem_len();
                    let bind = self.buffers[i].get_bind();
                    proof {
                        lemma_calls_push(actions@, Action::BindBuffer { buffer: bind });
                    }
                    actions.push(Action::BindBuffer { buffer: bind });
                    proof {
                        lemma_calls_push(
                            actions@,
                            Action::EnableAttribute { location: loc as u32, size: size as u32 },
                        );
                    }
                    actions.push(Action::EnableAttribute { location: loc as u32, size: size as u32 });
                    i += 1;
                    assert(calls(actions@) =~= head + wiring_calls(bs, locs, i as nat));
                }
                assert forall|k: int| 0 <= k < n implies #[trigger] bs[k].input().records()
                    == bs[0].input().records() by {
                    assert(same_records(bs, k));
                }
                let vb = GLVertexBuffer::new(self.names, self.buffers, vao);
                (Ok(vb), actions)
            },
        }
    }
}

/// Why a draw call was refused.
#[derive(Clone, Copy, Debug, PartialEq, Eq, Structural)]
pub enum DrawError {
    /// The program has no uniform of the name at `index`.
    UnknownUniform { index: usize },
}

/// The calls that set the first `n` uniforms, texture units counted from
/// zero in declaration order.
pub open spec fn uniforms_calls(locs: Seq<i32>, us: Seq<Uniform<u32>>, n: nat) -> Seq<ActionView>
    decreases n,
{
    if n == 0 {
        seq![]
    } else {
        uniforms_calls(locs, us, (n - 1) as nat) + uniform_calls(
            locs[n - 1],
            us[n - 1],
            units_before(us, (n - 1) as nat) as u32,
        )
    }
}

/// The calls of one draw: activate the program, bind the vertex array, set
/// every uniform, then draw `count` records.
pub open spec fn draw_calls(
    program: u32,
    mode: u32,
    vao: u32,
    count: nat,
    locs: Seq<i32>,
    us: Seq<Uniform<u32>>,
) -> Seq<ActionView> {
    seq![plain(Action::UseProgram { program }), plain(Action::BindVertexArray { array: vao })]
        + uniforms_calls(locs, us, us.len()) + seq![
        plain(Action::DrawArrays { mode, count: count as usize }),
    ]
}

/// What a draw gives: the calls when every uniform has a location, else the
/// first uniform without one.
pub open spec fn draw_outcome(
    program: u32,
    draw_type: DrawType,
    vb: GLVertexBuffer,
    locs: Seq<i32>,
    us: Seq<Uniform<u32>>,
    r: Result<Vec<Action>, DrawError>,
) -> bool {
    match r {
        Ok(v) => {
            &&& forall|k: int| 0 <= k < locs.len() ==> #[trigger] locs[k] >= 0
            &&& calls(v@) == draw_calls(
                program,
                draw_mode(draw_type),
                vb.handle(),
                vb.records(),
                locs,
                us,
            )
        },
        Err(DrawError::UnknownUniform { index }) => {
            &&& index < locs.len()
            &&& locs[index as int] < 0
            &&& forall|k: int| 0 <= k < index ==> #[trigger] locs[k] >= 0
        },
    }
}

/// Drawing keeps no hidden state: two draws with the same program, draw
/// type, vertex buffer, uniforms and locations issue the same calls, or fail
/// alike.
pub proof fn lemma_draw_repeatable(
    program: u32,
    draw_type: DrawType,
    vb: GLVertexBuffer,
    locs: Seq<i32>,
    us: Seq<Uniform<u32>>,
    r1: Result<Vec<Action>, DrawError>,
    r2: Result<Vec<Action>, DrawError>,
)
    requires
        draw_outcome(program, draw_type, vb, locs, us, r1),
        draw_outcome(program, draw_type, vb, locs, us, r2),
    ensures
        match (r1, r2) {
            (Ok(a), Ok(b)) => calls(a@) == calls(b@),
            (Err(e1), Err(e2)) => e1 == e2,
            _ => false,
        },
{
    match (r1, r2) {
        (Err(DrawError::UnknownUniform { index: i1 }), Err(DrawError::UnknownUniform { index: i2 })) => {
            if i1 < i2 {
                assert(locs[i1 as int] >= 0);
            } else if i2 < i1 {
                assert(locs[i2 as int] >= 0);
            }
        },
        (Ok(_), Err(DrawError::UnknownUniform { index })) => {
            assert(locs[index as int] >= 0);
        },
        (Err(DrawError::UnknownUniform { index }), Ok(_)) => {
            assert(locs[index as int] >= 0);
        },
        _ => {},
    }
}

/// A linked shader program.
#[derive(Debug)]
pub struct GLProgram {
    program: u32,
}

impl Program for GLProgram {
    closed spec fn handle(&self) -> u32 {
        self.program
    }

    fn get_bind(&self) -> (r: u32) {
        self.program
    }
}

impl GLProgram {
    /// Draws every record of `vb` as `draw_type` with `uniforms` set.
    /// `locations[i]` is the location that this program gives the `i`-th
    /// uniform name, negative where it has none. Texture units start at zero
    /// on every call.
    pub fn draw(
        &self,
        draw_type: DrawType,
        vb: &GLVertexBuffer,
        uniforms: &Uniforms<u32>,
        locations: &Vec<i32>,
    ) -> (r: Result<Vec<Action>, DrawError>)
        requires
            vb.wf(),
            uniforms.wf(),
            locations@.len() == uniforms.uniforms@.len(),
            uniforms.uniforms@.len() < i32::MAX,
        ensures
            draw_outcome(self.handle(), draw_type, *vb, locations@, uniforms.uniforms@, r),
    {
        let ghost locs = locations@;
        let ghost us = uniforms.uniforms@;
        let n = locations.len();
        let mut j: usize = 0;
        while j < n
            invariant
                n == locs.len(),
                locs == locations@,
                j <= n,
                forall|k: int| 0 <= k < j ==> #[trigger] locs[k] >= 0,
            decreases n - j,
        {
            if locations[j] < 0 {
                return Err(DrawError::UnknownUniform { index: j });
            }
            j += 1;
        }
        let mut r: Vec<Action> = Vec::new();
        r.push(Action::UseProgram { program: self.program });
        r.push(Action::BindVertexArray { array: vb.get_bind() });
        let ghost head = calls(r@);
        assert(head =~= seq![
            plain(Action::UseProgram { program: self.handle() }),
            plain(Action::BindVertexArray { array: vb.handle() }),
        ]);
        let mut texid: u32 = 0;
        let mut i: usize = 0;
        while i < n
            invariant
                n == locs.len() == us.len(),
                locs == locations@,
                us == uniforms.uniforms@,
                n < i32::MAX,
                i <= n,
                texid == units_before(us, i as nat),
                calls(r@) == head + uniforms_calls(locs, us, i as nat),
            decreases n - i,
        {
            proof {
                lemma_units_bounded(us, i as nat);
            }
            let mut set = set_uniform_value(locations[i], &uniforms.uniforms[i], &mut texid);
            let ghost before = r@;
            let ghost added = set@;
            r.append(&mut set);
            assert(calls(r@) =~= calls(before) + calls(added));
            i += 1;
            assert(calls(r@) =~= head + uniforms_calls(locs, us, i as nat));
        }
        let count = vb.len();
        let mode = draw_type_to_gl_type(draw_type);
        proof {
            lemma_calls_push(r@, Action::DrawArrays { mode, count });
        }
        r.push(Action::DrawArrays { mode, count });
        assert(calls(r@) =~= draw_calls(
            self.handle(),
            draw_mode(draw_type),
            vb.handle(),
            vb.records(),
            locs,
            us,
        ));
        Ok(r)
    }

    /// Releases the program.
    pub fn release(self) -> (r: Action)
        ensures
            r@ == plain(Action::DeleteProgram { program: self.handle() }),
    {
        Action::DeleteProgram { program: self.program }
    }
}

/// The GL stage kind of the `i`-th source: vertex, fragment, then geometry.
pub open spec fn stage_kind(i: nat) -> u32 {
    if i == 0 {
        0x8B31
    } else if i == 1 {
        0x8B30
    } else {
        0x8DD9
    }
}

fn stage_to_gl_type(i: usize) -> (r: u32)
    ensures
        r == stage_kind(i as nat),
{
    if i == 0 {
        gl_vertex_shader()
    } else if i == 1 {
        gl_fragment_shader()
    } else {
        gl_geometry_shader()
    }
}

/// Why a program could not be made. Each carries the driver's diagnostic
/// text unchanged.
#[derive(Clone, Debug, PartialEq)]
pub enum ProgramError {
    Compile(String),
    Link(String),
}

/// What a program build waits for next.
#[derive(Clone, Debug, PartialEq)]
pub enum Request {
    /// Compile `source` as a stage of `kind`, then reply with
    /// [`Reply::Compiled`].
    Compile { kind: u32, source: String },
    /// Link `program`, then reply with [`Reply::Linked`].
    Link { program: u32 },
    /// Nothing: the build has finished.
    Done,
}

/// The driver's answer to a [`Request`]: a compiled stage's handle, or the
/// diagnostic text of a failure.
#[derive(Debug, PartialEq)]
pub enum Reply {
    Compiled(Result<u32, String>),
    Linked(Result<(), String>),
}

/// Builds a program from its stage sources: compiles the vertex, fragment and
/// optional geometry stage in turn, attaching and releasing each, binds the
/// fragment output to color slot 0, and links. The first failure ends the
/// build with that failure's text, and releases the program.
#[derive(Debug)]
pub struct ProgramBuild {
    program: u32,
    sources: Vec<String>,
    out: String,
    stage: usize,
    linking: bool,
    done: bool,
}

impl ProgramBuild {
    /// The program handle being built.
    pub closed spec fn handle(&self) -> u32 {
        self.program
    }

    /// The stage sources, in compile order.
    pub closed spec fn source_seq(&self) -> Seq<Seq<char>> {
        self.sources@.map_values(|s: String| s@)
    }

    /// The fragment output name.
    pub closed spec fn output(&self) -> Seq<char> {
        self.out@
    }

    /// Index of the next stage to compile.
    pub closed spec fn stage(&self) -> nat {
        self.stage as nat
    }

    /// Every stage is attached; the link is due.
    pub closed spec fn linking(&self) -> bool {
        self.linking
    }

    /// The build has finished.
    pub closed spec fn done(&self) -> bool {
        self.done
    }

    pub open spec fn wf(&self) -> bool {
        &&& 2 <= self.source_seq().len() <= 3
        &&& self.stage() < self.source_seq().len()
    }

    /// Starts a build of `program`, which the caller has created.
    pub fn new(program: u32, vssrc: &str, fssrc: &str, gssrc: Option<&str>, out: &str) -> (r:
        ProgramBuild)
        ensures
            r.wf(),
            r.handle() == program,
            r.source_seq() == match gssrc {
                Some(g) => seq![vssrc@, fssrc@, g@],
                None => seq![vssrc@, fssrc@],
            },
            r.output() == out@,
            r.stage() == 0,
            !r.linking(),
            !r.done(),
    {
        let mut sources: Vec<String> = Vec::new();
        sources.push(vssrc.to_owned());
        sources.push(fssrc.to_owned());
        match gssrc {
            Some(g) => sources.push(g.to_owned()),
            None => {},
        }
        let r = ProgramBuild {
            program,
            sources,
            out: out.to_owned(),
            stage: 0,
            linking: false,
            done: false,
        };
        assert(r.source_seq() =~= match gssrc {
            Some(g) => seq![vssrc@, fssrc@, g@],
            None => seq![vssrc@, fssrc@],
        });
        r
    }

    /// What the build waits for.
    pub fn pending(&self) -> (r: Request)
        requires
            self.wf(),
        ensures
            match r {
                Request::Compile { kind, source } => {
                    &&& !self.done()
                    &&& !self.linking()
                    &&& kind == stage_kind(self.stage())
                    &&& source@ == self.source_seq()[self.stage() as int]
                },
                Request::Link { program } => !self.done() && self.linking() && program
                    == self.handle(),
                Request::Done => self.done(),
            },
    {
        if self.done {
            Request::Done
        } else if self.linking {
            Request::Link { program: self.program }
        } else {
            let kind = stage_to_gl_type(self.stage);
            Request::Compile { kind, source: self.sources[self.stage].clone() }
        }
    }

    /// Takes the driver's reply to the pending request. Returns the actions
    /// to perform, and the program or the error once the build has finished.
    pub fn step(&mut self, reply: Reply) -> (r: (Vec<Action>, Option<Result<GLProgram, ProgramError>>))
        requires
            old(self).wf(),
            !old(self).done(),
            old(self).linking() <==> reply is Linked,
        ensures
            final(self).wf(),
            final(self).handle() == old(self).handle(),
            final(self).source_seq() == old(self).source_seq(),
            final(self).output() == old(self).output(),
            match reply {
                Reply::Compiled(Ok(shader)) => {
                    let p = old(self).handle();
                    let attach = seq![
                        plain(Action::AttachShader { program: p, shader }),
                        plain(Action::DeleteShader { shader }),
                    ];
                    &&& r.1 is None
                    &&& !final(self).done()
                    &&& if old(self).stage() + 1 < old(self).source_seq().len() {
                        &&& calls(r.0@) == attach
                        &&& final(self).stage() == old(self).stage() + 1
                        &&& !final(self).linking()
                    } else {
                        &&& calls(r.0@) == attach.push(
                            ActionView::BindFragDataLocation {
                                program: p,
                                color: 0,
                                name: old(self).output(),
                            },
                        )
                        &&& final(self).linking()
                    }
                },
                Reply::Compiled(Err(log)) => {
                    &&& calls(r.0@) == seq![plain(Action::DeleteProgram { program: old(self).handle() })]
                    &&& r.1 == Some(Err::<GLProgram, ProgramError>(ProgramError::Compile(log)))
                    &&& final(self).done()
                },
                Reply::Linked(Ok(())) => {
                    &&& r.0@.len() == 0
                    &&& r.1 matches Some(Ok(prog))
                    &&& prog.handle() == old(self).handle()
                    &&& final(self).done()
                },
                Reply::Linked(Err(log)) => {
                    &&& calls(r.0@) == seq![plain(Action::DeleteProgram { program: old(self).handle() })]
                    &&& r.1 == Some(Err::<GLProgram, ProgramError>(ProgramError::Link(log)))
                    &&& final(self).done()
                },
            },
    {
        let mut actions: Vec<Action> = Vec::new();
        match reply {
            Reply::Compiled(Ok(shader)) => {
                actions.push(Action::AttachShader { program: self.program, shader });
                actions.push(Action::DeleteShader { shader });
                if self.stage + 1 < self.sources.len() {
                    self.stage = self.stage + 1;
                } else {
                    actions.push(
                        Action::BindFragDataLocation {
                            program: self.program,
                            color: 0,
                            name: self.out.clone(),
                        },
                    );
                    self.linking = true;
                }
                (actions, None)
            },
            Reply::Compiled(Err(log)) => {
                actions.push(Action::DeleteProgram { program: self.program });
                self.done = true;
                (actions, Some(Err(ProgramError::Compile(log))))
            },
            Reply::Linked(Ok(())) => {
                self.done = true;
                (actions, Some(Ok(GLProgram { program: self.program })))
            },
            Reply::Linked(Err(log)) => {
                actions.push(Action::DeleteProgram { program: self.program });
                self.done = true;
                (actions, Some(Err(ProgramError::Link(log))))
            },
        }
    }
}

/// A 2D texture held by the backend, with the pixel data it was made from.
#[derive(Debug)]
pub struct GLTexture2D {
    format: ColorFormat,
    width: u32,
    height: u32,
    buffer: Vec<u8>,
    bind: u32,
}

/// `t` holds `data`, `width` by `height` pixels of `format`, in the backend
/// texture `bind`, and `upload` puts the data there.
pub open spec fn texture_made(
    format: ColorFormat,
    width: u32,
    height: u32,
    data: Seq<u8>,
    bind: u32,
    t: GLTexture2D,
    upload: Action,
) -> bool {
    &&& t.handle() == bind
    &&& t.pixels() == data
    &&& t.color_format() == format
    &&& t.size() == (width, height)
    &&& upload@ == (ActionView::UploadTexture {
        texture: bind,
        format: pixel_format(format),
        width,
        height,
        data,
    })
}

/// A texture made from pixel data refers, as a uniform, to its own handle,
/// and keeps its pixel data unchanged: nothing is copied into the uniform.
pub proof fn lemma_texture_uniform_round_trip(
    format: ColorFormat,
    width: u32,
    height: u32,
    data: Seq<u8>,
    bind: u32,
    t: GLTexture2D,
    upload: Action,
)
    requires
        texture_made(format, width, height, data, bind, t, upload),
    ensures
        Uniform::<u32>::Texture2D(t.handle()) == Uniform::<u32>::Texture2D(bind),
        t.pixels() == data,
{
}

impl Texture2D for GLTexture2D {
    closed spec fn handle(&self) -> u32 {
        self.bind
    }

    fn get_bind(&self) -> (r: u32) {
        self.bind
    }

    fn as_uniform(&self) -> (r: Uniform<u32>) {
        Uniform::Texture2D(self.bind)
    }
}

impl GLTexture2D {
    /// The pixel bytes, row after row from the top.
    pub closed spec fn pixels(&self) -> Seq<u8> {
        self.buffer@
    }

    pub closed spec fn color_format(&self) -> ColorFormat {
        self.format
    }

    pub closed spec fn size(&self) -> (u32, u32) {
        (self.width, self.height)
    }

    /// Takes `data`, `width` by `height` pixels of `format`, into the backend
    /// texture `bind` that the caller has allocated: the one action uploads
    /// it there.
    pub fn new(format: ColorFormat, width: u32, height: u32, data: Vec<u8>, bind: u32) -> (r: (
        GLTexture2D,
        Action,
    ))
        requires
            data@.len() == width * height * format.spec_size(),
        ensures
            texture_made(format, width, height, data@, bind, r.0, r.1),
    {
        let gl_format = color_format_to_gl_type(format);
        let copy = data.clone();
        assert(copy@ =~= data@);
        let upload = Action::UploadTexture { texture: bind, format: gl_format, width, height, data: copy };
        (GLTexture2D { format, width, height, buffer: data, bind }, upload)
    }

    /// Releases the texture.
    pub fn release(self) -> (r: Action)
        ensures
            r@ == plain(Action::DeleteTexture { texture: self.handle() }),
    {
        Action::DeleteTexture { texture: self.bind }
    }
}

/// One render pass: any number of draws, then [`GLFrame::finish`].
#[derive(Debug)]
pub struct GLFrame {
    sealed: (),
}

/// What a draw on a frame gives: a clear, then the program's draw.
pub open spec fn frame_draw_outcome(
    program: u32,
    draw_type: DrawType,
    vb: GLVertexBuffer,
    locs: Seq<i32>,
    us: Seq<Uniform<u32>>,
    r: Result<Vec<Action>, DrawError>,
) -> bool {
    match r {
        Ok(v) => {
            &&& forall|k: int| 0 <= k < locs.len() ==> #[trigger] locs[k] >= 0
            &&& calls(v@) == seq![plain(Action::Clear)] + draw_calls(
                program,
                draw_mode(draw_type),
                vb.handle(),
                vb.records(),
                locs,
                us,
            )
        },
        Err(e) => draw_outcome(program, draw_type, vb, locs, us, Err(e)),
    }
}

impl GLFrame {
    /// Opens a frame on `facade`, unless one is open there already.
    pub fn new(facade: &mut OpenGL) -> (r: Option<GLFrame>)
        ensures
            r is Some <==> !old(facade).frame_open(),
            final(facade).frame_open(),
    {
        if facade.frame_open {
            None
        } else {
            facade.frame_open = true;
            Some(GLFrame { sealed: () })
        }
    }

    /// Clears the color and depth buffers, then draws as
    /// [`GLProgram::draw`] does.
    pub fn draw(
        &mut self,
        program: &GLProgram,
        draw_type: DrawType,
        vb: &GLVertexBuffer,
        uniforms: &Uniforms<u32>,
        locations: &Vec<i32>,
    ) -> (r: Result<Vec<Action>, DrawError>)
        requires
            vb.wf(),
            uniforms.wf(),
            locations@.len() == uniforms.uniforms@.len(),
            uniforms.uniforms@.len() < i32::MAX,
        ensures
            frame_draw_outcome(
                program.handle(),
                draw_type,
                *vb,
                locations@,
                uniforms.uniforms@,
                r,
            ),
    {
        match program.draw(draw_type, vb, uniforms, locations) {
            Ok(mut d) => {
                let mut r: Vec<Action> = Vec::new();
                r.push(Action::Clear);
                let ghost first = r@;
                let ghost rest = d@;
                assert(calls(first) =~= seq![plain(Action::Clear)]);
                r.append(&mut d);
                assert(calls(r@) =~= calls(first) + calls(rest));
                Ok(r)
            },
            Err(e) => Err(e),
        }
    }

    /// Sets the clear color; components are float bit patterns.
    pub fn clear_color(&self, r: u32, g: u32, b: u32, a: u32) -> (res: Action)
        ensures
            res@ == plain(Action::ClearColor { r, g, b, a }),
    {
        Action::ClearColor { r, g, b, a }
    }

    /// Ends the frame: presents it, and lets `facade` open the next one.
    pub fn finish(self, facade: &mut OpenGL) -> (r: Action)
        ensures
            r@ == plain(Action::Present),
            !final(facade).frame_open(),
    {
        facade.frame_open = false;
        Action::Present
    }
}

/// The entry point: makes programs, vertex buffer builders, textures and
/// frames, and keeps at most one frame open at a time.
#[derive(Debug)]
pub struct OpenGL {
    frame_open: bool,
}

impl OpenGL {
    /// A frame has been handed out and not finished.
    pub closed spec fn frame_open(&self) -> bool {
        self.frame_open
    }

    pub fn new() -> (r: OpenGL)
        ensures
            !r.frame_open(),
    {
        OpenGL { frame_open: false }
    }

    /// Starts a program build of the sources, for the `program` that the
    /// caller has created.
    pub fn program(&self, program: u32, vssrc: &str, fssrc: &str, gssrc: Option<&str>, out: &str) -> (r:
        ProgramBuild)
        ensures
            r.wf(),
            r.handle() == program,
            r.source_seq() == match gssrc {
                Some(g) => seq![vssrc@, fssrc@, g@],
                None => seq![vssrc@, fssrc@],
            },
            r.output() == out@,
            r.stage() == 0,
            !r.linking(),
            !r.done(),
    {
        ProgramBuild::new(program, vssrc, fssrc, gssrc, out)
    }

    /// An empty vertex buffer builder.
    pub fn vertex_buffer(&self) -> (r: GLVertexBufferBuilder)
        ensures
            r.wf(),
            r.name_seq().len() == 0,
    {
        GLVertexBufferBuilder::new()
    }

    /// A new frame, unless one is open.
    pub fn frame(&mut self) -> (r: Option<GLFrame>)
        ensures
            r is Some <==> !old(self).frame_open(),
            final(self).frame_open(),
    {
        GLFrame::new(self)
    }

    /// A texture of `data`, in the backend texture `bind` that the caller has
    /// allocated, with the action that uploads it.
    pub fn texture2d(&self, format: ColorFormat, width: u32, height: u32, data: Vec<u8>, bind: u32) -> (r: (
        GLTexture2D,
        Action,
    ))
        requires
            data@.len() == width * height * format.spec_size(),
        ensures
            texture_made(format, width, height, data@, bind, r.0, r.1),
    {
        GLTexture2D::new(format, width, height, data, bind)
    }
}

} // verus!
