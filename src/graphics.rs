//! The render-state stack and the vertex batcher.
//!
//! Drawing never talks to the GPU directly: every upload-and-draw and every
//! clear becomes a [`Command`], queued in the order in which it must run, and
//! the owner of the GPU context drains the queue with
//! [`Graphics::take_commands`].

use vstd::prelude::*;
use vstd::arithmetic::div_mod::lemma_fundamental_div_mod_converse;
use crate::geometry::{Point, Size};
use crate::state::{
    Color, Color8, Rotation, State, initial_state, mapped, quantized_color, recolored,
    tinted_state, reset, translated, scaled, rotated,
};

verus! {

/// How many vertices the batch holds before it is flushed.
pub const BUFFER_SIZE: usize = 4;

/// Vertices per quad, and indices per quad (two triangles).
pub const QUAD_VERTICES: usize = 4;
pub const QUAD_INDICES: usize = 6;

/// Possible errors that can occur from push/pop operations.
#[derive(Clone, Copy, Debug, PartialEq, Eq, Structural)]
pub enum StackError {
    /// There was nothing to pop: only the base state is on the stack.
    StackUnderflow,
}

/// Checks the GPU context for an error after a call that changes its
/// state. A GPU in an error state is not usable any more, so an error found
/// here is fatal.
pub trait CheckError {
    fn check_error(&self);
}

/// A packed draw primitive: a transformed position, a texture coordinate
/// and a quantized color.
#[derive(Clone, Copy, Debug, PartialEq, Eq, Structural)]
pub struct Vertex {
    pub point: Point,
    pub texcoord: Point,
    pub color: Color8,
}

/// A piece of GPU work, in the order in which it must be performed.
#[derive(Clone, Debug, PartialEq, Eq)]
pub enum Command {
    /// Upload these vertices and draw the complete quads among them.
    Draw(Vec<Vertex>),
    /// Clear the color buffer with this color.
    Clear(Color),
}

/// What a [`Command`] asks for, as a mathematical value.
pub enum GpuOp {
    Draw(Seq<Vertex>),
    Clear(Color),
}

impl View for Command {
    type V = GpuOp;

    open spec fn view(&self) -> GpuOp {
        match self {
            Command::Draw(v) => GpuOp::Draw(v@),
            Command::Clear(c) => GpuOp::Clear(*c),
        }
    }
}

/// The observable content of a [`Graphics`]: the state stack (its last
/// entry is the current state), the vertices waiting in the batch, and the
/// GPU work issued and not yet taken.
pub struct GraphicsModel {
    pub stack: Seq<State>,
    pub batch: Seq<Vertex>,
    pub issued: Seq<GpuOp>,
}

/// The vertex that a draw call at the local point `p` produces under `s`.
pub open spec fn vertex_of(s: State, p: Point, texcoord: Point) -> Vertex {
    Vertex { point: mapped(s, p), texcoord, color: quantized_color(s.color) }
}

/// The number of indices that draw the complete quads among `n` vertices.
pub open spec fn index_count_of(n: int) -> int {
    n / (QUAD_VERTICES as int) * (QUAD_INDICES as int)
}

/// The index pattern of one quad with vertices `0, 1, 2, 3`:
/// the triangles `(0, 1, 2)` and `(2, 1, 3)`.
pub open spec fn quad_corner(k: int) -> int {
    if k == 0 {
        0
    } else if k == 1 {
        1
    } else if k == 2 {
        2
    } else if k == 3 {
        2
    } else if k == 4 {
        1
    } else {
        3
    }
}

impl GraphicsModel {
    /// Well-formed: the base state is always there, and a full batch is
    /// never left waiting. `Graphics::new` establishes it and every method
    /// keeps it, so every `Graphics` a caller can hold is well-formed.
    pub open spec fn wf(self) -> bool {
        &&& self.stack.len() >= 1
        &&& self.batch.len() < BUFFER_SIZE
    }

    /// The model of a fresh context: the initial state alone, nothing batched
    /// or issued.
    pub open spec fn initial() -> GraphicsModel {
        GraphicsModel { stack: seq![initial_state()], batch: Seq::empty(), issued: Seq::empty() }
    }

    /// The current state.
    pub open spec fn top(self) -> State {
        self.stack.last()
    }

    /// The model with its current state replaced.
    pub open spec fn with_top(self, s: State) -> GraphicsModel {
        GraphicsModel { stack: self.stack.update(self.stack.len() - 1, s), ..self }
    }

    /// The model after `push`: the current state duplicated.
    pub open spec fn pushed(self) -> GraphicsModel {
        GraphicsModel { stack: self.stack.push(self.top()), ..self }
    }

    /// The model after `pop`: the current state removed, unless it is the
    /// base state, which is never removed.
    pub open spec fn popped(self) -> GraphicsModel {
        if self.stack.len() <= 1 {
            self
        } else {
            GraphicsModel { stack: self.stack.drop_last(), ..self }
        }
    }

    /// The model after `flush`: a non-empty batch is issued as one draw and
    /// emptied.
    pub open spec fn flushed(self) -> GraphicsModel {
        if self.batch.len() == 0 {
            self
        } else {
            GraphicsModel {
                batch: Seq::empty(),
                issued: self.issued.push(GpuOp::Draw(self.batch)),
                ..self
            }
        }
    }

    /// The model after `v` is appended to the batch, which is flushed when
    /// that fills it.
    pub open spec fn with_vertex(self, v: Vertex) -> GraphicsModel {
        let batch = self.batch.push(v);
        if batch.len() >= BUFFER_SIZE {
            GraphicsModel { batch: Seq::empty(), issued: self.issued.push(GpuOp::Draw(batch)), ..self }
        } else {
            GraphicsModel { batch, ..self }
        }
    }

    /// The model after `clear`: the batch is flushed first, then a clear
    /// with the current color is issued.
    pub open spec fn cleared(self) -> GraphicsModel {
        let f = self.flushed();
        GraphicsModel { issued: f.issued.push(GpuOp::Clear(self.top().color)), ..f }
    }

    /// The model after each of `vs` in turn is appended to the batch.
    pub open spec fn with_vertices(self, vs: Seq<Vertex>) -> GraphicsModel
        decreases vs.len(),
    {
        if vs.len() == 0 {
            self
        } else {
            self.with_vertices(vs.drop_last()).with_vertex(vs.last())
        }
    }
}

/// Contains the render-state stack and the vertex batch.
pub struct Graphics {
    stack: Vec<State>,
    batch: Vec<Vertex>,
    commands: Vec<Command>,
}

impl View for Graphics {
    type V = GraphicsModel;

    closed spec fn view(&self) -> GraphicsModel {
        GraphicsModel {
            stack: self.stack@,
            batch: self.batch@,
            issued: self.commands@.map_values(|c: Command| c@),
        }
    }
}

impl Graphics {
    /// A fresh context: the initial state alone, nothing batched or issued.
    pub fn new() -> (g: Graphics)
        ensures
            g@ == GraphicsModel::initial(),
            g@.wf(),
    {
        let mut stack: Vec<State> = Vec::new();
        stack.push(State::new());
        let g = Graphics { stack, batch: Vec::new(), commands: Vec::new() };
        assert(g@.stack =~= GraphicsModel::initial().stack);
        assert(g@.issued =~= Seq::<GpuOp>::empty());
        g
    }

    /// How many states are on the stack; never fewer than one.
    pub fn depth(&self) -> (n: usize)
        requires
            self@.wf(),
        ensures
            n == self@.stack.len(),
            n >= 1,
    {
        self.stack.len()
    }

    /// How many vertices wait in the batch; always fewer than the capacity.
    pub fn pending(&self) -> (n: usize)
        requires
            self@.wf(),
        ensures
            n == self@.batch.len(),
            n < BUFFER_SIZE,
    {
        self.batch.len()
    }

    /// The current state.
    pub fn current(&self) -> (s: State)
        requires
            self@.wf(),
        ensures
            s == self@.top(),
    {
        self.stack[self.stack.len() - 1]
    }

    /// Replaces the current state with `s`.
    fn set_current(&mut self, s: State)
        requires
            old(self)@.wf(),
        ensures
            final(self)@.wf(),
            final(self)@ == old(self)@.with_top(s),
    {
        let last = self.stack.len() - 1;
        self.stack.set(last, s);
    }

    /// Pushes the current rendering state: a copy of it becomes the current
    /// state, so that `pop` undoes any change made after this call.
    pub fn push(&mut self)
        requires
            old(self)@.wf(),
        ensures
            final(self)@.wf(),
            final(self)@ == old(self)@.pushed(),
    {
        let top = self.stack[self.stack.len() - 1];
        self.stack.push(top);
    }

    /// Pops the current rendering state.
    /// Fails with `StackUnderflow`, and changes nothing, when only the base
    /// state is left.
    pub fn pop(&mut self) -> (r: Result<(), StackError>)
        requires
            old(self)@.wf(),
        ensures
            final(self)@.wf(),
            r is Err <==> old(self)@.stack.len() == 1,
            r is Err ==> r == Err::<(), StackError>(StackError::StackUnderflow),
            final(self)@ == old(self)@.popped(),
    {
        if self.stack.len() <= 1 {
            Err(StackError::StackUnderflow)
        } else {
            self.stack.pop();
            Ok(())
        }
    }

    /// Sets the current color.
    pub fn color(&mut self, color: Color)
        requires
            old(self)@.wf(),
        ensures
            final(self)@.wf(),
            final(self)@ == old(self)@.with_top(recolored(old(self)@.top(), color)),
    {
        let mut s = self.current();
        s.color(color);
        self.set_current(s);
    }

    /// Tints the current color: each channel is multiplied by the matching
    /// channel of `color`.
    pub fn tint(&mut self, color: Color)
        requires
            old(self)@.wf(),
        ensures
            final(self)@.wf(),
            final(self)@ == old(self)@.with_top(tinted_state(old(self)@.top(), color)),
    {
        let mut s = self.current();
        s.tint(color);
        self.set_current(s);
    }

    /// Resets the current transform to the identity.
    pub fn identity(&mut self)
        requires
            old(self)@.wf(),
        ensures
            final(self)@.wf(),
            final(self)@ == old(self)@.with_top(reset(old(self)@.top())),
    {
        let mut s = self.current();
        s.identity();
        self.set_current(s);
    }

    /// Translates the current transform by `offset`, given in the current frame.
    pub fn translate(&mut self, offset: Point)
        requires
            old(self)@.wf(),
        ensures
            final(self)@.wf(),
            final(self)@ == old(self)@.with_top(translated(old(self)@.top(), offset)),
    {
        let mut s = self.current();
        s.translate(offset);
        self.set_current(s);
    }

    /// Scales the current transform.
    pub fn scale(&mut self, size: Size)
        requires
            old(self)@.wf(),
        ensures
            final(self)@.wf(),
            final(self)@ == old(self)@.with_top(scaled(old(self)@.top(), size)),
    {
        let mut s = self.current();
        s.scale(size);
        self.set_current(s);
    }

    /// Rotates the current transform.
    pub fn rotate(&mut self, rotation: Rotation)
        requires
            old(self)@.wf(),
        ensures
            final(self)@.wf(),
            final(self)@ == old(self)@.with_top(rotated(old(self)@.top(), rotation)),
    {
        let mut s = self.current();
        s.rotate(rotation);
        self.set_current(s);
    }

    /// Transforms the given point with the current transform.
    pub fn transform(&self, point: Point) -> (p: Point)
        requires
            self@.wf(),
        ensures
            p == mapped(self@.top(), point),
    {
        self.current().transform(point)
    }
    /// Appends the vertex of a draw call at the local point `point`: its
    /// position is `point` under the current transform, its color the
    /// current color quantized. When that fills the batch, the batch is
    /// flushed before this returns.
    pub fn vertex(&mut self, point: Point, texcoord: Point)
        requires
            old(self)@.wf(),
        ensures
            final(self)@.wf(),
            final(self)@ == old(self)@.with_vertex(vertex_of(old(self)@.top(), point, texcoord)),
    {
        let s = self.current();
        let v = Vertex { point: s.transform(point), texcoord, color: s.color.quantize() };
        self.batch.push(v);
        if self.batch.len() >= BUFFER_SIZE {
            self.flush();
        }
    }

    /// Issues the batched vertices as one draw and empties the batch;
    /// does nothing when the batch is empty.
    pub fn flush(&mut self)
        ensures
            final(self)@ == old(self)@.flushed(),
            old(self)@.stack.len() >= 1 ==> final(self)@.wf(),
    {
        if self.batch.len() > 0 {
            let mut batch: Vec<Vertex> = Vec::new();
            std::mem::swap(&mut self.batch, &mut batch);
            self.commands.push(Command::Draw(batch));
            assert(self@.issued =~= old(self)@.issued.push(GpuOp::Draw(old(self)@.batch)));
        }
    }

    /// Clears the screen with the current color; the vertices batched
    /// before are drawn first, so the clear never overtakes them.
    pub fn clear(&mut self)
        requires
            old(self)@.wf(),
        ensures
            final(self)@.wf(),
            final(self)@ == old(self)@.cleared(),
    {
        let color = self.current().color;
        self.flush();
        self.commands.push(Command::Clear(color));
        assert(self@.issued =~= old(self)@.flushed().issued.push(GpuOp::Clear(color)));
    }

    /// Hands out the GPU work issued so far, oldest first, and forgets it.
    pub fn take_commands(&mut self) -> (cmds: Vec<Command>)
        ensures
            cmds@.map_values(|c: Command| c@) == old(self)@.issued,
            final(self)@ == (GraphicsModel { issued: Seq::empty(), ..old(self)@ }),
    {
        let mut cmds: Vec<Command> = Vec::new();
        std::mem::swap(&mut self.commands, &mut cmds);
        assert(self@.issued =~= Seq::<GpuOp>::empty());
        cmds
    }
}



/// The number of indices that draw the complete quads among `vertex_count`
/// vertices.
pub fn index_count(vertex_count: usize) -> (n: usize)
    requires
        index_count_of(vertex_count as int) <= usize::MAX,
    ensures
        n == index_count_of(vertex_count as int),
{
    vertex_count / QUAD_VERTICES * QUAD_INDICES
}

/// The element indices of `quads` consecutive quads: quad `q` uses the
/// vertices `4q .. 4q + 3` in the pattern of `quad_corner`.
pub fn quad_indices(quads: usize) -> (r: Vec<u8>)
    requires
        quads <= 64,
    ensures
        r@.len() == quads * 6,
        forall|i: int| 0 <= i < r@.len() ==> r@[i] == 4 * (i / 6) + quad_corner(i % 6),
{
    let mut r: Vec<u8> = Vec::new();
    let mut q: usize = 0;
    while q < quads
        invariant
            q <= quads <= 64,
            r@.len() == q * 6,
            forall|i: int| 0 <= i < r@.len() ==> r@[i] == 4 * (i / 6) + quad_corner(i % 6),
        decreases quads - q,
    {
        let base: u8 = (4 * q) as u8;
        r.push(base);
        r.push(base + 1);
        r.push(base + 2);
        r.push(base + 2);
        r.push(base + 1);
        r.push(base + 3);
        proof {
            assert forall|i: int| 0 <= i < r@.len() implies r@[i] == 4 * (i / 6) + quad_corner(i % 6) by {
                if i >= q * 6 {
                    lemma_fundamental_div_mod_converse(i, 6, q as int, i - q * 6);
                }
            }
        }
        q += 1;
    }
    r
}

/// A stack operation, for reasoning about sequences of them.
pub enum StackOp {
    Push,
    Pop,
}

/// The model after each of `ops` in turn.
pub open spec fn after_stack_ops(m: GraphicsModel, ops: Seq<StackOp>) -> GraphicsModel
    decreases ops.len(),
{
    if ops.len() == 0 {
        m
    } else {
        let p = after_stack_ops(m, ops.drop_last());
        match ops.last() {
            StackOp::Push => p.pushed(),
            StackOp::Pop => p.popped(),
        }
    }
}

/// Whatever pushes and pops are made, the stack never holds fewer than one
/// state, and a pop with only the base state left changes nothing.
pub proof fn lemma_stack_never_empty(m: GraphicsModel, ops: Seq<StackOp>)
    requires
        m.wf(),
    ensures
        after_stack_ops(m, ops).wf(),
        after_stack_ops(m, ops).stack.len() >= 1,
        m.stack.len() == 1 ==> m.popped() == m,
    decreases ops.len(),
{
    if ops.len() > 0 {
        lemma_stack_never_empty(m, ops.drop_last());
    }
}

/// A push followed by a pop restores the model exactly, current state
/// included.
pub proof fn lemma_push_pop_round_trip(m: GraphicsModel)
    requires
        m.wf(),
    ensures
        m.pushed().popped() == m,
        m.pushed().popped().top() == m.top(),
{
    assert(m.pushed().stack.drop_last() =~= m.stack);
}

/// From an empty batch, fewer than `BUFFER_SIZE` vertices stay batched and
/// issue nothing; exactly `BUFFER_SIZE` of them are issued as one draw,
/// in order, and leave the batch empty.
pub proof fn lemma_flush_at_capacity(m: GraphicsModel, vs: Seq<Vertex>)
    requires
        m.wf(),
        m.batch.len() == 0,
        vs.len() <= BUFFER_SIZE,
    ensures
        m.with_vertices(vs).stack == m.stack,
        vs.len() < BUFFER_SIZE ==> m.with_vertices(vs).batch == vs && m.with_vertices(vs).issued
            == m.issued,
        vs.len() == BUFFER_SIZE ==> m.with_vertices(vs).batch.len() == 0 && m.with_vertices(
            vs,
        ).issued == m.issued.push(GpuOp::Draw(vs)),
    decreases vs.len(),
{
    if vs.len() > 0 {
        lemma_flush_at_capacity(m, vs.drop_last());
        assert(vs.drop_last().push(vs.last()) =~= vs);
    } else {
        assert(m.batch =~= vs);
    }
}

/// A vertex followed by a clear issues the draw holding that vertex before
/// the clear, whether the vertex filled the batch or not.
pub proof fn lemma_clear_after_vertex(m: GraphicsModel, v: Vertex)
    requires
        m.wf(),
    ensures
        m.with_vertex(v).cleared().issued == m.issued + seq![
            GpuOp::Draw(m.batch.push(v)),
            GpuOp::Clear(m.top().color),
        ],
        m.with_vertex(v).cleared().batch.len() == 0,
{
    assert(m.with_vertex(v).cleared().issued =~= m.issued + seq![
        GpuOp::Draw(m.batch.push(v)),
        GpuOp::Clear(m.top().color),
    ]);
}

} // verus!
