//! Buffer of draw commands to be sent to the backend.
use vstd::prelude::*;

use crate::draw::TextureId;
use crate::geometry::{fits_u32, i32_as_u32, Point, Rect, Size};

verus! {

/// Triangles drawn with one texture and viewport: a range of the shared index buffer.
#[derive(Debug, Clone, Copy, PartialEq, Eq, Structural)]
pub struct DrawCmdData {
    /// Start of the range inside the shared index buffer.
    pub idx_start: usize,
    /// End (exclusive) of the range inside the shared index buffer.
    pub idx_end: usize,
    /// Texture to use for this draw command.
    pub texture: Option<TextureId>,
    /// Clipping viewport.
    pub viewport: Rect,
}

/// A single draw command; `X` is the backend's text description.
#[derive(Debug, Clone)]
pub enum DrawCommand<X> {
    Triangles(DrawCmdData),
    Text(X, Rect),
}

/// The command can be extended with more triangles of the same texture and viewport.
pub open spec fn compatible<X>(cmd: DrawCommand<X>, viewport: Rect, texture: Option<TextureId>) -> bool {
    match cmd {
        DrawCommand::Triangles(d) => d.viewport == viewport && d.texture == texture,
        DrawCommand::Text(..) => false,
    }
}

/// Every triangles command refers to a range inside an index buffer of `n_indices`.
pub open spec fn ranges_ok<X>(commands: Seq<DrawCommand<X>>, n_indices: nat) -> bool {
    forall|k: int|
        0 <= k < commands.len() ==> match #[trigger] commands[k] {
            DrawCommand::Triangles(d) => d.idx_start <= d.idx_end <= n_indices,
            DrawCommand::Text(..) => true,
        }
}

/// Every index points inside a vertex buffer of `n_vertices`.
pub open spec fn indices_ok(indices: Seq<u32>, n_vertices: nat) -> bool {
    forall|k: int| 0 <= k < indices.len() ==> #[trigger] indices[k] < n_vertices
}

/// `indices` shifted by `base`.
pub open spec fn offset_indices(indices: Seq<u32>, base: int) -> Seq<u32> {
    indices.map_values(|i: u32| (i + base) as u32)
}

/// The commands after adding triangles whose indices end at `new_len` in the index
/// buffer and start at `old_len`: the last command is extended when it is compatible,
/// otherwise a new command is added.
pub open spec fn commands_after_tris<X>(
    commands: Seq<DrawCommand<X>>,
    old_len: nat,
    new_len: nat,
    texture: Option<TextureId>,
    viewport: Rect,
) -> Seq<DrawCommand<X>> {
    if commands.len() > 0 && compatible(commands.last(), viewport, texture) {
        let d = commands.last()->Triangles_0;
        commands.update(
            commands.len() - 1,
            DrawCommand::Triangles(DrawCmdData { idx_end: new_len as usize, ..d }),
        )
    } else {
        commands.push(
            DrawCommand::Triangles(
                DrawCmdData {
                    idx_start: old_len as usize,
                    idx_end: new_len as usize,
                    texture,
                    viewport,
                },
            ),
        )
    }
}

/// How triangles are batched: when the last command draws triangles with the same
/// texture and viewport, it is extended to end where the new indices end and no command
/// is added; otherwise one command is added, drawing exactly the new indices with the
/// new texture and viewport. The commands before are kept either way.
pub proof fn lemma_batching<X>(
    commands: Seq<DrawCommand<X>>,
    old_len: nat,
    new_len: nat,
    texture: Option<TextureId>,
    viewport: Rect,
)
    requires
        new_len <= usize::MAX,
        old_len <= usize::MAX,
    ensures
        ({
            let after = commands_after_tris(commands, old_len, new_len, texture, viewport);
            let same_state = commands.len() > 0 && match commands.last() {
                DrawCommand::Triangles(d) => d.texture == texture && d.viewport == viewport,
                DrawCommand::Text(..) => false,
            };
            &&& same_state ==> {
                &&& after.len() == commands.len()
                &&& match after.last() {
                    DrawCommand::Triangles(e) => {
                        &&& e.idx_end == new_len
                        &&& e.idx_start == commands.last()->Triangles_0.idx_start
                        &&& e.texture == texture
                        &&& e.viewport == viewport
                    },
                    DrawCommand::Text(..) => false,
                }
            }
            &&& !same_state ==> {
                &&& after.len() == commands.len() + 1
                &&& after.last() == DrawCommand::<X>::Triangles(
                    DrawCmdData { idx_start: old_len as usize, idx_end: new_len as usize, texture, viewport },
                )
            }
            &&& forall|i: int| 0 <= i < commands.len() - 1 ==> #[trigger] after[i] == commands[i]
            &&& !same_state && commands.len() > 0 ==> after[commands.len() - 1] == commands[commands.len() - 1]
        }),
{
    let after = commands_after_tris(commands, old_len, new_len, texture, viewport);
    if commands.len() > 0 && compatible(commands.last(), viewport, texture) {
        assert(after.last() == after[commands.len() - 1]);
    } else {
        assert(after[commands.len() as int] == after.last());
    }
}

/// What rendering does with one draw command.
#[derive(Debug, Clone, Copy)]
pub enum RenderStep {
    /// The viewport lies outside the window: nothing is drawn.
    Skip,
    /// Draw the indices `idx_start..idx_end` of the shared index buffer with `texture`
    /// (a plain white texture when `None`), restricted to the scissor box.
    Triangles { idx_start: usize, idx_end: usize, texture: Option<TextureId>, scissor: (u32, u32, u32, u32) },
    /// Draw the command's text, restricted to the scissor box.
    Text { scissor: (u32, u32, u32, u32) },
}

/// The viewport a command is clipped to.
pub open spec fn command_viewport<X>(cmd: DrawCommand<X>) -> Rect {
    match cmd {
        DrawCommand::Triangles(d) => d.viewport,
        DrawCommand::Text(_, viewport) => viewport,
    }
}

/// The visible area of a window of size `win`.
pub open spec fn window_rect(win: Size) -> Rect {
    Rect { pos: Point { x: 0, y: 0 }, size: win }
}

/// Rendering `cmd` into a window of size `win` computes without overflow.
pub open spec fn render_step_ok<X>(cmd: DrawCommand<X>, win: Size) -> bool {
    &&& command_viewport(cmd).clip_ok(window_rect(win))
    &&& command_viewport(cmd).clip_spec(window_rect(win)) matches Some(s) ==> gl_scissor_ok(s, win.h)
}

/// What rendering does with `cmd` in a window of size `win`: the command's viewport is
/// clipped against the window; a command whose viewport lies outside is skipped, the
/// others are drawn under the scissor box of the clipped viewport.
pub open spec fn render_step<X>(cmd: DrawCommand<X>, win: Size) -> RenderStep {
    match command_viewport(cmd).clip_spec(window_rect(win)) {
        None => RenderStep::Skip,
        Some(s) => match cmd {
            DrawCommand::Triangles(d) => RenderStep::Triangles {
                idx_start: d.idx_start,
                idx_end: d.idx_end,
                texture: d.texture,
                scissor: gl_scissor_spec(s, win.h),
            },
            DrawCommand::Text(..) => RenderStep::Text { scissor: gl_scissor_spec(s, win.h) },
        },
    }
}

/// A command whose viewport and window both have sizes that fit an `i32` can be
/// rendered whenever its viewport can be clipped against the window; it is skipped
/// exactly when the viewport shares no pixel with the window, and otherwise its
/// scissor box lies inside the window.
pub proof fn lemma_render_scissor_inside<X>(cmd: DrawCommand<X>, win: Size)
    requires
        command_viewport(cmd).small(),
        window_rect(win).small(),
        command_viewport(cmd).clip_ok(window_rect(win)),
    ensures
        render_step_ok(cmd, win),
        (render_step(cmd, win) is Skip) == !command_viewport(cmd).intersects_spec(window_rect(win)),
        match render_step(cmd, win) {
            RenderStep::Skip => true,
            RenderStep::Triangles { scissor, .. } => scissor.0 + scissor.2 <= win.w && scissor.1 + scissor.3 <= win.h,
            RenderStep::Text { scissor } => scissor.0 + scissor.2 <= win.w && scissor.1 + scissor.3 <= win.h,
        },
{
    let vp = command_viewport(cmd);
    let w = window_rect(win);
    if vp.intersects_spec(w) {
        crate::geometry::laws::lemma_clip_is_intersection(vp, w, Point { x: 0, y: 0 });
    }
}

/// Whether rendering `cmd` into a window of size `win` computes without overflow.
pub fn can_render_step<X>(cmd: &DrawCommand<X>, win: Size) -> (r: bool)
    ensures
        r == render_step_ok(*cmd, win),
{
    let viewport = match cmd {
        DrawCommand::Triangles(d) => d.viewport,
        DrawCommand::Text(_, viewport) => *viewport,
    };
    let window = Rect::new_at_origin(win);
    if !viewport.can_clip(window) {
        return false;
    }
    match viewport.clip_inside(window) {
        None => true,
        Some(s) => can_gl_scissor(s, win.h),
    }
}

/// Whether the scissor box of `rect` can be computed in a window of height `win_height`.
pub fn can_gl_scissor(rect: Rect, win_height: u32) -> (r: bool)
    ensures
        r == gl_scissor_ok(rect, win_height),
{
    win_height as u64 >= rect.size.h as u64 + crate::geometry::cast_u32(rect.pos.y) as u64
}

/// Decides what rendering does with one command in a window of size `win`.
pub fn render_step_of<X>(cmd: &DrawCommand<X>, win: Size) -> (r: RenderStep)
    requires
        render_step_ok(*cmd, win),
    ensures
        r == render_step(*cmd, win),
{
    let viewport = match cmd {
        DrawCommand::Triangles(d) => d.viewport,
        DrawCommand::Text(_, viewport) => *viewport,
    };
    match viewport.clip_inside(Rect::new_at_origin(win)) {
        None => RenderStep::Skip,
        Some(s) => {
            let scissor = gl_scissor(s, win.h);
            match cmd {
                DrawCommand::Triangles(d) => RenderStep::Triangles {
                    idx_start: d.idx_start,
                    idx_end: d.idx_end,
                    texture: d.texture,
                    scissor,
                },
                DrawCommand::Text(..) => RenderStep::Text { scissor },
            }
        },
    }
}

/// Buffer with draw commands to be sent to the backend: a shared vertex buffer, a
/// shared index buffer, and the list of commands that refer to ranges of it.
#[derive(Debug)]
pub struct DrawQueue<V, X> {
    vertices: Vec<V>,
    indices: Vec<u32>,
    commands: Vec<DrawCommand<X>>,
}

impl<V: Copy, X> DrawQueue<V, X> {
    /// The shared vertex buffer.
    pub closed spec fn vertices_spec(&self) -> Seq<V> {
        self.vertices@
    }

    /// The shared index buffer.
    pub closed spec fn indices_spec(&self) -> Seq<u32> {
        self.indices@
    }

    /// The list of draw commands.
    pub closed spec fn commands_spec(&self) -> Seq<DrawCommand<X>> {
        self.commands@
    }

    /// Every command refers to a range inside the index buffer.
    pub open spec fn wf(&self) -> bool {
        ranges_ok(self.commands_spec(), self.indices_spec().len())
    }

    /// Creates an empty queue.
    pub fn new() -> (r: Self)
        ensures
            r.vertices_spec().len() == 0,
            r.indices_spec().len() == 0,
            r.commands_spec().len() == 0,
            r.wf(),
    {
        DrawQueue { vertices: Vec::new(), indices: Vec::new(), commands: Vec::new() }
    }

    /// Clears all data from the draw queue.
    pub fn clear(&mut self)
        ensures
            final(self).vertices_spec().len() == 0,
            final(self).indices_spec().len() == 0,
            final(self).commands_spec().len() == 0,
            final(self).wf(),
    {
        self.vertices.clear();
        self.indices.clear();
        self.commands.clear();
    }

    /// The offset added to new indices: the vertex count cast to `u32` (that is,
    /// modulo 2^32).
    pub open spec fn base_vertex(&self) -> int {
        self.vertices_spec().len() as int % 0x1_0000_0000
    }

    /// The conditions under which [`DrawQueue::push_tris`] computes without overflow:
    /// every index shifted by the base vertex fits an `u32`.
    pub open spec fn push_tris_ok(&self, indices: Seq<u32>) -> bool {
        forall|k: int| 0 <= k < indices.len() ==> fits_u32(#[trigger] indices[k] + self.base_vertex())
    }

    /// Adds triangles to the draw queue.
    ///
    /// The vertices are appended to the shared vertex buffer, and the indices (which
    /// refer to `vertices`) are appended shifted to point into it. The last command is
    /// extended when it draws with the same texture and viewport; otherwise a new
    /// command is added.
    pub fn push_tris(
        &mut self,
        vertices: &[V],
        indices: &[u32],
        texture: Option<TextureId>,
        viewport: Rect,
    )
        requires
            old(self).wf(),
            old(self).push_tris_ok(indices@),
        ensures
            final(self).wf(),
            final(self).vertices_spec() == old(self).vertices_spec() + vertices@,
            final(self).indices_spec() == old(self).indices_spec() + offset_indices(
                indices@,
                old(self).base_vertex(),
            ),
            final(self).commands_spec() == commands_after_tris(
                old(self).commands_spec(),
                old(self).indices_spec().len(),
                final(self).indices_spec().len(),
                texture,
                viewport,
            ),
            indices_ok(old(self).indices_spec(), old(self).vertices_spec().len()) && indices_ok(
                indices@,
                vertices@.len(),
            ) ==> indices_ok(final(self).indices_spec(), final(self).vertices_spec().len()),
    {
        let ghost old_vertices = self.vertices@;
        let ghost old_indices = self.indices@;
        let ghost old_commands = self.commands@;
        let n_vert = self.vertices.len();
        let base_vert = n_vert as u32;
        assert(base_vert as int == n_vert as int % 0x1_0000_0000) by (bit_vector)
            requires
                base_vert == n_vert as u32,
        ;
        let mut j: usize = 0;
        while j < vertices.len()
            invariant
                j <= vertices.len(),
                self.vertices@ == old_vertices + vertices@.subrange(0, j as int),
                self.indices@ == old_indices,
                self.commands@ == old_commands,
            decreases vertices.len() - j,
        {
            self.vertices.push(vertices[j]);
            proof {
                assert(vertices@.subrange(0, j + 1) =~= vertices@.subrange(0, j as int).push(vertices@[j as int]));
            }
            j = j + 1;
        }
        proof {
            assert(vertices@.subrange(0, vertices@.len() as int) =~= vertices@);
        }
        let base_idx = self.indices.len();
        let mut k: usize = 0;
        while k < indices.len()
            invariant
                k <= indices.len(),
                base_vert as int == old_vertices.len() as int % 0x1_0000_0000,
                base_vert <= old_vertices.len(),
                forall|m: int| 0 <= m < indices@.len() ==> fits_u32(#[trigger] indices@[m] + base_vert),
                self.indices@ == old_indices + offset_indices(indices@.subrange(0, k as int), base_vert as int),
                self.commands@ == old_commands,
                self.vertices@ == old_vertices + vertices@,
            decreases indices.len() - k,
        {
            self.indices.push(indices[k] + base_vert);
            proof {
                assert(offset_indices(indices@.subrange(0, k + 1), base_vert as int) =~= offset_indices(
                    indices@.subrange(0, k as int), base_vert as int).push((indices@[k as int] + base_vert) as u32));
            }
            k = k + 1;
        }
        proof {
            assert(indices@.subrange(0, indices@.len() as int) =~= indices@);
        }
        let new_len = self.indices.len();
        let n_cmds = self.commands.len();
        let mut extended = false;
        if n_cmds > 0 {
            match &self.commands[n_cmds - 1] {
                DrawCommand::Triangles(cmd) => {
                    if cmd.viewport == viewport && same_texture(cmd.texture, texture) {
                        let d = DrawCmdData { idx_end: new_len, ..*cmd };
                        self.commands.set(n_cmds - 1, DrawCommand::Triangles(d));
                        extended = true;
                    }
                },
                DrawCommand::Text(..) => {},
            }
        }
        if !extended {
            self.commands.push(
                DrawCommand::Triangles(
                    DrawCmdData { idx_start: base_idx, idx_end: new_len, texture, viewport },
                ),
            );
        }
        proof {
            let fin = self.indices@;
            assert(fin.len() == old_indices.len() + indices@.len());
            assert forall|m: int| 0 <= m < self.commands@.len() implies match #[trigger] self.commands@[m] {
                DrawCommand::Triangles(d) => d.idx_start <= d.idx_end <= fin.len(),
                DrawCommand::Text(..) => true,
            } by {
                if m < old_commands.len() && !(m == old_commands.len() - 1 && extended) {
                    assert(self.commands@[m] == old_commands[m]);
                }
            }
            if indices_ok(old_indices, old_vertices.len()) && indices_ok(indices@, vertices@.len()) {
                assert forall|m: int| 0 <= m < fin.len() implies #[trigger] fin[m] < self.vertices@.len() by {
                    if m >= old_indices.len() {
                        assert(fin[m] == indices@[m - old_indices.len()] + base_vert);
                    }
                }
            }
        }
    }

    /// Adds a text command to the draw queue.
    pub fn push_text(&mut self, text: X, viewport: Rect)
        requires
            old(self).wf(),
        ensures
            final(self).wf(),
            final(self).vertices_spec() == old(self).vertices_spec(),
            final(self).indices_spec() == old(self).indices_spec(),
            final(self).commands_spec() == old(self).commands_spec().push(DrawCommand::Text(text, viewport)),
    {
        let ghost old_commands = self.commands@;
        self.commands.push(DrawCommand::Text(text, viewport));
        proof {
            assert forall|m: int| 0 <= m < self.commands@.len() implies match #[trigger] self.commands@[m] {
                DrawCommand::Triangles(d) => d.idx_start <= d.idx_end <= self.indices@.len(),
                DrawCommand::Text(..) => true,
            } by {
                if m < old_commands.len() {
                    assert(self.commands@[m] == old_commands[m]);
                }
            }
        }
    }

    /// What rendering the queue into a window of size `win_size` does, command by
    /// command, in order.
    pub fn render_plan(&self, win_size: Size) -> (r: Vec<RenderStep>)
        requires
            forall|k: int|
                0 <= k < self.commands_spec().len() ==> render_step_ok(
                    #[trigger] self.commands_spec()[k],
                    win_size,
                ),
        ensures
            r@.len() == self.commands_spec().len(),
            forall|k: int|
                0 <= k < r@.len() ==> #[trigger] r@[k] == render_step(self.commands_spec()[k], win_size),
    {
        let mut steps: Vec<RenderStep> = Vec::new();
        let mut k: usize = 0;
        while k < self.commands.len()
            invariant
                k <= self.commands@.len(),
                steps@.len() == k,
                forall|m: int| 0 <= m < self.commands@.len() ==> render_step_ok(#[trigger] self.commands@[m], win_size),
                forall|m: int| 0 <= m < k ==> #[trigger] steps@[m] == render_step(self.commands@[m], win_size),
            decreases self.commands@.len() - k,
        {
            let step = render_step_of(&self.commands[k], win_size);
            steps.push(step);
            k = k + 1;
        }
        steps
    }

    /// The shared vertex buffer.
    pub fn vertices(&self) -> (r: &Vec<V>)
        ensures
            r@ == self.vertices_spec(),
    {
        &self.vertices
    }

    /// The shared index buffer.
    pub fn indices(&self) -> (r: &Vec<u32>)
        ensures
            r@ == self.indices_spec(),
    {
        &self.indices
    }

    /// The list of draw commands.
    pub fn commands(&self) -> (r: &Vec<DrawCommand<X>>)
        ensures
            r@ == self.commands_spec(),
    {
        &self.commands
    }
}

/// Compares two optional texture ids.
fn same_texture(a: Option<TextureId>, b: Option<TextureId>) -> (r: bool)
    ensures
        r == (a == b),
{
    match (a, b) {
        (Some(x), Some(y)) => x == y,
        (None, None) => true,
        _ => false,
    }
}

/// The scissor box can be computed: `rect` ends above the window's bottom edge.
pub open spec fn gl_scissor_ok(rect: Rect, win_height: u32) -> bool {
    win_height >= rect.size.h + i32_as_u32(rect.pos.y)
}

/// The scissor box `(left, bottom, width, height)` of `rect` in a window of height
/// `win_height`, measured from the bottom-left corner.
pub open spec fn gl_scissor_spec(rect: Rect, win_height: u32) -> (u32, u32, u32, u32) {
    (
        i32_as_u32(rect.pos.x) as u32,
        (win_height - rect.size.h - i32_as_u32(rect.pos.y)) as u32,
        rect.size.w,
        rect.size.h,
    )
}

/// The scissor box `(left, bottom, width, height)` of `rect` in a window of height
/// `win_height`, measured from the bottom-left corner as OpenGL does.
pub fn gl_scissor(rect: Rect, win_height: u32) -> (r: (u32, u32, u32, u32))
    requires
        gl_scissor_ok(rect, win_height),
    ensures
        r == gl_scissor_spec(rect, win_height),
{
    let left = crate::geometry::cast_u32(rect.pos.x);
    let top = crate::geometry::cast_u32(rect.pos.y);
    (left, win_height - rect.size.h - top, rect.size.w, rect.size.h)
}

} // verus!
