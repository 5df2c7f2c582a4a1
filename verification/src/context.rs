//! The render context: owner of the GPU handles and of the per-frame
//! protocol.
//!
//! The context holds the active program handle, the static geometry handles,
//! the shader file paths, the framebuffer size and the clock. GPU handles are
//! plain integers here; the value `0` stands for "no valid object", as it
//! does for the driver, whose delete calls ignore it. The context decides
//! what each operation does to this state — which handle becomes active,
//! which must be released, which uniform values the next draw gets — and the
//! caller carries those decisions out against the driver.

use vstd::prelude::*;

use crate::shaders::CompileError;
use crate::time::TimeState;
use crate::time::elapsed_nanos;

verus! {

/// Number of vertices of the full-screen quad (two triangles).
pub const QUAD_VERTEX_COUNT: u32 = 6;

/// The handles a context owns, handed back at shutdown for release.
#[derive(PartialEq, Eq, Structural, Clone, Copy, Debug)]
pub struct OwnedHandles {
    /// The active program handle.
    pub program: u32,
    /// The vertex-array handle of the quad.
    pub vao: u32,
    /// The vertex-buffer handle of the quad.
    pub vbo: u32,
}

/// Everything one frame draws with: the program and geometry to bind, the
/// four uniform values, and the vertex count of the quad.
#[derive(PartialEq, Eq, Structural, Clone, Copy, Debug)]
pub struct FramePlan {
    /// Program handle to bind.
    pub program: u32,
    /// Vertex-array handle to bind.
    pub vao: u32,
    /// Value of the total-time uniform, in nanoseconds since start.
    pub u_time_nanos: u64,
    /// Value of the delta-time uniform, in nanoseconds since the previous
    /// frame.
    pub u_delta_time_nanos: u64,
    /// Value of the epoch-time uniform, in nanoseconds since the fixed
    /// reference instant.
    pub u_epoch_time_nanos: u64,
    /// Framebuffer width in pixels, for the resolution uniform and viewport.
    pub resolution_width: i32,
    /// Framebuffer height in pixels, for the resolution uniform and viewport.
    pub resolution_height: i32,
    /// Number of vertices to draw.
    pub vertex_count: u32,
}

/// A window event the viewer reacts to. Anything else the window reports is
/// `Other` and is ignored.
#[derive(Clone, Copy, PartialEq, Eq, Structural, Debug)]
pub enum WindowEvent {
    /// The exit key was pressed.
    EscapePressed,
    /// The framebuffer was resized to the given pixel dimensions.
    FramebufferResize { width: i32, height: i32 },
    /// Any other event.
    Other,
}

/// What one round of event processing decided: whether the loop keeps
/// running, whether the window must be told to close, and the viewport
/// updates to apply, one per resize event in order.
pub struct EventOutcome {
    /// False exactly when the exit key was seen or the window already asked
    /// to close.
    pub keep_running: bool,
    /// True exactly when the exit key was seen this round.
    pub close_requested: bool,
    /// The dimensions of each resize event, in order.
    pub viewport_updates: Vec<(i32, i32)>,
}

/// Whether the exit key was pressed somewhere in the batch.
pub open spec fn any_escape(events: Seq<WindowEvent>) -> bool {
    exists|i: int| 0 <= i < events.len() && events[i] is EscapePressed
}

/// The dimensions of the resize events in the batch, in order.
pub open spec fn resize_requests(events: Seq<WindowEvent>) -> Seq<(i32, i32)>
    decreases events.len(),
{
    if events.len() == 0 {
        Seq::empty()
    } else {
        resize_requests(events.drop_last()) + (match events.last() {
            WindowEvent::FramebufferResize { width, height } => seq![(width, height)],
            _ => Seq::empty(),
        })
    }
}

/// The last of the given dimensions, or `default` if there are none.
pub open spec fn last_resize_or(resizes: Seq<(i32, i32)>, default: (i32, i32)) -> (i32, i32) {
    if resizes.len() > 0 {
        resizes.last()
    } else {
        default
    }
}

/// The viewer's rendering state.
pub struct ShaderContext {
    /// The active program handle; `0` while no program has linked.
    pub shader_program: u32,
    /// Vertex-array handle of the static quad.
    pub vao: u32,
    /// Vertex-buffer handle of the static quad.
    pub vbo: u32,
    /// Frame timing.
    pub time_state: TimeState,
    /// Path of the vertex shader source file.
    pub vertex_shader_path: String,
    /// Path of the fragment shader source file.
    pub fragment_shader_path: String,
    /// Current framebuffer width in pixels.
    pub framebuffer_width: i32,
    /// Current framebuffer height in pixels.
    pub framebuffer_height: i32,
    /// Whether the context still owns its handles; cleared by `shutdown`.
    pub alive: bool,
}

/// The state after a reload attempt, and the program handle to release: a
/// successful attempt makes the new program active and releases the old one;
/// a failed attempt leaves the context untouched and releases nothing.
pub open spec fn reload_transition(
    ctx: ShaderContext,
    outcome: Result<u32, CompileError>,
) -> (ShaderContext, Option<u32>) {
    match outcome {
        Ok(new_program) => (
            ShaderContext { shader_program: new_program, ..ctx },
            Some(ctx.shader_program),
        ),
        Err(_) => (ctx, None),
    }
}

/// The state after shutdown, and the handles to release: a live context
/// hands back all three handles and keeps none; a context already shut down
/// changes nothing and hands back nothing.
pub open spec fn shutdown_transition(ctx: ShaderContext) -> (ShaderContext, Option<OwnedHandles>) {
    if ctx.alive {
        (
            ShaderContext { shader_program: 0, vao: 0, vbo: 0, alive: false, ..ctx },
            Some(OwnedHandles { program: ctx.shader_program, vao: ctx.vao, vbo: ctx.vbo }),
        )
    } else {
        (ctx, None)
    }
}

impl ShaderContext {
    /// Builds the context around handles and readings the caller obtained at
    /// startup: the quad geometry, the initial program (`0` if the first
    /// compile failed — the driver draws nothing with it rather than
    /// crashing), the shader paths, the clock reading and the framebuffer
    /// size.
    pub fn new(
        vao: u32,
        vbo: u32,
        shader_program: u32,
        vertex_shader_path: String,
        fragment_shader_path: String,
        now: u64,
        framebuffer_width: i32,
        framebuffer_height: i32,
    ) -> (r: ShaderContext)
        ensures
            r.shader_program == shader_program,
            r.vao == vao,
            r.vbo == vbo,
            r.time_state == (TimeState {
                start_time: now,
                last_frame_time: now,
                delta_time: 0,
                total_time: 0,
            }),
            r.vertex_shader_path == vertex_shader_path,
            r.fragment_shader_path == fragment_shader_path,
            r.framebuffer_width == framebuffer_width,
            r.framebuffer_height == framebuffer_height,
            r.alive,
    {
        ShaderContext {
            shader_program,
            vao,
            vbo,
            time_state: TimeState::new(now),
            vertex_shader_path,
            fragment_shader_path,
            framebuffer_width,
            framebuffer_height,
            alive: true,
        }
    }

    /// Applies the outcome of a reload attempt. On success the new program
    /// becomes active in a single assignment and the previous handle is
    /// returned — exactly once — for release; at no point is the active
    /// handle invalid. On failure the context is left exactly as it was and
    /// nothing is released, so rendering continues with the prior program.
    ///
    /// A successful attempt hands in a linked, nonzero handle, necessarily
    /// distinct from the active one, which the driver still holds live.
    pub fn reload_shaders(&mut self, outcome: Result<u32, CompileError>) -> (released: Option<
        u32,
    >)
        requires
            old(self).alive,
            outcome matches Ok(p) ==> p != 0 && p != old(self).shader_program,
        ensures
            (*final(self), released) == reload_transition(*old(self), outcome),
            outcome is Ok ==> final(self).shader_program != 0 && final(self).shader_program
                != old(self).shader_program && released == Some(old(self).shader_program),
            outcome is Err ==> *final(self) == *old(self) && (released is None),
            final(self).alive,
    {
        match outcome {
            Ok(new_program) => {
                let previous = self.shader_program;
                self.shader_program = new_program;
                Some(previous)
            },
            Err(_) => None,
        }
    }

    /// Ticks the clock once with a fresh reading, before the frame is drawn.
    pub fn update(&mut self, now: u64)
        requires
            old(self).alive,
        ensures
            final(self).time_state.start_time == old(self).time_state.start_time,
            final(self).time_state.last_frame_time == now,
            final(self).time_state.delta_time == elapsed_nanos(
                old(self).time_state.last_frame_time,
                now,
            ),
            final(self).time_state.total_time == elapsed_nanos(
                old(self).time_state.start_time,
                now,
            ),
            *final(self) == (ShaderContext { time_state: final(self).time_state, ..*old(self) }),
    {
        self.time_state.update(now);
    }

    /// Lays out the next frame: the active program and quad geometry to
    /// bind, the three time uniforms from the clock and the given epoch
    /// reading, the resolution uniform from the current framebuffer size,
    /// and the quad's vertex count to draw.
    pub fn render(&self, epoch_nanos: u64) -> (plan: FramePlan)
        requires
            self.alive,
        ensures
            plan == (FramePlan {
                program: self.shader_program,
                vao: self.vao,
                u_time_nanos: self.time_state.total_time,
                u_delta_time_nanos: self.time_state.delta_time,
                u_epoch_time_nanos: epoch_nanos,
                resolution_width: self.framebuffer_width,
                resolution_height: self.framebuffer_height,
                vertex_count: QUAD_VERTEX_COUNT,
            }),
    {
        FramePlan {
            program: self.shader_program,
            vao: self.vao,
            u_time_nanos: self.time_state.total_time,
            u_delta_time_nanos: self.time_state.delta_time,
            u_epoch_time_nanos: epoch_nanos,
            resolution_width: self.framebuffer_width,
            resolution_height: self.framebuffer_height,
            vertex_count: QUAD_VERTEX_COUNT,
        }
    }

    /// Works through one batch of polled window events and says whether the
    /// loop keeps running. The exit key requests a close and stops the loop,
    /// as does a window that already asked to close; each resize event yields
    /// one viewport update, and the framebuffer size the next frames render
    /// at is the last resize seen, if any.
    pub fn process_events(&mut self, events: &Vec<WindowEvent>, window_should_close: bool) -> (r:
        EventOutcome)
        requires
            old(self).alive,
        ensures
            r.close_requested == any_escape(events@),
            r.keep_running == !(any_escape(events@) || window_should_close),
            r.viewport_updates@ == resize_requests(events@),
            (final(self).framebuffer_width, final(self).framebuffer_height) == last_resize_or(
                resize_requests(events@),
                (old(self).framebuffer_width, old(self).framebuffer_height),
            ),
            *final(self) == (ShaderContext {
                framebuffer_width: final(self).framebuffer_width,
                framebuffer_height: final(self).framebuffer_height,
                ..*old(self)
            }),
    {
        let ghost initial: ShaderContext = *self;
        let mut close_requested = false;
        let mut viewport_updates: Vec<(i32, i32)> = Vec::new();
        let mut i: usize = 0;
        while i < events.len()
            invariant
                i <= events.len(),
                close_requested == any_escape(events@.take(i as int)),
                viewport_updates@ == resize_requests(events@.take(i as int)),
                (self.framebuffer_width, self.framebuffer_height) == last_resize_or(
                    resize_requests(events@.take(i as int)),
                    (initial.framebuffer_width, initial.framebuffer_height),
                ),
                *self == (ShaderContext {
                    framebuffer_width: self.framebuffer_width,
                    framebuffer_height: self.framebuffer_height,
                    ..initial
                }),
            decreases events.len() - i,
        {
            proof {
                assert(events@.take(i as int + 1).drop_last() =~= events@.take(i as int));
                assert(events@.take(i as int + 1).last() == events@[i as int]);
            }
            match events[i] {
                WindowEvent::EscapePressed => {
                    close_requested = true;
                    proof {
                        assert(any_escape(events@.take(i as int + 1)));
                    }
                },
                WindowEvent::FramebufferResize { width, height } => {
                    viewport_updates.push((width, height));
                    self.framebuffer_width = width;
                    self.framebuffer_height = height;
                },
                WindowEvent::Other => {},
            }
            proof {
                if !any_escape(events@.take(i as int)) && !(events@[i as int]
                    is EscapePressed) {
                    assert forall|j: int|
                        0 <= j < i as int + 1 implies !(#[trigger] events@.take(i as int + 1)[j]
                        is EscapePressed) by {
                        if j < i as int {
                            assert(events@.take(i as int)[j] == events@.take(i as int + 1)[j]);
                            assert(!any_escape(events@.take(i as int)));
                        }
                    }
                }
            }
            i = i + 1;
        }
        proof {
            assert(events@.take(events@.len() as int) =~= events@);
        }
        EventOutcome {
            keep_running: !(close_requested || window_should_close),
            close_requested,
            viewport_updates,
        }
    }

    /// Releases ownership of the GPU handles at teardown. A live context
    /// hands back all three handles for release and forgets them; once shut
    /// down, the context holds no handles, no operation that touches them
    /// may be called on it, and a second shutdown hands back nothing — no
    /// handle is ever released twice.
    pub fn shutdown(&mut self) -> (released: Option<OwnedHandles>)
        ensures
            (*final(self), released) == shutdown_transition(*old(self)),
            !final(self).alive,
            old(self).alive ==> released == Some(
                OwnedHandles {
                    program: old(self).shader_program,
                    vao: old(self).vao,
                    vbo: old(self).vbo,
                },
            ),
            !old(self).alive ==> (released is None) && *final(self) == *old(self),
    {
        if self.alive {
            let handles = OwnedHandles { program: self.shader_program, vao: self.vao, vbo: self.vbo };
            self.shader_program = 0;
            self.vao = 0;
            self.vbo = 0;
            self.alive = false;
            Some(handles)
        } else {
            None
        }
    }
}

/// Law: a successful reload makes the new handle active and releases the old
/// handle exactly once; with a fresh, distinct handle the active program
/// changes.
pub proof fn lemma_reload_success_swaps(ctx: ShaderContext, new_program: u32)
    requires
        new_program != 0,
        new_program != ctx.shader_program,
    ensures
        reload_transition(ctx, Ok(new_program)).0.shader_program == new_program,
        reload_transition(ctx, Ok(new_program)).0.shader_program != ctx.shader_program,
        reload_transition(ctx, Ok(new_program)).1 == Some(ctx.shader_program),
        reload_transition(ctx, Ok(new_program)).0 == (ShaderContext {
            shader_program: new_program,
            ..ctx
        }),
{
}

/// Law: a failed reload leaves the context — the active program included —
/// exactly as it was and releases nothing.
pub proof fn lemma_reload_failure_keeps_program(ctx: ShaderContext, error: CompileError)
    ensures
        reload_transition(ctx, Err(error)).0 == ctx,
        (reload_transition(ctx, Err(error)).1 is None),
{
}

/// Law: shutdown is safe to repeat. The first shutdown of a live context
/// hands back all owned handles; any further shutdown hands back nothing and
/// changes nothing, so no handle is released twice.
pub proof fn lemma_shutdown_idempotent(ctx: ShaderContext)
    ensures
        ctx.alive ==> shutdown_transition(ctx).1 == Some(
            OwnedHandles { program: ctx.shader_program, vao: ctx.vao, vbo: ctx.vbo },
        ),
        !shutdown_transition(ctx).0.alive,
        (shutdown_transition(shutdown_transition(ctx).0).1 is None),
        shutdown_transition(shutdown_transition(ctx).0).0 == shutdown_transition(ctx).0,
{
}

} // verus!
