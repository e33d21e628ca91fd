//! The shader program resource: ownership of one compiled/linked GPU
//! program plus one static geometry buffer, and the per-draw computation
//! of the uniform inputs handed to the GPU.
//!
//! The GPU driver itself is an external collaborator. What is modelled and
//! proved here is every host-side decision: how the boolean status queries
//! of the two compile stages and the link stage classify a construction
//! attempt, and which values — elapsed time since construction, viewport
//! extent, vertex count — each draw call supplies. Instants are carried as
//! nanosecond readings of a monotonic clock; the surrounding program narrows
//! the elapsed time to the GPU's floating-point uniform format at the call
//! boundary.

use vstd::prelude::*;
use crate::geometry::spec_vertex_count;

verus! {

/// The two compilation stages of a GPU program.
#[derive(Clone, Copy, Debug, PartialEq, Eq, Structural)]
pub enum Stage {
    Vertex,
    Fragment,
}

/// How a construction attempt ended. A failure is recovered locally — the
/// resource is still built and drawable — but the outcome records which
/// stage went wrong first.
#[derive(Clone, Copy, Debug, PartialEq, Eq, Structural)]
pub enum BuildOutcome {
    /// Both stages compiled and the program linked.
    Ready,
    /// The given stage failed to compile.
    CompileFailed(Stage),
    /// Both stages compiled but the program failed to link.
    LinkFailed,
}

/// Classification of the three driver status queries made during
/// construction, in the order the stages run: a vertex-stage failure is
/// reported before a fragment-stage failure, and a link failure only when
/// both stages compiled.
pub open spec fn spec_build_outcome(vertex_ok: bool, fragment_ok: bool, link_ok: bool) -> BuildOutcome {
    if !vertex_ok {
        BuildOutcome::CompileFailed(Stage::Vertex)
    } else if !fragment_ok {
        BuildOutcome::CompileFailed(Stage::Fragment)
    } else if !link_ok {
        BuildOutcome::LinkFailed
    } else {
        BuildOutcome::Ready
    }
}

/// Classifies a construction attempt from the three status queries.
pub fn build_outcome(vertex_ok: bool, fragment_ok: bool, link_ok: bool) -> (r: BuildOutcome)
    ensures
        r == spec_build_outcome(vertex_ok, fragment_ok, link_ok),
{
    if !vertex_ok {
        BuildOutcome::CompileFailed(Stage::Vertex)
    } else if !fragment_ok {
        BuildOutcome::CompileFailed(Stage::Fragment)
    } else if !link_ok {
        BuildOutcome::LinkFailed
    } else {
        BuildOutcome::Ready
    }
}

/// Compiled GLSL shader program resource.
///
/// Owns the opaque GPU identifiers of the program, the vertex array and the
/// vertex buffer, remembers the instant of its own construction, and records
/// how construction ended. Constructed once; lives for the process lifetime.
pub struct Shader {
    /// Opaque GPU program identifier.
    pub id: u32,
    /// Opaque GPU vertex-array identifier for the quad.
    pub vao: u32,
    /// Opaque GPU vertex-buffer identifier for the quad.
    pub vbo: u32,
    /// Monotonic-clock reading, in nanoseconds, taken at construction;
    /// immutable afterwards. Elapsed time is measured from here, not from
    /// process start.
    pub created_at_nanos: u64,
    /// How the compile/compile/link sequence ended.
    pub outcome: BuildOutcome,
}

/// The uniform and geometry inputs of one draw call, exactly as handed to
/// the GPU: elapsed nanoseconds since the resource was constructed (uniform
/// slot 0, as seconds), the viewport extent (uniform slot 1), and the fixed
/// vertex count of the full-screen quad.
#[derive(Clone, Copy, Debug, PartialEq, Eq, Structural)]
pub struct DrawCall {
    pub elapsed_nanos: u64,
    pub width: i32,
    pub height: i32,
    pub vertex_count: i32,
}

/// Elapsed time of a draw issued at `now`, measured from the resource's own
/// construction instant.
pub open spec fn spec_elapsed_nanos(s: Shader, now: u64) -> int {
    now - s.created_at_nanos
}

impl Shader {
    /// Assembles the resource from what construction produced: the GPU
    /// handles, the three driver status queries, and the clock reading at
    /// construction. Total for every combination of statuses — a failed
    /// compile or link still yields a complete, drawable resource; the
    /// failure is only recorded in the outcome.
    pub fn new(
        id: u32,
        vao: u32,
        vbo: u32,
        vertex_ok: bool,
        fragment_ok: bool,
        link_ok: bool,
        now_nanos: u64,
    ) -> (s: Shader)
        ensures
            s.id == id,
            s.vao == vao,
            s.vbo == vbo,
            s.created_at_nanos == now_nanos,
            s.outcome == spec_build_outcome(vertex_ok, fragment_ok, link_ok),
    {
        Shader {
            id,
            vao,
            vbo,
            created_at_nanos: now_nanos,
            outcome: build_outcome(vertex_ok, fragment_ok, link_ok),
        }
    }

    /// Computes the inputs of one draw call issued at the monotonic-clock
    /// reading `now_nanos`: the elapsed time relative to this resource's
    /// construction instant, the viewport extent passed through unchanged,
    /// and the quad's six vertices. Callable any number of times and for
    /// every build outcome; the only demand is the clock's own monotonicity.
    pub fn draw(&self, now_nanos: u64, width: i32, height: i32) -> (r: DrawCall)
        requires
            self.created_at_nanos <= now_nanos,
        ensures
            r.elapsed_nanos == spec_elapsed_nanos(*self, now_nanos),
            r.elapsed_nanos == now_nanos - self.created_at_nanos,
            r.width == width,
            r.height == height,
            r.vertex_count == spec_vertex_count(),
    {
        DrawCall {
            elapsed_nanos: now_nanos - self.created_at_nanos,
            width,
            height,
            vertex_count: 6,
        }
    }
}

/// Elapsed time never runs backwards: of two draw calls on the same
/// resource, the later one always supplies the strictly larger elapsed-time
/// uniform.
pub proof fn lemma_elapsed_strictly_increases(s: Shader, t1: u64, t2: u64)
    requires
        s.created_at_nanos <= t1,
        t1 < t2,
    ensures
        spec_elapsed_nanos(s, t1) < spec_elapsed_nanos(s, t2),
{
}

/// Elapsed time is never negative, and is measured against the resource's
/// own construction instant.
pub proof fn lemma_elapsed_nonnegative(s: Shader, now: u64)
    requires
        s.created_at_nanos <= now,
    ensures
        spec_elapsed_nanos(s, now) >= 0,
        spec_elapsed_nanos(s, now) == now - s.created_at_nanos,
{
}

/// What a draw call supplies depends only on the construction instant, the
/// clock and the viewport — never on the build outcome. A resource whose
/// compile or link failed feeds `draw` exactly as a healthy one does.
pub proof fn lemma_draw_ignores_build_outcome(a: Shader, b: Shader, now: u64)
    requires
        a.created_at_nanos == b.created_at_nanos,
    ensures
        spec_elapsed_nanos(a, now) == spec_elapsed_nanos(b, now),
{
}

} // verus!
