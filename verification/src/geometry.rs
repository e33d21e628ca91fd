//! The static geometry owned by the shader program resource: a full-screen
//! quad made of two triangles, six vertices in all.
//!
//! Normalized device coordinates of the quad's corners are exactly -1 or 1,
//! so the vertices are modelled with exact integer coordinates; the
//! surrounding program converts them to the GPU's floating-point vertex
//! format at upload time, one for one.

use vstd::prelude::*;

verus! {

/// One vertex of the full-screen quad: a 2-component position in normalized
/// device coordinates, tightly packed, bound at attribute slot 0.
#[derive(Clone, Copy, Debug, PartialEq, Eq, Structural)]
pub struct ScreenVertex {
    pub x: i32,
    pub y: i32,
}

/// The fixed quad: corners (-1,-1),(1,-1),(1,1),(1,1),(-1,1),(-1,-1),
/// two triangles covering the whole viewport.
pub open spec fn spec_quad_vertices() -> Seq<ScreenVertex> {
    seq![
        ScreenVertex { x: -1i32, y: -1i32 },
        ScreenVertex { x: 1i32, y: -1i32 },
        ScreenVertex { x: 1i32, y: 1i32 },
        ScreenVertex { x: 1i32, y: 1i32 },
        ScreenVertex { x: -1i32, y: 1i32 },
        ScreenVertex { x: -1i32, y: -1i32 },
    ]
}

/// Number of vertices in every draw call: the quad's two triangles.
pub open spec fn spec_vertex_count() -> int {
    6
}

/// Builds the vertex buffer content uploaded once at construction. The
/// result is always exactly the six fixed full-screen-quad vertices,
/// regardless of any viewport size.
pub fn quad_vertices() -> (v: Vec<ScreenVertex>)
    ensures
        v@ == spec_quad_vertices(),
        v@.len() == spec_vertex_count(),
{
    let mut v: Vec<ScreenVertex> = Vec::new();
    v.push(ScreenVertex { x: -1, y: -1 });
    v.push(ScreenVertex { x: 1, y: -1 });
    v.push(ScreenVertex { x: 1, y: 1 });
    v.push(ScreenVertex { x: 1, y: 1 });
    v.push(ScreenVertex { x: -1, y: 1 });
    v.push(ScreenVertex { x: -1, y: -1 });
    proof {
        assert(v@ =~= spec_quad_vertices());
    }
    v
}

} // verus!
