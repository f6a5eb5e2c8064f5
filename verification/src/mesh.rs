//! The fixed cube mesh: 8 interleaved vertex records (3 position components
//! and 4 color components each) and a 36-entry triangle index list. The
//! numeric vertex payload itself is single-precision data uploaded by the
//! host; this module owns the layout and the index list, which is what the
//! draw call and the attribute bindings are verified against.

use vstd::prelude::*;

verus! {

/// Components per vertex position.
pub const VERTEX_SIZE: i32 = 3;

/// Components per vertex color.
pub const COLOR_SIZE: i32 = 4;

/// Bytes per 32-bit numeric component.
pub const FLOAT32_BYTES_PER_ELEMENT: i32 = 4;

/// Byte stride of one interleaved vertex record (7 components).
pub const STRIDE: i32 = (VERTEX_SIZE + COLOR_SIZE) * FLOAT32_BYTES_PER_ELEMENT;

/// Byte offset of the position attribute inside a record.
pub const POSITION_OFFSET: i32 = 0;

/// Byte offset of the color attribute inside a record (after the position).
pub const COLOR_OFFSET: i32 = VERTEX_SIZE * FLOAT32_BYTES_PER_ELEMENT;

/// Number of vertices in the cube mesh.
pub const VERTEX_COUNT: u16 = 8;

/// Number of entries in the triangle index list.
pub const INDEX_COUNT: u32 = 36;

/// The triangle index list of the cube: 12 triangles over 8 vertices.
pub open spec fn spec_cube_indices() -> Seq<u16> {
    seq![
        0u16, 1, 2,
        1, 3, 2,
        1, 5, 3,
        3, 5, 7,
        3, 7, 2,
        2, 7, 6,
        0, 2, 6,
        0, 6, 4,
        0, 5, 1,
        0, 4, 5,
        7, 5, 6,
        5, 4, 6,
    ]
}

/// Triangle-list topology: three consecutive indices per triangle.
pub open spec fn triangle_count(indices: Seq<u16>) -> nat {
    indices.len() / 3
}

/// The mesh invariant: exactly 36 index entries, each referencing one of the
/// 8 cube vertices, forming 12 whole triangles.
pub proof fn lemma_cube_mesh_invariant()
    ensures
        spec_cube_indices().len() == INDEX_COUNT,
        forall|i: int| 0 <= i < spec_cube_indices().len() ==> #[trigger] spec_cube_indices()[i]
            < VERTEX_COUNT,
        triangle_count(spec_cube_indices()) == 12,
{
}

/// The index list as uploaded to the element array buffer. Defined once,
/// never mutated afterwards.
pub fn cube_indices() -> (r: Vec<u16>)
    ensures
        r@ == spec_cube_indices(),
        r@.len() == INDEX_COUNT,
        forall|i: int| 0 <= i < r@.len() ==> #[trigger] r@[i] < VERTEX_COUNT,
        triangle_count(r@) == 12,
{
    let r: Vec<u16> = vec![
        0u16, 1, 2,
        1, 3, 2,
        1, 5, 3,
        3, 5, 7,
        3, 7, 2,
        2, 7, 6,
        0, 2, 6,
        0, 6, 4,
        0, 5, 1,
        0, 4, 5,
        7, 5, 6,
        5, 4, 6,
    ];
    proof {
        assert(r@ =~= spec_cube_indices());
    }
    r
}

} // verus!
