//! Laws of the board's geometry: the quads tile the viewport, the colours
//! alternate, and each quad's index buffer splits it into two triangles.

use vstd::prelude::*;
use crate::board::{
    board_spec, color_spec, on_board, quad_index_spec, square_quad_spec, vertex_at, QuadMesh,
    Vertex, HALF_VIEWPORT, SQUARE_COUNT,
};

verus! {

/// Whether `v` lies in the normalized viewport, that is within
/// `[-4, 4]` grid units on both axes, in the board plane.
pub open spec fn in_viewport(v: Vertex) -> bool {
    &&& -HALF_VIEWPORT <= v.x <= HALF_VIEWPORT
    &&& -HALF_VIEWPORT <= v.y <= HALF_VIEWPORT
    &&& v.z == 0
}

/// Area of a quad, in square grid units (one unit is 1/16 of the normalized
/// viewport's area units).
pub open spec fn quad_area(q: QuadMesh) -> int {
    (q.top_right.x - q.bottom_left.x) * (q.top_right.y - q.bottom_left.y)
}

/// Twice the signed area of the triangle `(a, b, c)`; negative when the
/// corners run clockwise, zero when the triangle is degenerate.
pub open spec fn triangle_area2(a: Vertex, b: Vertex, c: Vertex) -> int {
    (b.x - a.x) * (c.y - a.y) - (c.x - a.x) * (b.y - a.y)
}

/// Summed area of the quads of `quads`.
pub open spec fn total_area(quads: Seq<QuadMesh>) -> int
    decreases quads.len(),
{
    if quads.len() == 0 {
        0
    } else {
        total_area(quads.drop_last()) + quad_area(quads.last())
    }
}

/// Area of the whole viewport in square grid units: 64, that is 4.0 in
/// normalized units.
pub open spec fn viewport_area() -> int {
    (2 * HALF_VIEWPORT) * (2 * HALF_VIEWPORT)
}

/// Whether two axis-aligned quads have disjoint interiors.
pub open spec fn interiors_disjoint(a: QuadMesh, b: QuadMesh) -> bool {
    ||| a.top_right.x <= b.bottom_left.x
    ||| b.top_right.x <= a.bottom_left.x
    ||| a.top_right.y <= b.bottom_left.y
    ||| b.top_right.y <= a.bottom_left.y
}

/// Every square's quad is a unit square of the grid.
proof fn lemma_unit_square(file: int, rank: int)
    requires
        on_board(file, rank),
    ensures
        quad_area(square_quad_spec(file, rank)) == 1,
{
    let q = square_quad_spec(file, rank);
    let w = q.top_right.x - q.bottom_left.x;
    let h = q.top_right.y - q.bottom_left.y;
    assert(w == 1 && h == 1);
    assert(w * h == 1) by (nonlinear_arith)
        requires
            w == 1 && h == 1,
    ;
}

/// Every corner of every square's quad lies in the viewport.
pub proof fn lemma_quad_in_viewport(file: int, rank: int)
    requires
        on_board(file, rank),
    ensures
        forall|k: int| 0 <= k < 4 ==> in_viewport(#[trigger] square_quad_spec(file, rank).corner(k)),
{
}

/// Squares next to each other along a rank share exactly their common
/// vertical edge, at `x = file - 3`, and lie on either side of it.
pub proof fn lemma_files_share_edge(file: int, rank: int)
    requires
        on_board(file, rank),
        on_board(file + 1, rank),
    ensures
        ({
            let a = square_quad_spec(file, rank);
            let b = square_quad_spec(file + 1, rank);
            &&& a.top_right == b.top_left
            &&& a.bottom_right == b.bottom_left
            &&& a.top_right.x == file - 3
            &&& a.bottom_left.x < a.top_right.x < b.top_right.x
        }),
{
}

/// Squares next to each other along a file share exactly their common
/// horizontal edge, at `y = rank - 3`, and lie on either side of it.
pub proof fn lemma_ranks_share_edge(file: int, rank: int)
    requires
        on_board(file, rank),
        on_board(file, rank + 1),
    ensures
        ({
            let a = square_quad_spec(file, rank);
            let b = square_quad_spec(file, rank + 1);
            &&& a.top_left == b.bottom_left
            &&& a.top_right == b.bottom_right
            &&& a.top_left.y == rank - 3
            &&& a.bottom_left.y < a.top_left.y < b.top_left.y
        }),
{
}

/// Colours alternate between neighbours along a rank or a file, and repeat
/// along a diagonal.
pub proof fn lemma_color_parity(file: int, rank: int)
    requires
        on_board(file, rank),
        on_board(file + 1, rank + 1),
    ensures
        color_spec(file, rank) == color_spec(file + 1, rank + 1),
        color_spec(file, rank) != color_spec(file + 1, rank),
        color_spec(file, rank) != color_spec(file, rank + 1),
{
}

/// The index buffer names two triangles of three distinct corners each that
/// together use all four corners; on every square both triangles are
/// non-degenerate, wound the same way, and their areas add up to the
/// square's area.
pub proof fn lemma_triangulation(file: int, rank: int)
    requires
        on_board(file, rank),
    ensures
        ({
            let q = square_quad_spec(file, rank);
            let idx = quad_index_spec();
            let t1 = triangle_area2(q.corner(idx[0] as int), q.corner(idx[1] as int), q.corner(idx[2] as int));
            let t2 = triangle_area2(q.corner(idx[3] as int), q.corner(idx[4] as int), q.corner(idx[5] as int));
            &&& idx.len() == 6
            &&& forall|t: int| 0 <= t < 6 ==> idx[t] < 4
            &&& idx[0] != idx[1] && idx[1] != idx[2] && idx[0] != idx[2]
            &&& idx[3] != idx[4] && idx[4] != idx[5] && idx[3] != idx[5]
            &&& forall|k: u32| k < 4 ==> idx.contains(k)
            &&& t1 == -1 && t2 == -1
            &&& -(t1 + t2) == 2 * quad_area(q)
        }),
{
    let q = square_quad_spec(file, rank);
    let (l, b) = (q.bottom_left.x as int, q.bottom_left.y as int);
    assert(q.top_right.x == l + 1 && q.top_right.y == b + 1);
    assert(q.bottom_right.x == l + 1 && q.bottom_right.y == b);
    assert(q.top_left.x == l && q.top_left.y == b + 1);
    assert(triangle_area2(q.top_right, q.bottom_right, q.top_left) == -1) by (nonlinear_arith)
        requires
            q.top_right.x == l + 1 && q.top_right.y == b + 1,
            q.bottom_right.x == l + 1 && q.bottom_right.y == b,
            q.top_left.x == l && q.top_left.y == b + 1,
    ;
    assert(triangle_area2(q.bottom_right, q.bottom_left, q.top_left) == -1) by (nonlinear_arith)
        requires
            q.bottom_left.x == l && q.bottom_left.y == b,
            q.bottom_right.x == l + 1 && q.bottom_right.y == b,
            q.top_left.x == l && q.top_left.y == b + 1,
    ;
    lemma_unit_square(file, rank);
    let idx = quad_index_spec();
    assert(idx[0] == 0 && idx[1] == 1 && idx[2] == 3 && idx[3] == 1 && idx[4] == 2 && idx[5] == 3);
    assert forall|k: u32| k < 4 implies idx.contains(k) by {
        if k == 0 {
            assert(idx[0] == k);
        } else if k == 1 {
            assert(idx[1] == k);
        } else if k == 2 {
            assert(idx[4] == k);
        } else {
            assert(idx[2] == k);
        }
    }
}

/// A sequence of unit squares covers as many square units as it has quads.
proof fn lemma_total_area_of_units(quads: Seq<QuadMesh>)
    requires
        forall|k: int| 0 <= k < quads.len() ==> quad_area(#[trigger] quads[k]) == 1,
    ensures
        total_area(quads) == quads.len(),
    decreases quads.len(),
{
    if quads.len() > 0 {
        let rest = quads.drop_last();
        assert forall|k: int| 0 <= k < rest.len() implies quad_area(#[trigger] rest[k]) == 1 by {
            assert(rest[k] == quads[k]);
        }
        lemma_total_area_of_units(rest);
    }
}

/// The full board holds 64 distinct quads with pairwise disjoint interiors;
/// every unit cell of the viewport is the quad of exactly the square at its
/// draw-list position; and the quads' areas add up to the viewport's area.
pub proof fn lemma_board_tiles_viewport()
    ensures
        board_spec().len() == SQUARE_COUNT,
        forall|i: int, j: int|
            0 <= i < SQUARE_COUNT && 0 <= j < SQUARE_COUNT && i != j ==> {
                &&& board_spec()[i] != board_spec()[j]
                &&& interiors_disjoint(#[trigger] board_spec()[i], #[trigger] board_spec()[j])
            },
        forall|x: int, y: int|
            -HALF_VIEWPORT <= x < HALF_VIEWPORT && -HALF_VIEWPORT <= y < HALF_VIEWPORT
                ==> #[trigger] board_spec()[(x + 4) * 8 + (y + 4)].bottom_left == vertex_at(x, y),
        total_area(board_spec()) == viewport_area(),
{
    let board = board_spec();
    assert forall|i: int, j: int|
        0 <= i < SQUARE_COUNT && 0 <= j < SQUARE_COUNT && i != j implies {
            &&& board[i] != board[j]
            &&& interiors_disjoint(#[trigger] board[i], #[trigger] board[j])
        } by {
        assert(i == 8 * (i / 8) + i % 8);
        assert(j == 8 * (j / 8) + j % 8);
        assert(i / 8 != j / 8 || i % 8 != j % 8);
    }
    assert forall|x: int, y: int|
        -HALF_VIEWPORT <= x < HALF_VIEWPORT && -HALF_VIEWPORT <= y < HALF_VIEWPORT implies
            #[trigger] board[(x + 4) * 8 + (y + 4)].bottom_left == vertex_at(x, y) by {
        let i = (x + 4) * 8 + (y + 4);
        assert(i / 8 == x + 4 && i % 8 == y + 4);
    }
    assert forall|k: int| 0 <= k < board.len() implies quad_area(#[trigger] board[k]) == 1 by {
        lemma_unit_square(k / 8, k % 8);
    }
    lemma_total_area_of_units(board);
    assert(viewport_area() == 64) by (nonlinear_arith);
}

} // verus!
