//! Per-square quad meshes and the parity rule that colours the squares.

use vstd::prelude::*;

verus! {

/// Squares along each side of the board.
pub const BOARD_SIZE: usize = 8;

/// Squares on the whole board.
pub const SQUARE_COUNT: usize = 64;

/// Half the width of the viewport, in grid units.
pub const HALF_VIEWPORT: i32 = 4;

/// A corner of a quad, in grid units.
#[derive(Clone, Copy, Debug, PartialEq, Eq, Structural)]
pub struct Vertex {
    pub x: i32,
    pub y: i32,
    pub z: i32,
}

/// The vertex in the board plane at grid position `(x, y)`.
pub open spec fn vertex_at(x: int, y: int) -> Vertex {
    Vertex { x: x as i32, y: y as i32, z: 0 }
}

/// One square's four corners.
#[derive(Clone, Copy, Debug, PartialEq, Eq, Structural)]
pub struct QuadMesh {
    pub top_right: Vertex,
    pub bottom_right: Vertex,
    pub bottom_left: Vertex,
    pub top_left: Vertex,
}

impl QuadMesh {
    /// The corner at position `k` of the vertex buffer: top right, bottom
    /// right, bottom left, top left.
    pub open spec fn corner(self, k: int) -> Vertex {
        if k == 0 {
            self.top_right
        } else if k == 1 {
            self.bottom_right
        } else if k == 2 {
            self.bottom_left
        } else {
            self.top_left
        }
    }

    /// The corner at position `k` of the vertex buffer.
    pub fn vertex(&self, k: usize) -> (v: Vertex)
        requires
            k < 4,
        ensures
            v == self.corner(k as int),
    {
        if k == 0 {
            self.top_right
        } else if k == 1 {
            self.bottom_right
        } else if k == 2 {
            self.bottom_left
        } else {
            self.top_left
        }
    }
}

/// The quad of the square at `(file, rank)`: a unit square whose bottom left
/// corner is `(file - 4, rank - 4)`.
pub open spec fn square_quad_spec(file: int, rank: int) -> QuadMesh {
    let left = file - HALF_VIEWPORT;
    let bottom = rank - HALF_VIEWPORT;
    QuadMesh {
        top_right: vertex_at(left + 1, bottom + 1),
        bottom_right: vertex_at(left + 1, bottom),
        bottom_left: vertex_at(left, bottom),
        top_left: vertex_at(left, bottom + 1),
    }
}

/// Whether `(file, rank)` names a square of the board.
pub open spec fn on_board(file: int, rank: int) -> bool {
    0 <= file < BOARD_SIZE && 0 <= rank < BOARD_SIZE
}

/// Builds the quad of the square at `(file, rank)`.
pub fn square_quad(file: usize, rank: usize) -> (q: QuadMesh)
    requires
        on_board(file as int, rank as int),
    ensures
        q == square_quad_spec(file as int, rank as int),
{
    let left = file as i32 - HALF_VIEWPORT;
    let bottom = rank as i32 - HALF_VIEWPORT;
    QuadMesh {
        top_right: Vertex { x: left + 1, y: bottom + 1, z: 0 },
        bottom_right: Vertex { x: left + 1, y: bottom, z: 0 },
        bottom_left: Vertex { x: left, y: bottom, z: 0 },
        top_left: Vertex { x: left, y: bottom + 1, z: 0 },
    }
}

/// The quads of the whole board, in row-major order: the square at
/// `(file, rank)` stands at index `file * 8 + rank`.
pub open spec fn board_spec() -> Seq<QuadMesh> {
    Seq::new(SQUARE_COUNT as nat, |i: int| square_quad_spec(i / 8, i % 8))
}

/// Position of the square at `(file, rank)` in the board's draw list.
pub fn board_index(file: usize, rank: usize) -> (i: usize)
    requires
        on_board(file as int, rank as int),
    ensures
        i == file * 8 + rank,
        i < SQUARE_COUNT,
{
    file * BOARD_SIZE + rank
}

/// Builds the quads of all squares, in the order of `board_index`.
pub fn generate_board() -> (board: Vec<QuadMesh>)
    ensures
        board@ == board_spec(),
{
    let mut board: Vec<QuadMesh> = Vec::new();
    let mut file: usize = 0;
    while file < BOARD_SIZE
        invariant
            file <= BOARD_SIZE,
            board@.len() == file * 8,
            forall|i: int| 0 <= i < board@.len() ==> board@[i] == square_quad_spec(i / 8, i % 8),
        decreases BOARD_SIZE - file,
    {
        let mut rank: usize = 0;
        while rank < BOARD_SIZE
            invariant
                file < BOARD_SIZE,
                rank <= BOARD_SIZE,
                board@.len() == file * 8 + rank,
                forall|i: int| 0 <= i < board@.len() ==> board@[i] == square_quad_spec(i / 8, i % 8),
            decreases BOARD_SIZE - rank,
        {
            let ghost at = board@.len() as int;
            assert(at / 8 == file && at % 8 == rank) by {
                assert(at == file * 8 + rank);
            }
            board.push(square_quad(file, rank));
            rank = rank + 1;
        }
        file = file + 1;
    }
    assert(board@ =~= board_spec());
    board
}

/// The two shading programs a square can be drawn with.
#[derive(Clone, Copy, Debug, PartialEq, Eq, Structural)]
pub enum SquareColor {
    Black,
    White,
}

/// Colour class of a square: black where `file + rank` is even.
pub open spec fn color_spec(file: int, rank: int) -> SquareColor {
    if (file + rank) % 2 == 0 {
        SquareColor::Black
    } else {
        SquareColor::White
    }
}

/// The shading program that the square at `(file, rank)` is drawn with.
pub fn square_color(file: usize, rank: usize) -> (c: SquareColor)
    requires
        on_board(file as int, rank as int),
    ensures
        c == color_spec(file as int, rank as int),
{
    if (file + rank) % 2 == 0 {
        SquareColor::Black
    } else {
        SquareColor::White
    }
}

/// Vertex positions of the two triangles of a quad, as its index buffer.
pub open spec fn quad_index_spec() -> Seq<u32> {
    seq![0u32, 1, 3, 1, 2, 3]
}

/// The index buffer shared by every quad: triangles (0, 1, 3) and (1, 2, 3).
pub fn quad_indices() -> (idx: Vec<u32>)
    ensures
        idx@ == quad_index_spec(),
{
    let idx: Vec<u32> = vec![0, 1, 3, 1, 2, 3];
    assert(idx@ =~= quad_index_spec());
    idx
}

} // verus!
