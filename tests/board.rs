use chessboard::board::{
    board_index, generate_board, quad_indices, square_color, square_quad, QuadMesh, SquareColor,
    Vertex, SQUARE_COUNT,
};

fn v(x: i32, y: i32) -> Vertex {
    Vertex { x, y, z: 0 }
}

fn normalized(u: i32) -> f32 {
    u as f32 * 0.25
}

fn corners(q: &QuadMesh) -> Vec<Vertex> {
    (0..4).map(|k| q.vertex(k)).collect()
}

#[test]
fn corner_square_quad() {
    let q = square_quad(0, 0);
    assert_eq!(q.top_right, v(-3, -3));
    assert_eq!(q.bottom_right, v(-3, -4));
    assert_eq!(q.bottom_left, v(-4, -4));
    assert_eq!(q.top_left, v(-4, -3));
}

#[test]
fn far_corner_square_quad() {
    let q = square_quad(7, 7);
    assert_eq!(q.top_right, v(4, 4));
    assert_eq!(q.bottom_left, v(3, 3));
    assert_eq!(normalized(q.top_right.x), 1.0);
    assert_eq!(normalized(q.bottom_left.y), 0.75);
}

#[test]
fn vertex_order_is_tr_br_bl_tl() {
    let q = square_quad(2, 5);
    assert_eq!(corners(&q), vec![v(-1, 2), v(-1, 1), v(-2, 1), v(-2, 2)]);
}

#[test]
fn all_corners_within_viewport() {
    for f in 0..8 {
        for r in 0..8 {
            for c in corners(&square_quad(f, r)) {
                assert!(-1.0 <= normalized(c.x) && normalized(c.x) <= 1.0);
                assert!(-1.0 <= normalized(c.y) && normalized(c.y) <= 1.0);
                assert_eq!(c.z, 0);
            }
        }
    }
}

#[test]
fn neighbours_share_vertical_edge() {
    for f in 0..7 {
        for r in 0..8 {
            let a = square_quad(f, r);
            let b = square_quad(f + 1, r);
            assert_eq!(a.top_right, b.top_left);
            assert_eq!(a.bottom_right, b.bottom_left);
            assert_eq!(normalized(a.top_right.x), (f as f32 - 3.0) * 0.25);
        }
    }
}

#[test]
fn neighbours_share_horizontal_edge() {
    let a = square_quad(4, 2);
    let b = square_quad(4, 3);
    assert_eq!(a.top_left, b.bottom_left);
    assert_eq!(a.top_right, b.bottom_right);
    assert_eq!(a.top_left.y, -1);
}

#[test]
fn color_parity() {
    assert_eq!(square_color(0, 0), SquareColor::Black);
    assert_eq!(square_color(1, 0), SquareColor::White);
    assert_eq!(square_color(0, 1), SquareColor::White);
    assert_eq!(square_color(7, 7), SquareColor::Black);
    for f in 0..7 {
        for r in 0..7 {
            assert_eq!(square_color(f, r), square_color(f + 1, r + 1));
            assert_ne!(square_color(f, r), square_color(f + 1, r));
            assert_ne!(square_color(f, r), square_color(f, r + 1));
        }
    }
}

#[test]
fn board_index_is_row_major() {
    assert_eq!(board_index(0, 0), 0);
    assert_eq!(board_index(0, 7), 7);
    assert_eq!(board_index(1, 0), 8);
    assert_eq!(board_index(7, 7), 63);
}

#[test]
fn index_buffer_two_triangles() {
    let idx = quad_indices();
    assert_eq!(idx, vec![0, 1, 3, 1, 2, 3]);
    for f in 0..8 {
        for r in 0..8 {
            let q = square_quad(f, r);
            let mut area = 0;
            for t in idx.chunks(3) {
                let a = q.vertex(t[0] as usize);
                let b = q.vertex(t[1] as usize);
                let c = q.vertex(t[2] as usize);
                let a2 = (b.x - a.x) * (c.y - a.y) - (c.x - a.x) * (b.y - a.y);
                assert_eq!(a2, -1);
                area -= a2;
            }
            assert_eq!(area, 2);
        }
    }
    for k in 0..4 {
        assert!(idx.contains(&k));
    }
}

#[test]
fn full_board_tiles_viewport() {
    let board = generate_board();
    assert_eq!(board.len(), SQUARE_COUNT);
    for i in 0..board.len() {
        for j in (i + 1)..board.len() {
            assert_ne!(board[i], board[j]);
        }
    }
    for f in 0..8 {
        for r in 0..8 {
            assert_eq!(board[board_index(f, r)], square_quad(f, r));
        }
    }
    let area: f32 = board
        .iter()
        .map(|q| {
            let w = normalized(q.top_right.x) - normalized(q.bottom_left.x);
            let h = normalized(q.top_right.y) - normalized(q.bottom_left.y);
            w * h
        })
        .sum();
    assert_eq!(area, 4.0);
    let mut covered = vec![0u32; 64];
    for q in &board {
        let cell = ((q.bottom_left.x + 4) * 8 + (q.bottom_left.y + 4)) as usize;
        covered[cell] += 1;
    }
    assert!(covered.iter().all(|&n| n == 1));
}
