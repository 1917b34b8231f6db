use tetromino::Point2D;
use tetromino::Rgba;
use tetromino::Tetromino;
use tetromino::TetrominoType;

fn offsets(t: &Tetromino) -> Vec<(i32, i32)> {
    t.blocks
        .iter()
        .map(|b| (b.position.x, b.position.y))
        .collect()
}

fn cyan() -> Rgba {
    Rgba::new(0, 255, 255, 255)
}

fn magenta() -> Rgba {
    Rgba::new(255, 0, 255, 255)
}

#[test]
fn point2d_new_stores_components() {
    let p: Point2D<i32> = Point2D::new(-3, 7);
    assert_eq!(p.x, -3);
    assert_eq!(p.y, 7);
    let q: Point2D<u32> = Point2D::new(4, 0);
    assert_eq!(q.x, 4);
    assert_eq!(q.y, 0);
}

#[test]
fn rgba_new_stores_components() {
    let c = Rgba::new(1, 2, 3, 4);
    assert_eq!(c.r, 1);
    assert_eq!(c.g, 2);
    assert_eq!(c.b, 3);
    assert_eq!(c.a, 4);
}

#[test]
fn construct_i_matches_catalog() {
    let t = Tetromino::new(&Point2D::new(4, 0), &TetrominoType::I, &cyan());
    assert_eq!(offsets(&t), vec![(0, 0), (0, 1), (0, 2), (0, 3)]);
    assert_eq!(t.position.x, 4);
    assert_eq!(t.position.y, 0);
    assert_eq!(t.t_tetromino, TetrominoType::I);
    assert_eq!(t.color, cyan());
    for b in &t.blocks {
        assert_eq!(b.color, cyan());
    }
}

#[test]
fn construct_o_matches_catalog() {
    let t = Tetromino::new(&Point2D::new(2, 5), &TetrominoType::O, &cyan());
    assert_eq!(offsets(&t), vec![(0, 0), (1, 0), (0, 1), (1, 1)]);
}

#[test]
fn construct_t_matches_catalog() {
    let t = Tetromino::new(&Point2D::new(0, 0), &TetrominoType::T, &magenta());
    assert_eq!(offsets(&t), vec![(0, 0), (-1, 0), (1, 0), (0, 1)]);
    assert_eq!(t.position.x, 0);
    assert_eq!(t.position.y, 0);
    for b in &t.blocks {
        assert_eq!(b.color, magenta());
    }
}

#[test]
fn construct_s_matches_catalog() {
    let t = Tetromino::new(&Point2D::new(9, 9), &TetrominoType::S, &magenta());
    assert_eq!(offsets(&t), vec![(0, 0), (-1, 0), (0, 1), (1, 1)]);
}

#[test]
fn construct_z_matches_catalog() {
    let t = Tetromino::new(&Point2D::new(1, 2), &TetrominoType::Z, &cyan());
    assert_eq!(offsets(&t), vec![(0, 0), (1, 0), (0, 1), (-1, 1)]);
}

#[test]
fn construct_j_matches_catalog() {
    let t = Tetromino::new(&Point2D::new(7, 3), &TetrominoType::J, &cyan());
    assert_eq!(offsets(&t), vec![(0, 0), (0, 1), (0, 2), (-1, 0)]);
}

#[test]
fn construct_l_matches_catalog() {
    let t = Tetromino::new(&Point2D::new(0, 8), &TetrominoType::L, &magenta());
    assert_eq!(offsets(&t), vec![(0, 0), (0, 1), (0, 2), (1, 0)]);
}

#[test]
fn construct_offsets_do_not_depend_on_anchor_or_color() {
    let a = Tetromino::new(&Point2D::new(0, 0), &TetrominoType::Z, &cyan());
    let b = Tetromino::new(&Point2D::new(31, 17), &TetrominoType::Z, &Rgba::new(9, 8, 7, 6));
    assert_eq!(offsets(&a), offsets(&b));
}

#[test]
fn rotate_keeps_anchor_kind_color() {
    let c = Rgba::new(10, 20, 30, 40);
    let mut t = Tetromino::new(&Point2D::new(5, 11), &TetrominoType::J, &c);
    for _ in 0..3 {
        t.rotate();
        assert_eq!(t.position.x, 5);
        assert_eq!(t.position.y, 11);
        assert_eq!(t.t_tetromino, TetrominoType::J);
        assert_eq!(t.color, c);
        for b in &t.blocks {
            assert_eq!(b.color, c);
        }
    }
}

#[test]
fn rotate_keeps_four_cells() {
    let mut t = Tetromino::new(&Point2D::new(3, 3), &TetrominoType::S, &cyan());
    assert_eq!(t.blocks.len(), 4);
    for _ in 0..7 {
        t.rotate();
        assert_eq!(t.blocks.len(), 4);
    }
}

#[test]
fn rotate_o_quarter_turn() {
    // Pins the rotation policy: a true counter-clockwise quarter turn about
    // the local origin, (x, y) -> (-y, x), exact on integer offsets.
    let mut t = Tetromino::new(&Point2D::new(0, 0), &TetrominoType::O, &cyan());
    assert_eq!(offsets(&t), vec![(0, 0), (1, 0), (0, 1), (1, 1)]);
    t.rotate();
    assert_eq!(offsets(&t), vec![(0, 0), (0, 1), (-1, 0), (-1, 1)]);
}

#[test]
fn rotate_i_twice() {
    let mut t = Tetromino::new(&Point2D::new(4, 0), &TetrominoType::I, &cyan());
    t.rotate();
    assert_eq!(offsets(&t), vec![(0, 0), (-1, 0), (-2, 0), (-3, 0)]);
    t.rotate();
    assert_eq!(offsets(&t), vec![(0, 0), (0, -1), (0, -2), (0, -3)]);
}

#[test]
fn four_rotations_restore_offsets() {
    let kinds = vec![
        TetrominoType::I,
        TetrominoType::O,
        TetrominoType::T,
        TetrominoType::S,
        TetrominoType::Z,
        TetrominoType::J,
        TetrominoType::L,
    ];
    for kind in kinds {
        let mut t = Tetromino::new(&Point2D::new(6, 2), &kind, &magenta());
        let before = offsets(&t);
        for _ in 0..4 {
            t.rotate();
        }
        assert_eq!(offsets(&t), before);
    }
}
