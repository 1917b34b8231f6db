use vstd::prelude::*;

use crate::color::Rgba;
use crate::geometry::Point2D;

verus! {

/// One occupied unit of a piece: an offset relative to the piece's local
/// origin (not to the board), together with a copy of the piece's color.
#[derive(Copy, Clone, Debug)]
pub struct Block {
    pub position: Point2D<i32>,
    pub color: Rgba,
}

/// The closed set of the seven canonical tetromino shapes. No eighth variant
/// may be introduced without extending the shape catalog.
#[derive(Copy, Clone, Debug, PartialEq, Eq, Structural)]
pub enum TetrominoType {
    I,
    O,
    T,
    S,
    Z,
    J,
    L,
}

/// A block's offset as a pair of mathematical integers.
pub open spec fn offset_of(b: Block) -> (int, int) {
    (b.position.x as int, b.position.y as int)
}

/// The shape catalog: the canonical layout of each shape, exactly four
/// offsets relative to the local origin at (0, 0). Every shape maps to one
/// fixed table; there is no fallback and no error path.
pub open spec fn catalog(t: TetrominoType) -> Seq<(int, int)> {
    match t {
        TetrominoType::I => seq![(0, 0), (0, 1), (0, 2), (0, 3)],
        TetrominoType::O => seq![(0, 0), (1, 0), (0, 1), (1, 1)],
        TetrominoType::T => seq![(0, 0), (-1, 0), (1, 0), (0, 1)],
        TetrominoType::S => seq![(0, 0), (-1, 0), (0, 1), (1, 1)],
        TetrominoType::Z => seq![(0, 0), (1, 0), (0, 1), (-1, 1)],
        TetrominoType::J => seq![(0, 0), (0, 1), (0, 2), (-1, 0)],
        TetrominoType::L => seq![(0, 0), (0, 1), (0, 2), (1, 0)],
    }
}

/// A quarter turn counter-clockwise about the local origin. The image is
/// computed from the pre-rotation offset alone, so rotating the four cells
/// one after the other still rotates them simultaneously in the required
/// sense. On integer offsets the map is exact: no discretization step is
/// involved, and repeated rotations cannot drift.
pub open spec fn rotated(p: (int, int)) -> (int, int) {
    (-p.1, p.0)
}

/// The window that every catalog offset lies in and that a quarter turn
/// never leaves.
pub open spec fn in_local_window(p: (int, int)) -> bool {
    -3 <= p.0 <= 3 && -3 <= p.1 <= 3
}

/// The offset reached from `p` after `n` quarter turns.
pub open spec fn rotated_n(p: (int, int), n: nat) -> (int, int)
    decreases n,
{
    if n == 0 {
        p
    } else {
        rotated(rotated_n(p, (n - 1) as nat))
    }
}

/// Rotation is cyclic of order four on offsets: four successive quarter
/// turns map every offset back to itself, exactly — integer offsets carry no
/// rounding error to accumulate.
pub proof fn lemma_rotation_order_four(p: (int, int))
    ensures
        rotated_n(p, 4) == p,
{
    reveal_with_fuel(rotated_n, 5);
}

/// A falling piece: an anchor position on the board, a shape tag, a uniform
/// color, and its four cells. Built once from the shape catalog, then
/// mutated in place by rotation.
#[derive(Debug)]
pub struct Tetromino {
    pub position: Point2D<u32>,
    pub t_tetromino: TetrominoType,
    pub color: Rgba,
    pub blocks: Vec<Block>,
}

impl Tetromino {
    /// Validity of a piece: exactly four cells, each carrying the piece's
    /// color, each offset inside the local window. Construction establishes
    /// this and rotation preserves it.
    pub open spec fn wf(self) -> bool {
        &&& self.blocks@.len() == 4
        &&& forall|i: int| 0 <= i < 4 ==> (#[trigger] self.blocks@[i]).color == self.color
        &&& forall|i: int| 0 <= i < 4 ==> in_local_window(offset_of(#[trigger] self.blocks@[i]))
    }

    /// Build a piece anchored at `position`: its cells are the catalog entry
    /// for `t_tetromino`, each stamped with `color`. Always succeeds; the
    /// catalog is read-only.
    pub fn new(position: &Point2D<u32>, t_tetromino: &TetrominoType, color: &Rgba) -> (r: Tetromino)
        ensures
            r.position == *position,
            r.t_tetromino == *t_tetromino,
            r.color == *color,
            r.blocks@.len() == 4,
            forall|i: int| 0 <= i < 4 ==> (#[trigger] r.blocks@[i]).color == *color,
            forall|i: int| 0 <= i < 4 ==> offset_of(#[trigger] r.blocks@[i]) == catalog(
                *t_tetromino,
            )[i],
            r.wf(),
    {
        Tetromino {
            position: *position,
            t_tetromino: *t_tetromino,
            color: *color,
            blocks: match t_tetromino {
                TetrominoType::I => Tetromino::tetromino_i(color),
                TetrominoType::O => Tetromino::tetromino_o(color),
                TetrominoType::T => Tetromino::tetromino_t(color),
                TetrominoType::S => Tetromino::tetromino_s(color),
                TetrominoType::Z => Tetromino::tetromino_z(color),
                TetrominoType::J => Tetromino::tetromino_j(color),
                TetrominoType::L => Tetromino::tetromino_l(color),
            },
        }
    }

    /// Rotate the piece a quarter turn counter-clockwise about its local
    /// origin, in place. Every cell's new offset is computed from that
    /// cell's own pre-rotation offset alone — never from another cell, nor
    /// from an already-updated component of the same cell — so the transform
    /// is a true rotation and four successive calls restore every offset.
    /// The anchor, the shape tag and the colors are untouched.
    pub fn rotate(&mut self)
        requires
            old(self).wf(),
        ensures
            final(self).wf(),
            final(self).position == old(self).position,
            final(self).t_tetromino == old(self).t_tetromino,
            final(self).color == old(self).color,
            final(self).blocks@.len() == old(self).blocks@.len(),
            forall|i: int|
                0 <= i < 4 ==> (#[trigger] final(self).blocks@[i]).color == old(
                    self,
                ).blocks@[i].color,
            forall|i: int|
                0 <= i < 4 ==> offset_of(#[trigger] final(self).blocks@[i]) == rotated(
                    offset_of(old(self).blocks@[i]),
                ),
    {
        let mut i: usize = 0;
        while i < 4
            invariant
                old(self).wf(),
                i <= 4,
                self.blocks@.len() == 4,
                self.position == old(self).position,
                self.t_tetromino == old(self).t_tetromino,
                self.color == old(self).color,
                forall|j: int|
                    0 <= j < i ==> (#[trigger] self.blocks@[j]).color == old(
                        self,
                    ).blocks@[j].color,
                forall|j: int|
                    0 <= j < i ==> offset_of(#[trigger] self.blocks@[j]) == rotated(
                        offset_of(old(self).blocks@[j]),
                    ),
                forall|j: int| i <= j < 4 ==> #[trigger] self.blocks@[j] == old(self).blocks@[j],
            decreases 4 - i,
        {
            let x: i32 = self.blocks[i].position.x;
            let y: i32 = self.blocks[i].position.y;
            self.blocks[i].position.x = -y;
            self.blocks[i].position.y = x;
            i = i + 1;
        }
    }

    fn tetromino_i(color: &Rgba) -> (v: Vec<Block>)
        ensures
            v@.len() == 4,
            forall|i: int| 0 <= i < 4 ==> (#[trigger] v@[i]).color == *color,
            forall|i: int| 0 <= i < 4 ==> offset_of(#[trigger] v@[i]) == catalog(
                TetrominoType::I,
            )[i],
    {
        vec![
            Block { position: Point2D::new(0, 0), color: *color },
            Block { position: Point2D::new(0, 1), color: *color },
            Block { position: Point2D::new(0, 2), color: *color },
            Block { position: Point2D::new(0, 3), color: *color },
        ]
    }

    fn tetromino_o(color: &Rgba) -> (v: Vec<Block>)
        ensures
            v@.len() == 4,
            forall|i: int| 0 <= i < 4 ==> (#[trigger] v@[i]).color == *color,
            forall|i: int| 0 <= i < 4 ==> offset_of(#[trigger] v@[i]) == catalog(
                TetrominoType::O,
            )[i],
    {
        vec![
            Block { position: Point2D::new(0, 0), color: *color },
            Block { position: Point2D::new(1, 0), color: *color },
            Block { position: Point2D::new(0, 1), color: *color },
            Block { position: Point2D::new(1, 1), color: *color },
        ]
    }

    fn tetromino_t(color: &Rgba) -> (v: Vec<Block>)
        ensures
            v@.len() == 4,
            forall|i: int| 0 <= i < 4 ==> (#[trigger] v@[i]).color == *color,
            forall|i: int| 0 <= i < 4 ==> offset_of(#[trigger] v@[i]) == catalog(
                TetrominoType::T,
            )[i],
    {
        vec![
            Block { position: Point2D::new(0, 0), color: *color },
            Block { position: Point2D::new(-1, 0), color: *color },
            Block { position: Point2D::new(1, 0), color: *color },
            Block { position: Point2D::new(0, 1), color: *color },
        ]
    }

    fn tetromino_s(color: &Rgba) -> (v: Vec<Block>)
        ensures
            v@.len() == 4,
            forall|i: int| 0 <= i < 4 ==> (#[trigger] v@[i]).color == *color,
            forall|i: int| 0 <= i < 4 ==> offset_of(#[trigger] v@[i]) == catalog(
                TetrominoType::S,
            )[i],
    {
        vec![
            Block { position: Point2D::new(0, 0), color: *color },
            Block { position: Point2D::new(-1, 0), color: *color },
            Block { position: Point2D::new(0, 1), color: *color },
            Block { position: Point2D::new(1, 1), color: *color },
        ]
    }

    fn tetromino_z(color: &Rgba) -> (v: Vec<Block>)
        ensures
            v@.len() == 4,
            forall|i: int| 0 <= i < 4 ==> (#[trigger] v@[i]).color == *color,
            forall|i: int| 0 <= i < 4 ==> offset_of(#[trigger] v@[i]) == catalog(
                TetrominoType::Z,
            )[i],
    {
        vec![
            Block { position: Point2D::new(0, 0), color: *color },
            Block { position: Point2D::new(1, 0), color: *color },
            Block { position: Point2D::new(0, 1), color: *color },
            Block { position: Point2D::new(-1, 1), color: *color },
        ]
    }

    fn tetromino_j(color: &Rgba) -> (v: Vec<Block>)
        ensures
            v@.len() == 4,
            forall|i: int| 0 <= i < 4 ==> (#[trigger] v@[i]).color == *color,
            forall|i: int| 0 <= i < 4 ==> offset_of(#[trigger] v@[i]) == catalog(
                TetrominoType::J,
            )[i],
    {
        vec![
            Block { position: Point2D::new(0, 0), color: *color },
            Block { position: Point2D::new(0, 1), color: *color },
            Block { position: Point2D::new(0, 2), color: *color },
            Block { position: Point2D::new(-1, 0), color: *color },
        ]
    }

    fn tetromino_l(color: &Rgba) -> (v: Vec<Block>)
        ensures
            v@.len() == 4,
            forall|i: int| 0 <= i < 4 ==> (#[trigger] v@[i]).color == *color,
            forall|i: int| 0 <= i < 4 ==> offset_of(#[trigger] v@[i]) == catalog(
                TetrominoType::L,
            )[i],
    {
        vec![
            Block { position: Point2D::new(0, 0), color: *color },
            Block { position: Point2D::new(0, 1), color: *color },
            Block { position: Point2D::new(0, 2), color: *color },
            Block { position: Point2D::new(1, 0), color: *color },
        ]
    }
}

} // verus!
