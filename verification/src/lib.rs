//! Geometry and rotation of the falling pieces ("tetrominoes") of a
//! block-stacking puzzle game.
//!
//! The library owns the data model of a piece (anchor, shape tag, color,
//! four cells), the catalog of the seven canonical shapes, and the in-place
//! quarter-turn rotation of a piece's cell offsets. The playing field,
//! collision checks, rendering and the game loop are outside collaborators
//! that only read this data.

pub mod color;
pub mod geometry;
pub mod piece;

pub use color::Rgba;
pub use geometry::Point2D;
pub use piece::Block;
pub use piece::Tetromino;
pub use piece::TetrominoType;
