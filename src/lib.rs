//! A tile-based spatial model: a bounds-checked 2D grid, the cyclic
//! four-direction rotation algebra used to orient tiles, per-direction tile
//! metadata, and the integer geometry that maps grid cells to screen
//! rectangles and screen points back to cells.

pub mod direction;
pub mod display;
pub mod grid;
pub mod tile;

pub use direction::{DirectionError, PlaneDir};
pub use display::{Display, Rect};
pub use grid::{Coord, Grid, GridError};
pub use tile::{DirInfo, Tile, TileMap};
