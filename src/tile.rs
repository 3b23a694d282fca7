//! Tile content: an orientation and sparse per-direction traversal data.
use vstd::prelude::*;

use crate::direction::PlaneDir;
use crate::grid::Grid;

verus! {

/// What moving out of a tile in one direction does.
#[derive(Copy, Clone, Debug, PartialEq, Eq, Structural)]
pub struct DirInfo {
    pub elevation_delta: i32,
    pub enterable: bool,
}

/// The data of a direction that a tile does not specify: level, enterable.
pub open spec fn default_dir_info() -> DirInfo {
    DirInfo { elevation_delta: 0, enterable: true }
}

/// One grid cell's content. `dir_infos` holds, at a direction's ordinal,
/// the data set for that direction, if any.
#[derive(Debug)]
pub struct Tile {
    facing: PlaneDir,
    dir_infos: [Option<DirInfo>; 4],
}

impl Tile {
    pub const DEFAULT_FACING: PlaneDir = PlaneDir::North;

    /// The direction the tile faces.
    pub closed spec fn spec_facing(&self) -> PlaneDir {
        self.facing
    }

    /// The data set for `dir`, if any.
    pub closed spec fn stored(&self, dir: PlaneDir) -> Option<DirInfo> {
        self.dir_infos@[dir.ord()]
    }

    /// The data for `dir`: what was set, else the default.
    pub open spec fn spec_get(&self, dir: PlaneDir) -> DirInfo {
        match self.stored(dir) {
            Some(i) => i,
            None => default_dir_info(),
        }
    }

    /// A tile facing North with no direction data set.
    pub fn new() -> (r: Tile)
        ensures
            r.spec_facing() == PlaneDir::North,
            forall|d: PlaneDir| #[trigger] r.stored(d) == None::<DirInfo>,
            forall|d: PlaneDir| #[trigger] r.spec_get(d) == default_dir_info(),
    {
        Tile { facing: Self::DEFAULT_FACING, dir_infos: [None, None, None, None] }
    }

    pub fn facing(&self) -> (r: PlaneDir)
        ensures
            r == self.spec_facing(),
    {
        self.facing
    }

    /// The data for `dir`; the default where none was set. Never fails.
    pub fn get(&self, dir: &PlaneDir) -> (r: DirInfo)
        ensures
            r == self.spec_get(*dir),
    {
        match self.dir_infos[dir.ordinal() as usize] {
            Some(i) => i,
            None => DirInfo { elevation_delta: 0, enterable: true },
        }
    }

    /// Sets the data for `dir`, replacing what was set before; the other
    /// directions and the facing are kept.
    pub fn set(&mut self, dir: &PlaneDir, info: DirInfo)
        ensures
            final(self).spec_facing() == old(self).spec_facing(),
            final(self).stored(*dir) == Some(info),
            forall|d: PlaneDir| d != *dir ==> #[trigger] final(self).stored(d) == old(self).stored(d),
    {
        self.dir_infos[dir.ordinal() as usize] = Some(info);
    }
}

/// One grid of tiles per floor level.
pub struct TileMap {
    pub layers: std::collections::HashMap<i32, Grid<Tile>>,
}

} // verus!
