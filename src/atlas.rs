//! A texture atlas layout in whole pixels, and the placeholder graphics.

use vstd::prelude::*;

verus! {

/// Width and height, in pixels, of the placeholder atlas image.
pub const ATLAS_SIZE: u32 = 256;

/// A rectangle of the atlas image, from `min` (inclusive) to `max`.
#[derive(Clone, Copy, Debug, PartialEq, Eq, Structural)]
pub struct Region {
    pub min_x: u32,
    pub min_y: u32,
    pub max_x: u32,
    pub max_y: u32,
}

impl Region {
    pub open spec fn is_square(self, x: int, y: int, side: int) -> bool {
        &&& self.min_x == x
        &&& self.min_y == y
        &&& self.max_x == x + side
        &&& self.max_y == y + side
    }
}

/// One image cut into regions, each addressed by the index it was added at.
#[derive(Clone, Debug)]
pub struct AtlasLayout {
    pub width: u32,
    pub height: u32,
    pub regions: Vec<Region>,
}

impl AtlasLayout {
    /// An atlas of the given size with no region yet.
    pub fn new_empty(width: u32, height: u32) -> (r: AtlasLayout)
        ensures
            r.width == width,
            r.height == height,
            r.regions@.len() == 0,
    {
        AtlasLayout { width, height, regions: Vec::new() }
    }

    /// Appends a region and returns the index that addresses it.
    pub fn add_region(&mut self, region: Region) -> (index: usize)
        requires
            old(self).regions@.len() < usize::MAX,
        ensures
            index == old(self).regions@.len(),
            final(self).regions@ == old(self).regions@.push(region),
            final(self).width == old(self).width,
            final(self).height == old(self).height,
    {
        self.regions.push(region);
        self.regions.len() - 1
    }

    /// The number of regions.
    pub fn len(&self) -> (r: usize)
        ensures
            r == self.regions@.len(),
    {
        self.regions.len()
    }
}

/// The loaded atlas and the indices of the two sprites in it. `A` is how the
/// atlas is held: a layout while it is built, a handle once it is loaded.
#[derive(Clone, Debug)]
pub struct PlaceHolderGraphics<A> {
    pub texture_atlas: A,
    pub player_index: usize,
    pub box_index: usize,
}

/// The player sprite: the square of side 32 at the image's corner.
pub fn player_region() -> (r: Region)
    ensures
        r.is_square(0, 0, 32),
{
    Region { min_x: 0, min_y: 0, max_x: 32, max_y: 32 }
}

/// The box sprite: the square of side 32 next to the player's, diagonally.
pub fn box_region() -> (r: Region)
    ensures
        r.is_square(32, 32, 32),
{
    Region { min_x: 32, min_y: 32, max_x: 64, max_y: 64 }
}

/// The placeholder atlas: a 256 by 256 image with the player sprite at
/// index 0 and the box sprite at index 1.
pub fn load_graphics() -> (r: PlaceHolderGraphics<AtlasLayout>)
    ensures
        r.texture_atlas.width == ATLAS_SIZE,
        r.texture_atlas.height == ATLAS_SIZE,
        r.texture_atlas.regions@.len() == 2,
        r.player_index == 0,
        r.box_index == 1,
        r.texture_atlas.regions@[r.player_index as int].is_square(0, 0, 32),
        r.texture_atlas.regions@[r.box_index as int].is_square(32, 32, 32),
{
    let mut atlas = AtlasLayout::new_empty(ATLAS_SIZE, ATLAS_SIZE);
    let player_index = atlas.add_region(player_region());
    let box_index = atlas.add_region(box_region());
    PlaceHolderGraphics { texture_atlas: atlas, player_index, box_index }
}

} // verus!
