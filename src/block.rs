//! Voxel blocks with an 8-bit density.
use vstd::prelude::*;

verus! {

/// Density of a block, from 0 (empty) to 255 (full).
pub struct Density(pub u8);

/// One voxel of the world: a cell with a density.
#[derive(Clone, Copy, Debug)]
pub struct Block {
    density: u8,
}

/// A voxel is one block of the grid.
pub type Voxel = Block;

/// Density of a completely empty block.
pub const EMPTY_DENSITY: u8 = 0;

/// Density of a completely full block.
pub const FULL_DENSITY: u8 = 255;

impl Block {
    /// The density this block holds.
    pub closed spec fn spec_density(&self) -> u8 {
        self.density
    }

    pub fn new(density: Density) -> (r: Self)
        ensures
            r.spec_density() == density.0,
    {
        Self { density: density.0 }
    }

    pub fn new_empty() -> (r: Self)
        ensures
            r.spec_density() == EMPTY_DENSITY,
            !r.spec_is_solid(),
    {
        Self::new(Density(EMPTY_DENSITY))
    }

    pub fn new_full() -> (r: Self)
        ensures
            r.spec_density() == FULL_DENSITY,
            r.spec_is_solid(),
    {
        Self::new(Density(FULL_DENSITY))
    }

    /// A block is solid when it holds any density at all.
    pub open spec fn spec_is_solid(&self) -> bool {
        self.spec_density() > 0
    }

    pub fn is_solid(&self) -> (r: bool)
        ensures
            r == self.spec_is_solid(),
    {
        self.density > 0
    }

    pub fn density(&self) -> (r: u8)
        ensures
            r == self.spec_density(),
    {
        self.density
    }

    pub fn set_density(&mut self, density: u8)
        ensures
            final(self).spec_density() == density,
    {
        self.density = density;
    }
}

} // verus!
