use vstd::prelude::*;

verus! {

/// One vertex of a terrain grid, before it is scaled to world units.
///
/// The vertex stands at grid cell (`column`, `row`). Its height is the red
/// channel of the heightmap pixel (`pixel_x`, `pixel_y`) that the cell samples.
/// Its normal is the world's up axis, and its texture coordinate is the grid
/// position over the image's size.
#[derive(Clone, Copy, Debug, PartialEq, Eq, Structural)]
pub struct GridVertex {
    pub column: u32,
    pub row: u32,
    pub pixel_x: u32,
    pub pixel_y: u32,
    pub elevation: u8,
}

/// A triangle mesh sampled from a heightmap on a `columns` by `rows` grid.
///
/// `triangles` lists index triples, one counter-clockwise triangle each, into
/// `vertices`. `width` and `height` are the sampled image's size, which maps a
/// grid position to world units and texture coordinates.
pub struct MeshDescriptor {
    pub columns: u32,
    pub rows: u32,
    pub width: u32,
    pub height: u32,
    pub vertices: Vec<GridVertex>,
    pub triangles: Vec<u32>,
}

/// The mesh descriptor under its short name.
pub type Descriptor = MeshDescriptor;

impl MeshDescriptor {
    /// The triangle list is whole triples, and every index names a vertex.
    pub open spec fn wf(&self) -> bool {
        &&& self.triangles@.len() % 3 == 0
        &&& forall|i: int|
            0 <= i < self.triangles@.len() ==> (#[trigger] self.triangles@[i]) < self.vertices@.len()
    }

    /// The number of index entries, as the index buffer counts them.
    pub fn indices_count(&self) -> (r: usize)
        ensures
            r == self.triangles@.len(),
    {
        self.triangles.len()
    }
}

} // verus!
