use vstd::prelude::*;
use vstd::arithmetic::div_mod::lemma_fundamental_div_mod;
use crate::mesh::{GridVertex, MeshDescriptor};

verus! {

/// A decoded image read as a height field: `width` by `height` pixels of
/// four bytes each (red, green, blue, alpha), row after row.
pub struct Heightmap {
    pub(crate) width: u32,
    pub(crate) height: u32,
    pub(crate) rgba: Vec<u8>,
}

impl Heightmap {
    pub open(crate) spec fn width_spec(&self) -> int {
        self.width as int
    }

    pub open(crate) spec fn height_spec(&self) -> int {
        self.height as int
    }

    /// The image's bytes, four per pixel.
    pub open(crate) spec fn bytes(&self) -> Seq<u8> {
        self.rgba@
    }

    /// The image has pixels, and the bytes hold exactly four per pixel.
    pub open(crate) spec fn wf(&self) -> bool {
        &&& self.width > 0
        &&& self.height > 0
        &&& self.rgba@.len() == 4 * (self.width as int) * (self.height as int)
    }

    /// The red channel of pixel (`x`, `y`).
    pub open(crate) spec fn red(&self, x: int, y: int) -> u8 {
        self.rgba@[4 * (y * self.width as int + x)]
    }

    /// A heightmap of `width` by `height` pixels from their RGBA bytes, row
    /// after row. `None` when a side is zero or the bytes are not four per pixel.
    pub fn from_rgba(width: u32, height: u32, rgba: Vec<u8>) -> (r: Option<Heightmap>)
        ensures
            r.is_some() <==> width > 0 && height > 0 && rgba@.len() == 4 * (width as int)
                * (height as int),
            r matches Some(m) ==> m.wf() && m.width_spec() == width && m.height_spec() == height
                && m.bytes() == rgba@,
    {
        if width == 0 || height == 0 {
            return None;
        }
        let n = rgba.len();
        proof {
            let wh = (width as int) * (height as int);
            assert(wh >= 0 && 4 * wh == 4 * (width as int) * (height as int) && wh * 4 == 4 * wh)
                by (nonlinear_arith)
                requires
                    wh == (width as int) * (height as int),
            ;
        }
        let pixels = match (width as usize).checked_mul(height as usize) {
            Some(p) => p,
            None => {
                // Four bytes a pixel would then overflow the length of any vector.
                return None;
            },
        };
        let expected = match pixels.checked_mul(4) {
            Some(e) => e,
            None => {
                return None;
            },
        };
        if expected != n {
            return None;
        }
        Some(Heightmap { width, height, rgba })
    }

    /// The width in pixels.
    pub fn width(&self) -> (r: u32)
        ensures
            r == self.width_spec(),
    {
        self.width
    }

    /// The height in pixels.
    pub fn height(&self) -> (r: u32)
        ensures
            r == self.height_spec(),
    {
        self.height
    }

    /// The red channel of pixel (`x`, `y`).
    pub fn red_at(&self, x: u32, y: u32) -> (r: u8)
        requires
            self.wf(),
            x < self.width_spec(),
            y < self.height_spec(),
        ensures
            r == self.red(x as int, y as int),
    {
        let w = self.width as usize;
        proof {
            lemma_pixel_offset(x as int, y as int, self.width as int, self.height as int);
        }
        let n = self.rgba.len();
        let i = 4 * (y as usize * w + x as usize);
        self.rgba[i]
    }
}

/// The count of a grid side: the number asked for, or none when it is not positive.
pub open spec fn extent(n: i32) -> int {
    if n > 0 { n as int } else { 0 }
}

/// The count of cells along a grid side of `n` vertices.
pub open spec fn cells(n: int) -> int {
    if n >= 2 { n - 1 } else { 0 }
}

/// The position of vertex (`x`, `y`) in a grid stored column by column.
pub open spec fn vertex_index(rows: int, x: int, y: int) -> int {
    y + x * rows
}

/// The pixel that grid position `i` of `count` samples along an image side of `total` pixels.
pub open spec fn sample(i: int, count: int, total: int) -> int {
    i * total / count
}

/// The vertex that grid cell (`x`, `y`) of a `c` by `r` grid takes from `map`.
pub open spec fn grid_vertex(map: Heightmap, c: int, r: int, x: int, y: int) -> GridVertex {
    let px = sample(x, c, map.width_spec());
    let py = sample(y, r, map.height_spec());
    GridVertex {
        column: x as u32,
        row: y as u32,
        pixel_x: px as u32,
        pixel_y: py as u32,
        elevation: map.red(px, py),
    }
}

/// Corner `j` of the two triangles of cell (`x`, `y`): first
/// (x, y), (x, y+1), (x+1, y), then (x, y+1), (x+1, y+1), (x+1, y).
pub open spec fn corner(rows: int, x: int, y: int, j: int) -> int {
    if j == 0 {
        vertex_index(rows, x, y)
    } else if j == 1 {
        vertex_index(rows, x, y + 1)
    } else if j == 2 {
        vertex_index(rows, x + 1, y)
    } else if j == 3 {
        vertex_index(rows, x, y + 1)
    } else if j == 4 {
        vertex_index(rows, x + 1, y + 1)
    } else {
        vertex_index(rows, x + 1, y)
    }
}

/// Where corner `j` of cell (`x`, `y`) stands in the index list: cells come
/// column by column, six entries each.
pub open spec fn corner_pos(rows: int, x: int, y: int, j: int) -> int {
    6 * (x * cells(rows) + y) + j
}

proof fn lemma_pixel_offset(x: int, y: int, w: int, h: int)
    requires
        0 <= x < w,
        0 <= y < h,
    ensures
        0 <= y * w <= y * w + x,
        4 * (y * w + x) + 3 < 4 * w * h,
{
    assert(0 <= y * w) by (nonlinear_arith)
        requires
            0 <= y,
            0 <= x < w,
    ;
    assert(y * w + x < w * h) by (nonlinear_arith)
        requires
            0 <= x < w,
            0 <= y < h,
    ;
    assert(4 * (w * h) == 4 * w * h) by (nonlinear_arith);
}

proof fn lemma_sample_in_range(i: int, n: int, total: int)
    requires
        0 <= i < n,
        total > 0,
    ensures
        0 <= sample(i, n, total) < total,
{
    let p = i * total;
    assert(0 <= p < n * total) by (nonlinear_arith)
        requires
            0 <= i < n,
            total > 0,
            p == i * total,
    ;
    lemma_fundamental_div_mod(p, n);
    let q = p / n;
    assert(0 <= q < total) by (nonlinear_arith)
        requires
            p == n * q + p % n,
            0 <= p % n < n,
            0 <= p < n * total,
            n > 0,
    ;
}

proof fn lemma_vertex_before(rows: int, x0: int, y0: int, x: int, y: int)
    requires
        0 <= y0 < rows,
        0 <= y <= rows,
        0 <= x0,
        x0 < x || (x0 == x && y0 < y),
    ensures
        0 <= vertex_index(rows, x0, y0) < x * rows + y,
{
    assert(0 <= y0 + x0 * rows < x * rows + y) by (nonlinear_arith)
        requires
            0 <= y0 < rows,
            0 <= y <= rows,
            0 <= x0,
            x0 < x || (x0 == x && y0 < y),
    ;
}

proof fn lemma_cell_before(k: int, x0: int, y0: int, x: int, y: int, j: int)
    requires
        0 <= y0 < k,
        0 <= y <= k,
        0 <= x0,
        0 <= j < 6,
        x0 < x || (x0 == x && y0 < y),
    ensures
        0 <= 6 * (x0 * k + y0) + j < 6 * (x * k + y),
{
    assert(0 <= x0 * k + y0 < x * k + y) by (nonlinear_arith)
        requires
            0 <= y0 < k,
            0 <= y <= k,
            0 <= x0,
            x0 < x || (x0 == x && y0 < y),
    ;
}

fn index_at(rows: u32, x: u32, y: u32) -> (i: u32)
    requires
        vertex_index(rows as int, x as int, y as int) <= u32::MAX,
    ensures
        i == vertex_index(rows as int, x as int, y as int),
{
    assert((x as int) * (rows as int) <= (x as int) * (rows as int) + (y as int)) by (nonlinear_arith)
        requires
            0 <= y,
    ;
    assert(0 <= (x as int) * (rows as int)) by (nonlinear_arith)
        requires
            0 <= x,
            0 <= rows,
    ;
    (y as u64 + x as u64 * rows as u64) as u32
}

/// Appends the six corners of cell (`x`, `y`), two triangles, to `triangles`.
fn push_cell(triangles: &mut Vec<u32>, rows: u32, x: u32, y: u32)
    requires
        y + 1 < rows,
        vertex_index(rows as int, x as int + 1, y as int + 1) <= u32::MAX,
    ensures
        final(triangles)@.len() == old(triangles)@.len() + 6,
        forall|i: int| 0 <= i < old(triangles)@.len() ==> final(triangles)@[i] == old(triangles)@[i],
        forall|j: int|
            0 <= j < 6 ==> #[trigger] final(triangles)@[old(triangles)@.len() + j] == corner(
                rows as int,
                x as int,
                y as int,
                j,
            ),
{
    let ghost r = rows as int;
    assert(vertex_index(r, x as int, y as int) <= vertex_index(r, x as int, y as int + 1)
        <= vertex_index(r, x as int + 1, y as int + 1) && vertex_index(r, x as int + 1, y as int)
        <= vertex_index(r, x as int + 1, y as int + 1) && vertex_index(r, x as int, y as int + 1)
        <= vertex_index(r, x as int + 1, y as int + 1)) by (nonlinear_arith)
        requires
            0 <= x,
            0 <= y,
            0 <= r,
    ;
    assert(x as int + 1 <= (x as int + 1) * r) by (nonlinear_arith)
        requires
            0 <= x,
            r >= 1,
    ;
    let a = index_at(rows, x, y);
    let b = index_at(rows, x, y + 1);
    let c = index_at(rows, x + 1, y);
    let d = index_at(rows, x + 1, y + 1);
    triangles.push(a);
    triangles.push(b);
    triangles.push(c);
    triangles.push(b);
    triangles.push(d);
    triangles.push(c);
}

proof fn lemma_corner_in_grid(c: int, r: int, x: int, y: int, j: int)
    requires
        0 <= x,
        x + 1 < c,
        0 <= y,
        y + 1 < r,
        0 <= j < 6,
    ensures
        0 <= corner(r, x, y, j) < c * r,
        vertex_index(r, x + 1, y + 1) < c * r,
{
    assert(0 <= vertex_index(r, x, y) && vertex_index(r, x, y) <= vertex_index(r, x, y + 1)
        <= vertex_index(r, x + 1, y + 1) && vertex_index(r, x + 1, y) <= vertex_index(
        r,
        x + 1,
        y + 1,
    ) && vertex_index(r, x + 1, y + 1) < c * r) by (nonlinear_arith)
        requires
            0 <= x,
            x + 1 < c,
            0 <= y,
            y + 1 < r,
    ;
}

impl MeshDescriptor {
    /// Samples `map` on a `columns` by `rows` grid and triangulates it.
    ///
    /// Grid cell (x, y) takes the pixel at (x * width / columns, y * height /
    /// rows), rounded down, and stands at position y + x * rows of the vertex
    /// list. Every cell with a neighbour to its right and below gives two
    /// counter-clockwise triangles. A side of fewer than two vertices gives no
    /// triangles, and a side that is not positive gives no vertices.
    pub fn from_height_map(map: &Heightmap, columns: i32, rows: i32) -> (d: MeshDescriptor)
        requires
            map.wf(),
            extent(columns) * extent(rows) <= u32::MAX,
        ensures
            d.wf(),
            d.columns == extent(columns),
            d.rows == extent(rows),
            d.width == map.width_spec(),
            d.height == map.height_spec(),
            d.vertices@.len() == extent(columns) * extent(rows),
            forall|x: int, y: int|
                0 <= x < extent(columns) && 0 <= y < extent(rows) ==> #[trigger] d.vertices@[vertex_index(
                    extent(rows),
                    x,
                    y,
                )] == grid_vertex(*map, extent(columns), extent(rows), x, y),
            d.triangles@.len() == 6 * cells(extent(columns)) * cells(extent(rows)),
            forall|x: int, y: int, j: int|
                0 <= x < cells(extent(columns)) && 0 <= y < cells(extent(rows)) && 0 <= j < 6
                    ==> #[trigger] d.triangles@[corner_pos(extent(rows), x, y, j)] == corner(
                    extent(rows),
                    x,
                    y,
                    j,
                ),
            extent(columns) < 2 || extent(rows) < 2 ==> d.triangles@.len() == 0,
    {
        let c: u32 = if columns > 0 { columns as u32 } else { 0 };
        let r: u32 = if rows > 0 { rows as u32 } else { 0 };
        let w = map.width();
        let h = map.height();
        let ghost cr = c as int * r as int;

        let mut vertices: Vec<GridVertex> = Vec::new();
        let mut x: u32 = 0;
        while x < c
            invariant
                map.wf(),
                c == extent(columns),
                r == extent(rows),
                w == map.width_spec(),
                h == map.height_spec(),
                x <= c,
                vertices@.len() == x * r,
                forall|x0: int, y0: int|
                    0 <= x0 < x && 0 <= y0 < r ==> #[trigger] vertices@[vertex_index(
                        r as int,
                        x0,
                        y0,
                    )] == grid_vertex(*map, c as int, r as int, x0, y0),
            decreases c - x,
        {
            assert((x as int) * (w as int) <= u64::MAX) by (nonlinear_arith)
                requires
                    0 <= x <= u32::MAX,
                    0 <= w <= u32::MAX,
            ;
            proof {
                lemma_sample_in_range(x as int, c as int, w as int);
            }
            let px = ((x as u64) * (w as u64) / (c as u64)) as u32;
            let mut y: u32 = 0;
            while y < r
                invariant
                    map.wf(),
                    c == extent(columns),
                    r == extent(rows),
                    w == map.width_spec(),
                    h == map.height_spec(),
                    x < c,
                    y <= r,
                    px == sample(x as int, c as int, w as int),
                    px < w,
                    vertices@.len() == x * r + y,
                    forall|x0: int, y0: int|
                        (0 <= x0 < x && 0 <= y0 < r) || (x0 == x && 0 <= y0 < y)
                            ==> #[trigger] vertices@[vertex_index(r as int, x0, y0)] == grid_vertex(
                            *map,
                            c as int,
                            r as int,
                            x0,
                            y0,
                        ),
                decreases r - y,
            {
                assert((y as int) * (h as int) <= u64::MAX) by (nonlinear_arith)
                    requires
                        0 <= y <= u32::MAX,
                        0 <= h <= u32::MAX,
                ;
                proof {
                    lemma_sample_in_range(y as int, r as int, h as int);
                }
                let py = ((y as u64) * (h as u64) / (r as u64)) as u32;
                let v = GridVertex {
                    column: x,
                    row: y,
                    pixel_x: px,
                    pixel_y: py,
                    elevation: map.red_at(px, py),
                };
                let ghost before = vertices@;
                vertices.push(v);
                proof {
                    assert forall|x0: int, y0: int|
                        (0 <= x0 < x && 0 <= y0 < r) || (x0 == x && 0 <= y0 < y + 1) implies #[trigger] vertices@[vertex_index(
                        r as int,
                        x0,
                        y0,
                    )] == grid_vertex(*map, c as int, r as int, x0, y0) by {
                        if x0 == x && y0 == y {
                            assert(vertex_index(r as int, x0, y0) == before.len());
                        } else {
                            lemma_vertex_before(r as int, x0, y0, x as int, y as int);
                        }
                    }
                }
                y += 1;
            }
            assert(x * r + r == (x + 1) * r) by (nonlinear_arith);
            x += 1;
        }

        let cx: u32 = if c >= 2 { c - 1 } else { 0 };
        let ry: u32 = if r >= 2 { r - 1 } else { 0 };
        let mut triangles: Vec<u32> = Vec::new();
        let mut x: u32 = 0;
        while x < cx
            invariant
                c == extent(columns),
                r == extent(rows),
                cx == cells(c as int),
                ry == cells(r as int),
                c * r <= u32::MAX,
                x <= cx,
                triangles@.len() == 6 * (x * ry),
                forall|i: int| 0 <= i < triangles@.len() ==> #[trigger] triangles@[i] < c * r,
                forall|x0: int, y0: int, j: int|
                    0 <= x0 < x && 0 <= y0 < ry && 0 <= j < 6 ==> #[trigger] triangles@[corner_pos(
                        r as int,
                        x0,
                        y0,
                        j,
                    )] == corner(r as int, x0, y0, j),
            decreases cx - x,
        {
            let mut y: u32 = 0;
            while y < ry
                invariant
                    c == extent(columns),
                    r == extent(rows),
                    cx == cells(c as int),
                    ry == cells(r as int),
                    c * r <= u32::MAX,
                    x < cx,
                    y <= ry,
                    triangles@.len() == 6 * (x * ry + y),
                    forall|i: int| 0 <= i < triangles@.len() ==> #[trigger] triangles@[i] < c * r,
                    forall|x0: int, y0: int, j: int|
                        ((0 <= x0 < x && 0 <= y0 < ry) || (x0 == x && 0 <= y0 < y)) && 0 <= j < 6
                            ==> #[trigger] triangles@[corner_pos(r as int, x0, y0, j)] == corner(
                            r as int,
                            x0,
                            y0,
                            j,
                        ),
                decreases ry - y,
            {
                proof {
                    lemma_corner_in_grid(c as int, r as int, x as int, y as int, 0);
                }
                let ghost before = triangles@;
                push_cell(&mut triangles, r, x, y);
                proof {
                    assert forall|i: int| 0 <= i < triangles@.len() implies #[trigger] triangles@[i] < c
                        * r by {
                        if i >= before.len() {
                            let j = i - before.len();
                            assert(triangles@[before.len() + j] == corner(r as int, x as int, y as int, j));
                            lemma_corner_in_grid(c as int, r as int, x as int, y as int, j);
                        } else {
                            assert(triangles@[i] == before[i]);
                        }
                    }
                    assert forall|x0: int, y0: int, j: int|
                        ((0 <= x0 < x && 0 <= y0 < ry) || (x0 == x && 0 <= y0 < y + 1)) && 0 <= j < 6
                            implies #[trigger] triangles@[corner_pos(r as int, x0, y0, j)] == corner(
                        r as int,
                        x0,
                        y0,
                        j,
                    ) by {
                        if x0 == x && y0 == y {
                            assert(corner_pos(r as int, x0, y0, j) == before.len() + j);
                        } else {
                            lemma_cell_before(ry as int, x0, y0, x as int, y as int, j);
                            assert(triangles@[corner_pos(r as int, x0, y0, j)] == before[corner_pos(r as int, x0, y0, j)]);
                        }
                    }
                }
                y += 1;
            }
            assert(6 * (x * ry + ry) == 6 * ((x + 1) * ry)) by (nonlinear_arith);
            x += 1;
        }
        assert(6 * (cx * ry) == 6 * cx * ry) by (nonlinear_arith);
        MeshDescriptor { columns: c, rows: r, width: w, height: h, vertices, triangles }
    }
}

} // verus!
