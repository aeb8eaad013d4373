//! Latitude/longitude sphere meshes.
//!
//! A UV sphere is laid out on a grid of `height_segments + 1` rows (from the
//! top pole down to the bottom pole) by `width_segments + 1` columns (once
//! around the sphere, the last column repeating the first). The core fixes
//! the combinatorial part of the mesh: which vertices exist, in which order,
//! and which triangles join them. Turning a grid vertex into coordinates is
//! left to the host, one vertex at a time.

use vstd::arithmetic::div_mod::lemma_div_pos_is_pos;
use vstd::arithmetic::div_mod::lemma_fundamental_div_mod;
use vstd::arithmetic::div_mod::lemma_mod_pos_bound;
use vstd::prelude::*;

verus! {

/// Fewest columns of cells a sphere may have.
pub const MIN_WIDTH_SEGMENTS: u32 = 3;

/// Fewest rows of cells a sphere may have.
pub const MIN_HEIGHT_SEGMENTS: u32 = 2;

/// Most vertices a mesh may have: its triangles name vertices by 32-bit numbers.
pub const MAX_VERTICES: u32 = 0xFFFF_FFFF;

/// Most index entries a mesh may have: a draw call counts them in 32 bits.
pub const MAX_INDICES: u32 = 0xFFFF_FFFF;

/// How far the texture coordinate of a vertex is moved along the seam
/// direction, in units of half a column.
#[derive(Clone, Copy, Debug, PartialEq, Eq, Structural)]
pub enum PoleOffset {
    /// Not moved: every row between the poles.
    Centered,
    /// Moved by `+0.5 / width_segments`: the top row.
    Forward,
    /// Moved by `-0.5 / width_segments`: the bottom row.
    Backward,
}

/// One vertex of the sphere, by its place on the grid.
///
/// With `u = column / width_segments` and `v = row / height_segments`, the
/// vertex lies at azimuth `2πu` and polar angle `πv`; its texture coordinate
/// is `(u + pole_offset, v)`.
#[derive(Clone, Copy, Debug, PartialEq, Eq, Structural)]
pub struct GridVertex {
    pub column: u32,
    pub row: u32,
    pub pole_offset: PoleOffset,
}

/// A segment count raised to its minimum.
pub open spec fn clamped(value: u32, minimum: u32) -> u32 {
    if value < minimum {
        minimum
    } else {
        value
    }
}

/// Number of vertices of a grid with `w` by `h` cells.
pub open spec fn vertex_count(w: int, h: int) -> int {
    (w + 1) * (h + 1)
}

/// Number of index entries of a sphere with `w` by `h` cells: two triangles
/// for every cell of an inner row, one for every cell of the two pole rows.
pub open spec fn index_count(w: int, h: int) -> int {
    2 * 3 * w * (h - 1)
}

/// Position of the vertex at (`row`, `column`) in the vertex list.
pub open spec fn grid_index(w: int, row: int, column: int) -> int {
    row * (w + 1) + column
}

/// The seam offset of the vertices of `row`.
pub open spec fn pole_offset_at(h: int, row: int) -> PoleOffset {
    if row == 0 {
        PoleOffset::Forward
    } else if row == h {
        PoleOffset::Backward
    } else {
        PoleOffset::Centered
    }
}

/// The vertex at (`row`, `column`).
pub open spec fn vertex_at(h: int, row: int, column: int) -> GridVertex {
    GridVertex { column: column as u32, row: row as u32, pole_offset: pole_offset_at(h, row) }
}

/// `vertices` lists the grid row by row, each row column by column.
pub open spec fn is_grid(vertices: Seq<GridVertex>, w: int, h: int) -> bool {
    &&& vertices.len() == vertex_count(w, h)
    &&& forall|row: int, column: int|
        0 <= row <= h && 0 <= column <= w ==> (#[trigger] vertices[grid_index(w, row, column)])
            == vertex_at(h, row, column)
}

/// The first triangle of the cell at (`row`, `column`): upper right, upper
/// left, lower right.
pub open spec fn upper_triangle(w: int, row: int, column: int) -> Seq<int> {
    seq![
        grid_index(w, row, column + 1),
        grid_index(w, row, column),
        grid_index(w, row + 1, column + 1),
    ]
}

/// The second triangle of the cell at (`row`, `column`): upper left, lower
/// left, lower right.
pub open spec fn lower_triangle(w: int, row: int, column: int) -> Seq<int> {
    seq![
        grid_index(w, row, column),
        grid_index(w, row + 1, column),
        grid_index(w, row + 1, column + 1),
    ]
}

/// Index entries of one cell. In the top row the upper triangle would have
/// two corners at the pole and is left out; in the bottom row the lower one.
pub open spec fn cell_indices(w: int, h: int, row: int, column: int) -> Seq<int> {
    let upper = if row != 0 {
        upper_triangle(w, row, column)
    } else {
        Seq::<int>::empty()
    };
    let lower = if row != h - 1 {
        lower_triangle(w, row, column)
    } else {
        Seq::<int>::empty()
    };
    upper + lower
}

/// Index entries of the first `cells` cells of `row`.
pub open spec fn row_indices(w: int, h: int, row: int, cells: nat) -> Seq<int>
    decreases cells,
{
    if cells == 0 {
        Seq::<int>::empty()
    } else {
        row_indices(w, h, row, (cells - 1) as nat) + cell_indices(w, h, row, cells - 1)
    }
}

/// Index entries of the first `rows` rows of cells.
pub open spec fn grid_indices(w: int, h: int, rows: nat) -> Seq<int>
    decreases rows,
{
    if rows == 0 {
        Seq::<int>::empty()
    } else {
        grid_indices(w, h, (rows - 1) as nat) + row_indices(w, h, rows - 1, w as nat)
    }
}

/// All index entries of a sphere with `w` by `h` cells.
pub open spec fn sphere_indices(w: int, h: int) -> Seq<int> {
    grid_indices(w, h, h as nat)
}

/// Number of index entries that one cell of `row` contributes.
pub open spec fn cell_len(h: int, row: int) -> int {
    (if row != 0 {
        3int
    } else {
        0int
    }) + (if row != h - 1 {
        3int
    } else {
        0int
    })
}

/// Twice the signed area of the triangle `p`, `q`, `r` in the plane of the
/// grid, columns to the right and rows downwards.
pub open spec fn grid_area2(p: GridVertex, q: GridVertex, r: GridVertex) -> int {
    (q.column - p.column) * (r.row - p.row) - (r.column - p.column) * (q.row - p.row)
}

/// Every index entry names a vertex of the grid.
pub open spec fn indices_in_range(indices: Seq<int>, w: int, h: int) -> bool {
    forall|i: int| 0 <= i < indices.len() ==> 0 <= #[trigger] indices[i] < vertex_count(w, h)
}

/// The entries come in triples, and every triple turns the same way on the
/// grid: its signed area there is `-1/2`.
pub open spec fn uniformly_wound(indices: Seq<int>, vertices: Seq<GridVertex>) -> bool {
    &&& indices.len() % 3 == 0
    &&& forall|t: int|
        0 <= t && 3 * t + 2 < indices.len() ==> grid_area2(
            vertices[#[trigger] indices[3 * t]],
            vertices[indices[3 * t + 1]],
            vertices[indices[3 * t + 2]],
        ) == -1
}

/// Index entries widened to mathematical integers.
pub open spec fn widen(indices: Seq<u32>) -> Seq<int> {
    indices.map_values(|i: u32| i as int)
}

/// A sphere with `w` by `h` cells can be numbered in 32 bits: its vertices
/// by the indices, and its indices by a draw call.
pub open spec fn fits(w: int, h: int) -> bool {
    &&& vertex_count(w, h) <= MAX_VERTICES
    &&& index_count(w, h) <= MAX_INDICES
}

proof fn lemma_mul_step(a: int, b: int)
    ensures
        (a + 1) * b == a * b + b,
        a * (b + 1) == a * b + a,
{
    assert((a + 1) * b == a * b + b) by (nonlinear_arith);
    assert(a * (b + 1) == a * b + a) by (nonlinear_arith);
}

proof fn lemma_mul_le(a: int, b: int, c: int)
    requires
        0 <= a <= b,
        0 <= c,
    ensures
        a * c <= b * c,
{
    assert(a * c <= b * c) by (nonlinear_arith)
        requires
            0 <= a <= b,
            0 <= c,
    ;
}

/// A vertex of the grid has a position below the vertex count, and vertices
/// earlier in reading order have smaller positions.
pub proof fn lemma_grid_index_bounds(w: int, h: int, row: int, column: int)
    requires
        0 <= w,
        0 <= row <= h,
        0 <= column <= w,
    ensures
        0 <= grid_index(w, row, column) < vertex_count(w, h),
        grid_index(w, row, column) < grid_index(w, row + 1, 0),
{
    lemma_mul_step(row, w + 1);
    lemma_mul_le(0, row, w + 1);
    lemma_mul_le(row + 1, h + 1, w + 1);
    assert((w + 1) * (h + 1) == (h + 1) * (w + 1)) by (nonlinear_arith);
}

proof fn lemma_grid_index_order(w: int, r1: int, c1: int, r2: int, c2: int)
    requires
        0 <= w,
        0 <= r1 < r2,
        0 <= c1 <= w,
        0 <= c2,
    ensures
        grid_index(w, r1, c1) < grid_index(w, r2, c2),
{
    lemma_mul_step(r1, w + 1);
    lemma_mul_le(r1 + 1, r2, w + 1);
}

/// Every vertex of a grid is found from its place in the list alone: the
/// vertex at place `k` stands in row `k / (w + 1)` and column
/// `k % (w + 1)`.
pub proof fn lemma_vertex_by_place(vertices: Seq<GridVertex>, w: int, h: int, k: int)
    requires
        is_grid(vertices, w, h),
        0 <= w,
        0 <= h,
        0 <= k < vertices.len(),
    ensures
        0 <= k / (w + 1) <= h,
        0 <= k % (w + 1) <= w,
        vertices[k] == vertex_at(h, k / (w + 1), k % (w + 1)),
{
    let row = k / (w + 1);
    let column = k % (w + 1);
    lemma_fundamental_div_mod(k, w + 1);
    lemma_mod_pos_bound(k, w + 1);
    lemma_div_pos_is_pos(k, w + 1);
    assert((w + 1) * row == row * (w + 1)) by (nonlinear_arith);
    if row > h {
        lemma_mul_le(h + 1, row, w + 1);
        assert((h + 1) * (w + 1) == (w + 1) * (h + 1)) by (nonlinear_arith);
    }
    assert(grid_index(w, row, column) == k);
}

proof fn lemma_row_len(w: int, h: int, row: int, cells: nat)
    ensures
        row_indices(w, h, row, cells).len() == cells * cell_len(h, row),
    decreases cells,
{
    if cells > 0 {
        lemma_row_len(w, h, row, (cells - 1) as nat);
        lemma_mul_step(cells - 1, cell_len(h, row));
    } else {
        assert(0 * cell_len(h, row) == 0);
    }
}

proof fn lemma_grid_len(w: int, h: int, rows: nat)
    requires
        0 <= w,
        2 <= h,
        rows <= h,
    ensures
        grid_indices(w, h, rows).len() == if rows == 0 {
            0
        } else if rows < h {
            3 * w + 6 * w * (rows - 1)
        } else {
            index_count(w, h)
        },
    decreases rows,
{
    if rows > 0 {
        let previous = (rows - 1) as nat;
        lemma_grid_len(w, h, previous);
        lemma_row_len(w, h, rows - 1, w as nat);
        let added = w * cell_len(h, rows - 1);
        if rows == 1 {
            assert(added == 3 * w) by (nonlinear_arith)
                requires
                    added == w * 3,
            ;
            assert(6 * w * (rows - 1) == 0) by (nonlinear_arith)
                requires
                    rows == 1,
            ;
        } else if rows < h {
            assert(added == 6 * w) by (nonlinear_arith)
                requires
                    added == w * 6,
            ;
            assert(3 * w + 6 * w * (rows - 2) + 6 * w == 3 * w + 6 * w * (rows - 1))
                by (nonlinear_arith);
        } else {
            assert(added == 3 * w) by (nonlinear_arith)
                requires
                    added == w * 3,
            ;
            assert(3 * w + 6 * w * (h - 2) + 3 * w == 2 * 3 * w * (h - 1)) by (nonlinear_arith);
        }
    }
}

/// The number of index entries of a sphere is `2 * 3 * w * (h - 1)`.
pub proof fn lemma_index_count(w: int, h: int)
    requires
        0 <= w,
        2 <= h,
    ensures
        sphere_indices(w, h).len() == index_count(w, h),
{
    lemma_grid_len(w, h, h as nat);
}

proof fn lemma_cell_in_range(w: int, h: int, row: int, column: int)
    requires
        0 <= w,
        0 <= row < h,
        0 <= column < w,
    ensures
        indices_in_range(cell_indices(w, h, row, column), w, h),
{
    lemma_grid_index_bounds(w, h, row, column);
    lemma_grid_index_bounds(w, h, row, column + 1);
    lemma_grid_index_bounds(w, h, row + 1, column);
    lemma_grid_index_bounds(w, h, row + 1, column + 1);
}

proof fn lemma_concat_in_range(first: Seq<int>, second: Seq<int>, w: int, h: int)
    requires
        indices_in_range(first, w, h),
        indices_in_range(second, w, h),
    ensures
        indices_in_range(first + second, w, h),
{
    let joined = first + second;
    assert forall|i: int| 0 <= i < joined.len() implies 0 <= #[trigger] joined[i] < vertex_count(
        w,
        h,
    ) by {
        if i < first.len() {
            assert(joined[i] == first[i]);
        } else {
            assert(joined[i] == second[i - first.len()]);
        }
    }
}

proof fn lemma_row_in_range(w: int, h: int, row: int, cells: nat)
    requires
        0 <= w,
        0 <= row < h,
        cells <= w,
    ensures
        indices_in_range(row_indices(w, h, row, cells), w, h),
    decreases cells,
{
    if cells > 0 {
        lemma_row_in_range(w, h, row, (cells - 1) as nat);
        lemma_cell_in_range(w, h, row, cells - 1);
        lemma_concat_in_range(
            row_indices(w, h, row, (cells - 1) as nat),
            cell_indices(w, h, row, cells - 1),
            w,
            h,
        );
    }
}

proof fn lemma_grid_in_range(w: int, h: int, rows: nat)
    requires
        0 <= w,
        rows <= h,
    ensures
        indices_in_range(grid_indices(w, h, rows), w, h),
    decreases rows,
{
    if rows > 0 {
        lemma_grid_in_range(w, h, (rows - 1) as nat);
        lemma_row_in_range(w, h, rows - 1, w as nat);
        lemma_concat_in_range(
            grid_indices(w, h, (rows - 1) as nat),
            row_indices(w, h, rows - 1, w as nat),
            w,
            h,
        );
    }
}

/// Every index entry of a sphere names one of its vertices.
pub proof fn lemma_indices_in_range(w: int, h: int)
    requires
        0 <= w,
        0 <= h,
    ensures
        indices_in_range(sphere_indices(w, h), w, h),
{
    lemma_grid_in_range(w, h, h as nat);
}

proof fn lemma_cell_wound(vertices: Seq<GridVertex>, w: int, h: int, row: int, column: int)
    requires
        is_grid(vertices, w, h),
        0 <= row < h,
        0 <= column < w,
        vertex_count(w, h) <= MAX_VERTICES,
    ensures
        uniformly_wound(cell_indices(w, h, row, column), vertices),
{
    let cell = cell_indices(w, h, row, column);
    lemma_grid_index_bounds(w, h, row + 1, column + 1);
    assert(vertices[grid_index(w, row, column)] == vertex_at(h, row, column));
    assert(vertices[grid_index(w, row, column + 1)] == vertex_at(h, row, column + 1));
    assert(vertices[grid_index(w, row + 1, column)] == vertex_at(h, row + 1, column));
    assert(vertices[grid_index(w, row + 1, column + 1)] == vertex_at(h, row + 1, column + 1));
    assert(w + 1 <= vertex_count(w, h) && h + 1 <= vertex_count(w, h)) by (nonlinear_arith)
        requires
            0 <= w,
            0 <= h,
    ;
    let upper = upper_triangle(w, row, column);
    let lower = lower_triangle(w, row, column);
    assert(grid_area2(vertices[upper[0]], vertices[upper[1]], vertices[upper[2]]) == -1)
        by (nonlinear_arith)
        requires
            vertices[upper[0]] == vertex_at(h, row, column + 1),
            vertices[upper[1]] == vertex_at(h, row, column),
            vertices[upper[2]] == vertex_at(h, row + 1, column + 1),
            0 <= row < h,
            0 <= column < w,
            w < 0x1_0000_0000,
            h < 0x1_0000_0000,
    ;
    assert(grid_area2(vertices[lower[0]], vertices[lower[1]], vertices[lower[2]]) == -1)
        by (nonlinear_arith)
        requires
            vertices[lower[0]] == vertex_at(h, row, column),
            vertices[lower[1]] == vertex_at(h, row + 1, column),
            vertices[lower[2]] == vertex_at(h, row + 1, column + 1),
            0 <= row < h,
            0 <= column < w,
            w < 0x1_0000_0000,
            h < 0x1_0000_0000,
    ;
    assert forall|t: int| 0 <= t && 3 * t + 2 < cell.len() implies grid_area2(
        vertices[#[trigger] cell[3 * t]],
        vertices[cell[3 * t + 1]],
        vertices[cell[3 * t + 2]],
    ) == -1 by {
        if row != 0 && row != h - 1 {
            if t == 0 {
                assert(cell[0] == upper[0] && cell[1] == upper[1] && cell[2] == upper[2]);
            } else {
                assert(t == 1);
                assert(cell[3] == lower[0] && cell[4] == lower[1] && cell[5] == lower[2]);
            }
        } else if row != 0 {
            assert(cell =~= upper);
        } else if row != h - 1 {
            assert(cell =~= lower);
        }
    }
}

proof fn lemma_concat_wound(first: Seq<int>, second: Seq<int>, vertices: Seq<GridVertex>)
    requires
        uniformly_wound(first, vertices),
        uniformly_wound(second, vertices),
    ensures
        uniformly_wound(first + second, vertices),
{
    let joined = first + second;
    let shift = first.len() as int / 3;
    assert(first.len() == 3 * shift);
    assert forall|t: int| 0 <= t && 3 * t + 2 < joined.len() implies grid_area2(
        vertices[#[trigger] joined[3 * t]],
        vertices[joined[3 * t + 1]],
        vertices[joined[3 * t + 2]],
    ) == -1 by {
        if t < shift {
            assert(joined[3 * t] == first[3 * t]);
            assert(joined[3 * t + 1] == first[3 * t + 1]);
            assert(joined[3 * t + 2] == first[3 * t + 2]);
        } else {
            let u = t - shift;
            assert(joined[3 * t] == second[3 * u]);
            assert(joined[3 * t + 1] == second[3 * u + 1]);
            assert(joined[3 * t + 2] == second[3 * u + 2]);
        }
    }
}

proof fn lemma_row_wound(vertices: Seq<GridVertex>, w: int, h: int, row: int, cells: nat)
    requires
        is_grid(vertices, w, h),
        0 <= row < h,
        cells <= w,
        vertex_count(w, h) <= MAX_VERTICES,
    ensures
        uniformly_wound(row_indices(w, h, row, cells), vertices),
    decreases cells,
{
    if cells > 0 {
        lemma_row_wound(vertices, w, h, row, (cells - 1) as nat);
        lemma_cell_wound(vertices, w, h, row, cells - 1);
        lemma_concat_wound(
            row_indices(w, h, row, (cells - 1) as nat),
            cell_indices(w, h, row, cells - 1),
            vertices,
        );
    }
}

proof fn lemma_grid_wound(vertices: Seq<GridVertex>, w: int, h: int, rows: nat)
    requires
        is_grid(vertices, w, h),
        0 <= w,
        rows <= h,
        vertex_count(w, h) <= MAX_VERTICES,
    ensures
        uniformly_wound(grid_indices(w, h, rows), vertices),
    decreases rows,
{
    if rows > 0 {
        lemma_grid_wound(vertices, w, h, (rows - 1) as nat);
        lemma_row_wound(vertices, w, h, rows - 1, w as nat);
        lemma_concat_wound(
            grid_indices(w, h, (rows - 1) as nat),
            row_indices(w, h, rows - 1, w as nat),
            vertices,
        );
    }
}

/// All triangles of a sphere turn the same way on the grid: each has signed
/// area `-1/2` there.
pub proof fn lemma_winding(vertices: Seq<GridVertex>, w: int, h: int)
    requires
        is_grid(vertices, w, h),
        0 <= w,
        0 <= h,
        vertex_count(w, h) <= MAX_VERTICES,
    ensures
        uniformly_wound(sphere_indices(w, h), vertices),
{
    lemma_grid_wound(vertices, w, h, h as nat);
}

/// A sphere mesh: its grid vertices and the triangles that join them.
#[derive(Clone, Debug)]
pub struct Mesh {
    width_segments: u32,
    height_segments: u32,
    vertices: Vec<GridVertex>,
    indices: Vec<u32>,
}

impl Mesh {
    /// Number of columns of cells.
    pub closed spec fn width(&self) -> int {
        self.width_segments as int
    }

    /// Number of rows of cells.
    pub closed spec fn height(&self) -> int {
        self.height_segments as int
    }

    /// The vertices, in the order in which triangles number them.
    pub closed spec fn vertex_seq(&self) -> Seq<GridVertex> {
        self.vertices@
    }

    /// The index entries, three for each triangle.
    pub closed spec fn index_seq(&self) -> Seq<u32> {
        self.indices@
    }

    /// The mesh is the sphere of its segment counts.
    pub open spec fn wf(&self) -> bool {
        &&& MIN_WIDTH_SEGMENTS <= self.width()
        &&& MIN_HEIGHT_SEGMENTS <= self.height()
        &&& fits(self.width(), self.height())
        &&& is_grid(self.vertex_seq(), self.width(), self.height())
        &&& widen(self.index_seq()) == sphere_indices(self.width(), self.height())
    }

    /// Number of columns of cells.
    pub fn width_segments(&self) -> (w: u32)
        ensures
            w == self.width(),
    {
        self.width_segments
    }

    /// Number of rows of cells.
    pub fn height_segments(&self) -> (h: u32)
        ensures
            h == self.height(),
    {
        self.height_segments
    }

    /// The vertices, in the order in which triangles number them.
    pub fn vertices(&self) -> (v: &Vec<GridVertex>)
        ensures
            v@ == self.vertex_seq(),
    {
        &self.vertices
    }

    /// The index entries, three for each triangle.
    pub fn indices(&self) -> (i: &Vec<u32>)
        ensures
            i@ == self.index_seq(),
    {
        &self.indices
    }

    /// What holds of every well-formed mesh: the vertex and index counts,
    /// that every index names a vertex, and that all triangles turn the
    /// same way.
    pub proof fn lemma_shape(&self)
        requires
            self.wf(),
        ensures
            self.vertex_seq().len() == (self.width() + 1) * (self.height() + 1),
            self.index_seq().len() == 2 * 3 * self.width() * (self.height() - 1),
            self.index_seq().len() <= MAX_INDICES,
            forall|i: int|
                0 <= i < self.index_seq().len() ==> (#[trigger] self.index_seq()[i])
                    < self.vertex_seq().len(),
            uniformly_wound(widen(self.index_seq()), self.vertex_seq()),
    {
        let w = self.width();
        let h = self.height();
        lemma_index_count(w, h);
        lemma_indices_in_range(w, h);
        lemma_winding(self.vertex_seq(), w, h);

        let wide = widen(self.index_seq());
        assert(wide.len() == self.index_seq().len());
        assert forall|i: int| 0 <= i < self.index_seq().len() implies (
        #[trigger] self.index_seq()[i]) < self.vertex_seq().len() by {
            assert(wide[i] == self.index_seq()[i] as int);
        }
    }
}

/// Tells whether a sphere with these segment counts, raised to their
/// minimums, can be numbered in 32 bits.
pub fn sphere_fits(width_segments: u32, height_segments: u32) -> (fits: bool)
    ensures
        fits == self::fits(
            clamped(width_segments, MIN_WIDTH_SEGMENTS) as int,
            clamped(height_segments, MIN_HEIGHT_SEGMENTS) as int,
        ),
{
    let w: u128 = if width_segments < MIN_WIDTH_SEGMENTS {
        MIN_WIDTH_SEGMENTS as u128
    } else {
        width_segments as u128
    };
    let h: u128 = if height_segments < MIN_HEIGHT_SEGMENTS {
        MIN_HEIGHT_SEGMENTS as u128
    } else {
        height_segments as u128
    };
    assert((w + 1) * (h + 1) <= 0x1_0000_0000 * 0x1_0000_0000 && 0 <= w * (h - 1)
        <= 0x1_0000_0000 * 0x1_0000_0000 && 2 * 3 * w * (h - 1) == 6 * (w * (h - 1)))
        by (nonlinear_arith)
        requires
            3 <= w < 0x1_0000_0000,
            2 <= h < 0x1_0000_0000,
    ;
    let vertices: u128 = (w + 1) * (h + 1);
    let cells: u128 = w * (h - 1);
    vertices <= MAX_VERTICES as u128 && 6 * cells <= MAX_INDICES as u128
}

/// Builds the sphere with the given numbers of cells around (`width_segments`,
/// raised to 3) and from pole to pole (`height_segments`, raised to 2).
///
/// Vertices are listed row by row from the top pole, and the triangles of
/// each cell follow in the same order, leaving out the two kinds that would
/// collapse at a pole.
pub fn generate_uv_sphere(width_segments: u32, height_segments: u32) -> (mesh: Mesh)
    requires
        fits(
            clamped(width_segments, MIN_WIDTH_SEGMENTS) as int,
            clamped(height_segments, MIN_HEIGHT_SEGMENTS) as int,
        ),
    ensures
        mesh.wf(),
        mesh.width() == clamped(width_segments, MIN_WIDTH_SEGMENTS),
        mesh.height() == clamped(height_segments, MIN_HEIGHT_SEGMENTS),
        mesh.vertex_seq().len() == vertex_count(mesh.width(), mesh.height()),
        mesh.index_seq().len() == index_count(mesh.width(), mesh.height()),
        forall|i: int|
            0 <= i < mesh.index_seq().len() ==> (#[trigger] mesh.index_seq()[i])
                < mesh.vertex_seq().len(),
{
    let w: u32 = if width_segments < MIN_WIDTH_SEGMENTS {
        MIN_WIDTH_SEGMENTS
    } else {
        width_segments
    };
    let h: u32 = if height_segments < MIN_HEIGHT_SEGMENTS {
        MIN_HEIGHT_SEGMENTS
    } else {
        height_segments
    };
    let ghost wi = w as int;
    let ghost hi = h as int;
    proof {
        assert(wi + 1 <= vertex_count(wi, hi) && hi + 1 <= vertex_count(wi, hi))
            by (nonlinear_arith)
            requires
                0 <= wi,
                0 <= hi,
        ;
    }
    let stride: u32 = w + 1;
    let vertices = grid_vertices(w, h);
    let mut indices: Vec<u32> = Vec::new();
    let mut row: u32 = 0;
    let mut base: u32 = 0;
    while row < h
        invariant
            row <= h,
            stride == w + 1,
            wi == w as int,
            hi == h as int,
            vertex_count(wi, hi) <= MAX_VERTICES,
            base == grid_index(wi, row as int, 0),
            widen(indices@) == grid_indices(wi, hi, row as nat),
        decreases h - row,
    {
        let mut column: u32 = 0;
        while column < w
            invariant
                row < h,
                column <= w,
                stride == w + 1,
                wi == w as int,
                hi == h as int,
                vertex_count(wi, hi) <= MAX_VERTICES,
                base == grid_index(wi, row as int, 0),
                widen(indices@) == grid_indices(wi, hi, row as nat) + row_indices(
                    wi,
                    hi,
                    row as int,
                    column as nat,
                ),
            decreases w - column,
        {
            proof {
                lemma_grid_index_bounds(wi, hi, row as int, column as int);
                lemma_grid_index_bounds(wi, hi, row as int, column + 1);
                lemma_grid_index_bounds(wi, hi, row + 1, column as int);
                lemma_grid_index_bounds(wi, hi, row + 1, column + 1);
                lemma_mul_step(row as int, wi + 1);
            }
            let upper_left: u32 = base + column;
            let upper_right: u32 = upper_left + 1;
            let lower_left: u32 = upper_left + stride;
            let lower_right: u32 = lower_left + 1;
            let a: u32 = upper_right;
            let b: u32 = upper_left;
            let c: u32 = lower_left;
            let d: u32 = lower_right;
            let ghost before = indices@;
            if row != 0 {
                indices.push(a);
                indices.push(b);
                indices.push(d);
            }
            if row != h - 1 {
                indices.push(b);
                indices.push(c);
                indices.push(d);
            }
            proof {
                let cell = cell_indices(wi, hi, row as int, column as int);
                assert(widen(indices@) =~= widen(before) + cell);
                assert(row_indices(wi, hi, row as int, (column + 1) as nat) == row_indices(
                    wi,
                    hi,
                    row as int,
                    column as nat,
                ) + cell);
                assert(widen(indices@) =~= grid_indices(wi, hi, row as nat) + row_indices(
                    wi,
                    hi,
                    row as int,
                    (column + 1) as nat,
                ));
            }
            column += 1;
        }
        proof {
            lemma_mul_step(row as int, wi + 1);
            lemma_grid_index_bounds(wi, hi, row as int, 0);
            lemma_grid_index_bounds(wi, hi, row + 1, 0);
            assert(grid_indices(wi, hi, (row + 1) as nat) == grid_indices(wi, hi, row as nat)
                + row_indices(wi, hi, row as int, wi as nat));
        }
        base += stride;
        row += 1;
    }
    let mesh = Mesh { width_segments: w, height_segments: h, vertices, indices };
    proof {
        mesh.lemma_shape();
    }
    mesh
}

/// The vertex list of the grid with `w` by `h` cells.
fn grid_vertices(w: u32, h: u32) -> (vertices: Vec<GridVertex>)
    requires
        vertex_count(w as int, h as int) <= MAX_VERTICES,
    ensures
        is_grid(vertices@, w as int, h as int),
{
    let ghost wi = w as int;
    let ghost hi = h as int;
    proof {
        assert(wi + 1 <= vertex_count(wi, hi) && hi + 1 <= vertex_count(wi, hi))
            by (nonlinear_arith)
            requires
                0 <= wi,
                0 <= hi,
        ;
    }
    let mut vertices: Vec<GridVertex> = Vec::new();
    let mut row: u32 = 0;
    while row <= h
        invariant
            row <= h + 1,
            w < MAX_VERTICES,
            h < MAX_VERTICES,
            wi == w as int,
            hi == h as int,
            vertex_count(wi, hi) <= MAX_VERTICES,
            vertices@.len() == grid_index(wi, row as int, 0),
            forall|r: int, c: int|
                0 <= r < row && 0 <= c <= wi ==> (#[trigger] vertices@[grid_index(wi, r, c)])
                    == vertex_at(hi, r, c),
        decreases h + 1 - row,
    {
        let pole_offset = if row == 0 {
            PoleOffset::Forward
        } else if row == h {
            PoleOffset::Backward
        } else {
            PoleOffset::Centered
        };
        let mut column: u32 = 0;
        while column <= w
            invariant
                row <= h,
                column <= w + 1,
                w < MAX_VERTICES,
                h < MAX_VERTICES,
                wi == w as int,
                hi == h as int,
                vertex_count(wi, hi) <= MAX_VERTICES,
                pole_offset == pole_offset_at(hi, row as int),
                vertices@.len() == grid_index(wi, row as int, column as int),
                forall|r: int, c: int|
                    0 <= c <= wi && (0 <= r < row || (r == row && c < column)) ==> (
                    #[trigger] vertices@[grid_index(wi, r, c)]) == vertex_at(hi, r, c),
            decreases w + 1 - column,
        {
            let ghost before = vertices@;
            vertices.push(GridVertex { column, row, pole_offset });
            proof {
                assert forall|r: int, c: int|
                    0 <= c <= wi && (0 <= r < row || (r == row && c < column + 1)) implies (
                #[trigger] vertices@[grid_index(wi, r, c)]) == vertex_at(hi, r, c) by {
                    if r < row {
                        lemma_grid_index_order(wi, r, c, row as int, column as int);
                        assert(vertices@[grid_index(wi, r, c)] == before[grid_index(wi, r, c)]);
                    } else if c < column {
                        assert(vertices@[grid_index(wi, r, c)] == before[grid_index(wi, r, c)]);
                    }
                }
            }
            column += 1;
        }
        proof {
            lemma_mul_step(row as int, wi + 1);
        }
        row += 1;
    }
    proof {
        assert(grid_index(wi, hi + 1, 0) == vertex_count(wi, hi)) by (nonlinear_arith);
    }
    vertices
}

} // verus!
