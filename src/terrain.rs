use vstd::prelude::*;
use vstd::arithmetic::div_mod::{lemma_fundamental_div_mod, lemma_fundamental_div_mod_converse};

verus! {

/// Side length of the square terrain grid that the scene draws.
pub const TERRAIN_SIZE: usize = 512;

/// The reserved index value that ends one triangle strip so that the next
/// strip starts fresh (primitive restart).
pub const RESTART_INDEX: u32 = 0xffff_ffff;

/// Why a terrain grid size was rejected.
#[derive(Debug, Clone, Copy, PartialEq, Eq, Structural)]
pub enum TerrainError {
    /// Fewer than two rows: no triangle can be formed.
    GridTooSmall,
    /// The vertex indices or the buffer sizes would not fit the machine types.
    GridTooLarge,
}

/// A grid side `n` that the mesh layout can hold: at least one cell, every
/// vertex index below the restart value, every buffer size a `usize`.
pub open spec fn grid_fits(n: int) -> bool {
    &&& 2 <= n
    &&& n * n <= u32::MAX
    &&& n * n * 12 <= usize::MAX
}

/// Number of vertices of an `n` by `n` grid.
pub open spec fn vertex_count_spec(n: int) -> int {
    n * n
}

/// Number of indices of the strip layout of an `n` by `n` grid: `2n` per row
/// of cells, and a restart index between consecutive rows.
pub open spec fn index_count_spec(n: int) -> int {
    (n - 1) * 2 * n + (n - 2)
}

/// Entries per row of cells in the index sequence, the restart index included.
pub open spec fn row_stride(n: int) -> int {
    2 * n + 1
}

/// The `o`-th entry (`0 <= o < 2n`) of the strip of cell row `i`.
/// Even rows walk the columns left to right, emitting (lower row, upper row)
/// pairs; odd rows walk right to left, emitting (upper row, lower row) pairs.
pub open spec fn strip_entry(n: int, i: int, o: int) -> int {
    let step = o / 2;
    if i % 2 == 0 {
        if o % 2 == 0 {
            (i + 1) * n + step
        } else {
            i * n + step
        }
    } else {
        let col = n - 1 - step;
        if o % 2 == 0 {
            i * n + col
        } else {
            (i + 1) * n + col
        }
    }
}

/// The `k`-th entry of the whole index sequence.
pub open spec fn strip_index_at(n: int, k: int) -> int {
    let row = k / row_stride(n);
    let o = k % row_stride(n);
    if o == 2 * n {
        RESTART_INDEX as int
    } else {
        strip_entry(n, row, o)
    }
}

/// The index sequence that draws an `n` by `n` grid as one triangle strip
/// with primitive restart.
pub open spec fn strip_index_seq(n: int) -> Seq<u32> {
    Seq::new(index_count_spec(n) as nat, |k: int| strip_index_at(n, k) as u32)
}

proof fn lemma_vertex_in_range(n: int, r: int, c: int)
    requires
        0 <= r < n,
        0 <= c < n,
    ensures
        0 <= r * n + c < n * n,
{
    assert(0 <= r * n) by (nonlinear_arith)
        requires
            0 <= r,
            0 <= n,
    ;
    assert(r * n + n <= n * n) by (nonlinear_arith)
        requires
            r + 1 <= n,
            0 <= n,
    ;
}

proof fn lemma_row_position(n: int, i: int, o: int)
    requires
        2 <= n,
        0 <= i,
        0 <= o < row_stride(n),
    ensures
        (i * row_stride(n) + o) / row_stride(n) == i,
        (i * row_stride(n) + o) % row_stride(n) == o,
{
    lemma_fundamental_div_mod_converse(i * row_stride(n) + o, row_stride(n), i, o);
}

proof fn lemma_index_count(n: int)
    requires
        2 <= n,
    ensures
        (n - 1) * row_stride(n) - 1 == index_count_spec(n),
        (n - 2) * row_stride(n) + 2 * n == index_count_spec(n),
        index_count_spec(n) <= 3 * (n * n),
{
    assert((n - 1) * (2 * n + 1) - 1 == (n - 1) * 2 * n + (n - 2)) by (nonlinear_arith);
    assert((n - 2) * (2 * n + 1) + 2 * n == (n - 1) * 2 * n + (n - 2)) by (nonlinear_arith);
    assert((n - 1) * 2 * n + (n - 2) <= 3 * (n * n)) by (nonlinear_arith)
        requires
            2 <= n,
    ;
}

/// How many restart indices a sequence holds.
pub open spec fn restart_count(s: Seq<u32>) -> nat {
    s.filter(|x: u32| x == RESTART_INDEX).len()
}

/// The four corner vertices of the grid cell in row `i`, column `c`.
pub open spec fn cell_corners(n: int, i: int, c: int) -> Set<int> {
    set![i * n + c, i * n + c + 1, (i + 1) * n + c, (i + 1) * n + c + 1]
}

/// The vertices of triangle `t` of the strip of cell row `i`: entries
/// `t`, `t + 1` and `t + 2` of that strip.
pub open spec fn strip_triangle(n: int, i: int, t: int) -> Set<int> {
    set![strip_entry(n, i, t), strip_entry(n, i, t + 1), strip_entry(n, i, t + 2)]
}

/// The column of the cell that triangle `t` of the strip of row `i` lies in.
pub open spec fn triangle_cell(n: int, i: int, t: int) -> int {
    if i % 2 == 0 {
        t / 2
    } else {
        n - 2 - t / 2
    }
}

/// Where along the strip of row `i` the two triangles of cell column `c`
/// stand: they are triangles `2q` and `2q + 1`.
pub open spec fn cell_step(n: int, i: int, c: int) -> int {
    if i % 2 == 0 {
        c
    } else {
        n - 2 - c
    }
}

proof fn lemma_entry_bounds(n: int, i: int, o: int)
    requires
        grid_fits(n),
        0 <= i < n - 1,
        0 <= o < 2 * n,
    ensures
        0 <= strip_entry(n, i, o) < n * n,
        strip_entry(n, i, o) != RESTART_INDEX as int,
{
    let step = o / 2;
    assert(0 <= step < n);
    lemma_vertex_in_range(n, i, step);
    lemma_vertex_in_range(n, i + 1, step);
    lemma_vertex_in_range(n, i, n - 1 - step);
    lemma_vertex_in_range(n, i + 1, n - 1 - step);
}

proof fn lemma_position_in_rows(n: int, k: int)
    requires
        grid_fits(n),
        0 <= k < index_count_spec(n),
    ensures
        0 <= k / row_stride(n) < n - 1,
        0 <= k % row_stride(n) < row_stride(n),
        k == (k / row_stride(n)) * row_stride(n) + k % row_stride(n),
{
    let m = row_stride(n);
    lemma_fundamental_div_mod(k, m);
    lemma_index_count(n);
    let q = k / m;
    let o = k % m;
    assert(0 <= o < m) by {
        vstd::arithmetic::div_mod::lemma_mod_pos_bound(k, m);
    }
    assert(0 <= q < n - 1) by (nonlinear_arith)
        requires
            k == m * q + o,
            0 <= o < m,
            0 <= k < (n - 1) * m - 1,
            m > 0,
    ;
}

proof fn lemma_restart_prefix(n: int, k: int)
    requires
        grid_fits(n),
        0 <= k <= index_count_spec(n),
    ensures
        restart_count(strip_index_seq(n).take(k)) == k / row_stride(n),
    decreases k,
{
    let s = strip_index_seq(n);
    let m = row_stride(n);
    if k == 0 {
        assert(s.take(0) =~= Seq::<u32>::empty());
        assert(Seq::<u32>::empty().filter(|x: u32| x == RESTART_INDEX) =~= Seq::<u32>::empty()) by {
            reveal(Seq::filter);
        }
    } else {
        let j = k - 1;
        lemma_restart_prefix(n, j);
        assert(s.take(k) =~= s.take(j).push(s[j]));
        s.take(j).lemma_filter_push(s[j], |x: u32| x == RESTART_INDEX);
        lemma_position_in_rows(n, j);
        let q = j / m;
        let o = j % m;
        if o == 2 * n {
            assert(s[j] == RESTART_INDEX);
            assert(q * m + m == (q + 1) * m) by (nonlinear_arith);
            lemma_fundamental_div_mod_converse(k, m, q + 1, 0);
        } else {
            lemma_entry_bounds(n, q, o);
            assert(s[j] != RESTART_INDEX);
            lemma_fundamental_div_mod_converse(k, m, q, o + 1);
        }
    }
}

/// The index layout of an `n` by `n` grid: `(n - 1) * 2n + (n - 2)` entries,
/// `n - 2` of them restart indices, one between consecutive rows of cells;
/// every other entry names a vertex of the grid; and, cut at the restart
/// indices, the sequence is one strip per row of cells whose consecutive
/// triangles are proper triangles inside a single cell, each cell of the
/// row being covered by exactly one pair of consecutive triangles that
/// together use its four corners.
pub proof fn lemma_strip_layout(n: int)
    requires
        grid_fits(n),
    ensures
        strip_index_seq(n).len() == (n - 1) * 2 * n + (n - 2),
        restart_count(strip_index_seq(n)) == n - 2,
        forall|k: int|
            0 <= k < strip_index_seq(n).len() && strip_index_seq(n)[k] != RESTART_INDEX ==> (
            #[trigger] strip_index_seq(n)[k]) < n * n,
        forall|i: int|
            0 <= i < n - 2 ==> #[trigger] strip_index_seq(n)[i * row_stride(n) + 2 * n]
                == RESTART_INDEX,
        forall|i: int, o: int|
            0 <= i < n - 1 && 0 <= o < 2 * n ==> #[trigger] strip_index_seq(n)[i * row_stride(n)
                + o] as int == strip_entry(n, i, o),
        forall|i: int, t: int|
            0 <= i < n - 1 && 0 <= t < 2 * n - 2 ==> {
                &&& 0 <= triangle_cell(n, i, t) < n - 1
                &&& (#[trigger] strip_triangle(n, i, t)).len() == 3
                &&& strip_triangle(n, i, t).subset_of(cell_corners(n, i, triangle_cell(n, i, t)))
            },
        forall|i: int, c: int, t: int|
            #![trigger triangle_cell(n, i, t), cell_step(n, i, c)]
            0 <= i < n - 1 && 0 <= c < n - 1 && 0 <= t < 2 * n - 2 ==> (triangle_cell(n, i, t)
                == c <==> t / 2 == cell_step(n, i, c)),
        forall|i: int, c: int|
            0 <= i < n - 1 && 0 <= c < n - 1 ==> 0 <= #[trigger] cell_step(n, i, c) < n - 1
                && strip_triangle(n, i, 2 * cell_step(n, i, c)) + strip_triangle(
                n,
                i,
                2 * cell_step(n, i, c) + 1,
            ) == cell_corners(n, i, c),
{
    let s = strip_index_seq(n);
    let m = row_stride(n);
    lemma_index_count(n);
    lemma_restart_prefix(n, s.len() as int);
    assert(s.take(s.len() as int) =~= s);
    lemma_fundamental_div_mod_converse(s.len() as int, m, n - 2, 2 * n);
    assert forall|k: int| 0 <= k < s.len() && s[k] != RESTART_INDEX implies (#[trigger] s[k]) < n
        * n by {
        lemma_position_in_rows(n, k);
        let q = k / m;
        let o = k % m;
        if o != 2 * n {
            lemma_entry_bounds(n, q, o);
        }
    }
    assert forall|i: int| 0 <= i < n - 2 implies #[trigger] s[i * m + 2 * n] == RESTART_INDEX by {
        lemma_row_position(n, i, 2 * n);
        assert(i * m + 2 * n < s.len()) by (nonlinear_arith)
            requires
                0 <= i < n - 2,
                s.len() == (n - 2) * m + 2 * n,
                m > 0,
        ;
    }
    assert forall|i: int, o: int| 0 <= i < n - 1 && 0 <= o < 2 * n implies #[trigger] s[i * m
        + o] as int == strip_entry(n, i, o) by {
        lemma_row_position(n, i, o);
        lemma_entry_bounds(n, i, o);
        assert(i * m + o < s.len()) by (nonlinear_arith)
            requires
                0 <= i < n - 1,
                0 <= o < 2 * n,
                s.len() == (n - 1) * m - 1,
                m == 2 * n + 1,
        ;
    }
    assert forall|i: int, t: int| 0 <= i < n - 1 && 0 <= t < 2 * n - 2 implies {
        &&& 0 <= triangle_cell(n, i, t) < n - 1
        &&& (#[trigger] strip_triangle(n, i, t)).len() == 3
        &&& strip_triangle(n, i, t).subset_of(cell_corners(n, i, triangle_cell(n, i, t)))
    } by {
        lemma_triangle_in_cell(n, i, t);
    }
    assert forall|i: int, c: int| 0 <= i < n - 1 && 0 <= c < n - 1 implies 0 <= #[trigger] cell_step(
        n,
        i,
        c,
    ) < n - 1 && strip_triangle(n, i, 2 * cell_step(n, i, c)) + strip_triangle(
        n,
        i,
        2 * cell_step(n, i, c) + 1,
    ) == cell_corners(n, i, c) by {
        let q = cell_step(n, i, c);
        assert(strip_triangle(n, i, 2 * q) + strip_triangle(n, i, 2 * q + 1) =~= cell_corners(
            n,
            i,
            c,
        ));
    }
}

proof fn lemma_triangle_in_cell(n: int, i: int, t: int)
    requires
        grid_fits(n),
        0 <= i < n - 1,
        0 <= t < 2 * n - 2,
    ensures
        0 <= triangle_cell(n, i, t) < n - 1,
        strip_triangle(n, i, t).len() == 3,
        strip_triangle(n, i, t).subset_of(cell_corners(n, i, triangle_cell(n, i, t))),
{
    assert((i + 1) * n == i * n + n) by (nonlinear_arith);
    let a = strip_entry(n, i, t);
    let b = strip_entry(n, i, t + 1);
    let c = strip_entry(n, i, t + 2);
    assert(a != b && b != c && a != c);
    assert(strip_triangle(n, i, t) == set![a, b, c]);
    assert(set![a, b, c].len() == 3) by {
        assert(set![a, b, c] =~= set![a].insert(b).insert(c));
    }
}

/// A validated terrain grid side length.
pub struct TerrainGrid {
    size: usize,
}

impl TerrainGrid {
    #[verifier::type_invariant]
    spec fn fits(self) -> bool {
        grid_fits(self.size as int)
    }

    /// The side length, in vertices.
    pub closed spec fn side(self) -> int {
        self.size as int
    }

    /// Accepts a side length of at least two whose mesh fits the index and
    /// size types; rejects any other.
    pub fn new(size: usize) -> (r: Result<TerrainGrid, TerrainError>)
        ensures
            size < 2 ==> r == Err::<TerrainGrid, TerrainError>(TerrainError::GridTooSmall),
            2 <= size && !grid_fits(size as int) ==> r == Err::<TerrainGrid, TerrainError>(
                TerrainError::GridTooLarge,
            ),
            grid_fits(size as int) <==> r is Ok,
            r matches Ok(g) ==> g.side() == size,
    {
        if size < 2 {
            return Err(TerrainError::GridTooSmall);
        }
        // 0x1_0000 * 0x1_0000 already exceeds u32::MAX, so n * n is computed
        // only once n is known to be small enough.
        if size > 0xffff {
            assert(size * size > u32::MAX) by (nonlinear_arith)
                requires
                    size > 0xffff,
            ;
            return Err(TerrainError::GridTooLarge);
        }
        assert(size * size <= 0xffff * 0xffff) by (nonlinear_arith)
            requires
                size <= 0xffff,
        ;
        let squared: u64 = (size as u64) * (size as u64);
        if squared > 0xffff_ffff || squared > (usize::MAX / 12) as u64 {
            return Err(TerrainError::GridTooLarge);
        }
        Ok(TerrainGrid { size })
    }

    /// The side length, in vertices.
    pub fn size(&self) -> (r: usize)
        ensures
            r == self.side(),
            grid_fits(r as int),
    {
        proof {
            use_type_invariant(self);
        }
        self.size
    }

    /// Number of vertices of the mesh.
    pub fn vertex_count(&self) -> (r: usize)
        ensures
            r == vertex_count_spec(self.side()),
    {
        proof {
            use_type_invariant(self);
        }
        self.size * self.size
    }

    /// Where the grid point in row `row`, column `col` stands among the
    /// vertices and in a heightmap of the grid: rows one after another.
    pub fn vertex_index(&self, row: usize, col: usize) -> (r: usize)
        requires
            row < self.side(),
            col < self.side(),
        ensures
            r == row * self.side() + col,
            r < vertex_count_spec(self.side()),
    {
        proof {
            use_type_invariant(self);
            lemma_vertex_in_range(self.size as int, row as int, col as int);
        }
        row * self.size + col
    }

    /// Number of indices of the mesh, restart indices included.
    pub fn index_count(&self) -> (r: usize)
        ensures
            r == index_count_spec(self.side()),
    {
        proof {
            use_type_invariant(self);
            lemma_index_count(self.size as int);
        }
        let n = self.size;
        (n - 1) * 2 * n + (n - 2)
    }

    /// Size in bytes of the vertex storage: three 4-byte coordinates per vertex.
    pub fn vertex_buffer_size(&self) -> (r: u64)
        ensures
            r == vertex_count_spec(self.side()) * 12,
    {
        proof {
            use_type_invariant(self);
        }
        (self.size * self.size * 12) as u64
    }

    /// Size in bytes of the index storage: one 4-byte index per entry.
    pub fn index_buffer_size(&self) -> (r: u64)
        ensures
            r == index_count_spec(self.side()) * 4,
    {
        proof {
            use_type_invariant(self);
            lemma_index_count(self.size as int);
        }
        (self.index_count() * 4) as u64
    }

    /// The index sequence that draws the whole grid in one indexed draw call.
    pub fn strip_indices(&self) -> (r: Vec<u32>)
        ensures
            r@ == strip_index_seq(self.side()),
    {
        proof {
            use_type_invariant(self);
            lemma_index_count(self.size as int);
        }
        let n = self.size;
        let stride: usize = 2 * n + 1;
        let mut indices: Vec<u32> = Vec::with_capacity(self.index_count());
        let mut i: usize = 0;
        while i < n - 1
            invariant
                grid_fits(n as int),
                stride == row_stride(n as int),
                i <= n - 1,
                indices@.len() + (if i == n - 1 { 1int } else { 0 }) == i * stride,
                forall|k: int|
                    0 <= k < indices@.len() ==> indices@[k] as int == strip_index_at(n as int, k),
            decreases n - 1 - i,
        {
            let mut step: usize = 0;
            while step < n
                invariant
                    grid_fits(n as int),
                    stride == row_stride(n as int),
                    i < n - 1,
                    step <= n,
                    indices@.len() == i * stride + 2 * step,
                    forall|k: int|
                        0 <= k < indices@.len() ==> indices@[k] as int == strip_index_at(
                            n as int,
                            k,
                        ),
                decreases n - step,
            {
                proof {
                    lemma_vertex_in_range(n as int, i as int, step as int);
                    lemma_vertex_in_range(n as int, i + 1, step as int);
                    lemma_vertex_in_range(n as int, i as int, n - 1 - step);
                    lemma_vertex_in_range(n as int, i + 1, n - 1 - step);
                    lemma_row_position(n as int, i as int, 2 * step);
                    lemma_row_position(n as int, i as int, 2 * step + 1);
                }
                let (first, second) = if i % 2 == 0 {
                    ((i + 1) * n + step, i * n + step)
                } else {
                    let col = n - 1 - step;
                    (i * n + col, (i + 1) * n + col)
                };
                indices.push(first as u32);
                indices.push(second as u32);
                step += 1;
            }
            if i < n - 2 {
                proof {
                    lemma_row_position(n as int, i as int, 2 * n);
                }
                indices.push(RESTART_INDEX);
            }
            proof {
                assert((i + 1) * stride == i * stride + stride) by (nonlinear_arith);
            }
            i += 1;
        }
        assert(indices@ =~= strip_index_seq(n as int));
        indices
    }
}

} // verus!
