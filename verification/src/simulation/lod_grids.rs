use vstd::prelude::*;

verus! {

/// Number of levels of detail.
pub const NO_OF_LODS: usize = 4;

/// Bytes of one grid cell (a 32-bit float).
pub const CELL_BYTES: u64 = 4;

/// One level of the pyramid: `resolution` cells per side, each `cell_size`
/// world units wide, stored in a buffer of `buffer_size` bytes.
#[derive(Clone, Copy, PartialEq, Eq, Structural, Debug)]
pub struct Grid {
    pub resolution: u32,
    pub cell_size: u32,
    pub buffer_size: u64,
}

/// The four levels, from the finest to the coarsest.
#[derive(Clone, Copy, Debug)]
pub struct LodPyramid {
    pub lods: [Grid; NO_OF_LODS],
}

/// Level `i` of a pyramid over a `grid_size`-cell grid of cells `cell_size`
/// wide: the resolution halves (rounding down) and the cell size doubles
/// (as a `u32`, dropping bits shifted out) from level to level.
pub open spec fn lod_level(grid_size: u32, cell_size: u32, i: int) -> Grid {
    let res = grid_size >> (i as u32);
    Grid {
        resolution: res,
        cell_size: cell_size << (i as u32),
        buffer_size: (res * res * res * CELL_BYTES) as u64,
    }
}

impl LodPyramid {
    /// Plans the four levels of a pyramid whose finest level has `grid_size`
    /// cells per side.
    pub fn new(grid_size: u32, cell_size: u32) -> (p: LodPyramid)
        requires
            grid_size * grid_size * grid_size * CELL_BYTES <= u64::MAX,
        ensures
            forall|i: int| 0 <= i < NO_OF_LODS ==> #[trigger] p.lods[i] == lod_level(grid_size, cell_size, i),
    {
        let g0 = Self::level(grid_size, cell_size, 0);
        let g1 = Self::level(grid_size, cell_size, 1);
        let g2 = Self::level(grid_size, cell_size, 2);
        let g3 = Self::level(grid_size, cell_size, 3);
        let p = LodPyramid { lods: [g0, g1, g2, g3] };
        assert(p.lods@ =~= seq![g0, g1, g2, g3]);
        p
    }

    fn level(grid_size: u32, cell_size: u32, i: u32) -> (g: Grid)
        requires
            i < 4,
            grid_size * grid_size * grid_size * CELL_BYTES <= u64::MAX,
        ensures
            g == lod_level(grid_size, cell_size, i as int),
    {
        let res: u32 = grid_size >> i;
        let cell_size_i: u32 = cell_size << i;
        proof {
            assert(res <= grid_size) by (bit_vector)
                requires res == grid_size >> i;
            assert(res * res * res * 4 <= grid_size * grid_size * grid_size * 4) by (nonlinear_arith)
                requires res <= grid_size;
        }
        let r: u64 = res as u64;
        proof {
            assert(r * r <= r * r * r * 4 && r * r * r <= r * r * r * 4) by (nonlinear_arith)
                requires r >= 0;
        }
        Grid { resolution: res, cell_size: cell_size_i, buffer_size: (r * r * r) * CELL_BYTES }
    }
}

/// Each level has half the resolution of the one below it (rounding down).
pub proof fn lemma_resolution_halves(grid_size: u32, cell_size: u32, i: int)
    requires
        0 <= i < NO_OF_LODS - 1,
    ensures
        lod_level(grid_size, cell_size, i + 1).resolution == lod_level(grid_size, cell_size, i).resolution / 2,
{
    let k = i as u32;
    assert((grid_size >> ((k + 1) as u32)) == (grid_size >> k) / 2) by (bit_vector)
        requires k < 3;
    assert(((i + 1) as u32) == ((k + 1) as u32));
}

/// When no bit is shifted out of the cell size, each level's cells are twice
/// as wide as the level below; and when the finest resolution is a multiple of
/// 8, every level spans the same width `grid_size * cell_size`.
pub proof fn lemma_levels_span_same_extent(grid_size: u32, cell_size: u32, i: int)
    requires
        0 <= i < NO_OF_LODS,
        cell_size * 8 <= u32::MAX,
    ensures
        i + 1 < NO_OF_LODS ==> lod_level(grid_size, cell_size, i + 1).cell_size == 2 * lod_level(
            grid_size,
            cell_size,
            i,
        ).cell_size,
        grid_size % 8 == 0 ==> lod_level(grid_size, cell_size, i).resolution * lod_level(
            grid_size,
            cell_size,
            i,
        ).cell_size == grid_size * cell_size,
{
    let k = i as u32;
    assert(k < 3 ==> (cell_size << ((k + 1) as u32)) == 2 * (cell_size << k)) by (bit_vector)
        requires cell_size * 8 <= 0xffff_ffffu32;
    let g = grid_size;
    let c = cell_size;
    assert((g >> 0u32) == g / 1 && (g >> 1u32) == g / 2 && (g >> 2u32) == g / 4 && (g >> 3u32) == g / 8)
        by (bit_vector);
    assert((c << 0u32) == c * 1 && (c << 1u32) == c * 2 && (c << 2u32) == c * 4 && (c << 3u32) == c * 8)
        by (bit_vector)
        requires c * 8 <= 0xffff_ffffu32;
    if g % 8 == 0 {
        assert((g / 1) * (c * 1) == g * c && (g / 2) * (c * 2) == g * c && (g / 4) * (c * 4) == g * c
            && (g / 8) * (c * 8) == g * c) by (nonlinear_arith)
            requires g % 8 == 0;
    }
    assert(k == 0 || k == 1 || k == 2 || k == 3);
    assert(((i + 1) as u32) == ((k + 1) as u32));
}

/// Level `i` on the numbers: `grid_size` divided by `2^i` (rounding down)
/// cells per side, cells `cell_size * 2^i` wide (modulo `2^32`, as a `u32`),
/// and `4` bytes per cell of the `res^3` cells; level 0 is the grid itself.
pub proof fn lemma_level_on_numbers(grid_size: u32, cell_size: u32, i: int)
    requires
        0 <= i < NO_OF_LODS,
        grid_size * grid_size * grid_size * CELL_BYTES <= u64::MAX,
    ensures
        ({
            let d: int = if i == 0 { 1 } else if i == 1 { 2 } else if i == 2 { 4 } else { 8 };
            let l = lod_level(grid_size, cell_size, i);
            &&& l.resolution == grid_size as int / d
            &&& l.cell_size == (cell_size * d) % 0x1_0000_0000
            &&& l.buffer_size == l.resolution * l.resolution * l.resolution * 4
        }),
        lod_level(grid_size, cell_size, 0) == (Grid {
            resolution: grid_size,
            cell_size,
            buffer_size: (grid_size * grid_size * grid_size * 4) as u64,
        }),
{
    let g = grid_size;
    let c = cell_size;
    assert((g >> 0u32) == g / 1 && (g >> 1u32) == g / 2 && (g >> 2u32) == g / 4 && (g >> 3u32) == g / 8)
        by (bit_vector);
    assert((c << 0u32) == (c * 1) % 0x1_0000_0000 && (c << 1u32) == (c * 2) % 0x1_0000_0000 && (c << 2u32) == (c
        * 4) % 0x1_0000_0000 && (c << 3u32) == (c * 8) % 0x1_0000_0000) by (bit_vector);
    let k = i as u32;
    assert(k == 0 || k == 1 || k == 2 || k == 3);
    let res = g >> k;
    assert(res <= g) by (bit_vector)
        requires res == g >> k;
    assert(res * res * res * 4 <= g * g * g * 4) by (nonlinear_arith)
        requires res <= g;
}

} // verus!
