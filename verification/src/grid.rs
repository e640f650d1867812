use vstd::prelude::*;

use crate::color::{rgb565, Color565};

verus! {

/// Number of simulated columns.
pub const GRID_WIDTH: i32 = 40;
/// Number of simulated rows.
pub const GRID_HEIGHT: i32 = 30;
/// Columns including the one-cell boundary on each side.
pub const GRID_WIDTH_WITH_BOUNDARY: usize = 42;
/// Rows including the one-cell boundary on each side.
pub const GRID_HEIGHT_WITH_BOUNDARY: usize = 32;
/// Cells in a field, boundary included.
pub const GRID_WITH_BOUNDARY_SIZE: usize = 1344;

/// The encoding of a zero velocity (the bias of the signed fixed-point format).
pub const ZERO_VEL: u16 = 0x8000;

/// The flat position of cell `(x, y)`: rows are stored one after another.
pub open spec fn cell(x: int, y: int) -> int {
    x + GRID_WIDTH_WITH_BOUNDARY * y
}

/// `(x, y)` lies in a field, boundary included.
pub open spec fn on_grid(x: int, y: int) -> bool {
    0 <= x < GRID_WIDTH_WITH_BOUNDARY && 0 <= y < GRID_HEIGHT_WITH_BOUNDARY
}

/// `(x, y)` is a simulated cell, not a boundary one.
pub open spec fn interior(x: int, y: int) -> bool {
    1 <= x <= GRID_WIDTH && 1 <= y <= GRID_HEIGHT
}

/// The nearest value to `v` in `1..=hi`.
pub open spec fn nearest(v: int, hi: int) -> int {
    if v < 1 {
        1
    } else if v > hi {
        hi
    } else {
        v
    }
}

/// Index of cell `(x, y)` in a field.
pub fn idx(x: usize, y: usize) -> (i: usize)
    requires
        x + GRID_WIDTH_WITH_BOUNDARY * y <= usize::MAX,
    ensures
        i == cell(x as int, y as int),
{
    x + GRID_WIDTH_WITH_BOUNDARY * y
}

/// The simulation state: two velocity components and three dye channels,
/// each a field of `GRID_WITH_BOUNDARY_SIZE` cells, and scratch copies of them.
pub struct Grid {
    /// Velocity X - fixed-point, signed, bias 0x8000
    pub u: [u16; GRID_WITH_BOUNDARY_SIZE],
    /// Velocity Y - fixed-point, signed, bias 0x8000
    pub v: [u16; GRID_WITH_BOUNDARY_SIZE],
    /// Dye channels - linear u16 [0, 65535]
    pub r: [u16; GRID_WITH_BOUNDARY_SIZE],
    pub g: [u16; GRID_WITH_BOUNDARY_SIZE],
    pub b: [u16; GRID_WITH_BOUNDARY_SIZE],
    pub scratch_u: [u16; GRID_WITH_BOUNDARY_SIZE],
    pub scratch_v: [u16; GRID_WITH_BOUNDARY_SIZE],
    pub scratch_r: [u16; GRID_WITH_BOUNDARY_SIZE],
    pub scratch_g: [u16; GRID_WITH_BOUNDARY_SIZE],
    pub scratch_b: [u16; GRID_WITH_BOUNDARY_SIZE],
}

/// What the copy (zero-gradient) boundary leaves in cell `(x, y)` of a field
/// that held `f`: the value of the nearest simulated cell.
pub open spec fn copy_boundary(f: Seq<u16>, x: int, y: int) -> u16 {
    f[cell(nearest(x, GRID_WIDTH as int), nearest(y, GRID_HEIGHT as int))]
}

/// A velocity code brought into the representable range. Codes 1..=65535 stand
/// for velocities from the most negative to the most positive; code 0 lies just
/// below the range and reads back as 1.
pub open spec fn clip_vel(raw: u16) -> u16 {
    if raw == 0 {
        1
    } else {
        raw
    }
}

/// The code of the negated velocity: codes are symmetric about `ZERO_VEL`.
pub open spec fn reflect_vel(raw: u16) -> u16 {
    (0x10000 - clip_vel(raw)) as u16
}

/// The code written to a wall cell from its simulated neighbour `raw`:
/// the negated velocity where the wall reflects, the same velocity otherwise.
pub open spec fn wall_vel(negate: bool, raw: u16) -> u16 {
    if negate {
        reflect_vel(raw)
    } else {
        clip_vel(raw)
    }
}

/// The mean of two velocity codes, rounded half up and kept in the
/// representable range.
pub open spec fn mean_vel(a: u16, b: u16) -> u16 {
    let m = (a + b + 1) / 2;
    if m < 1 {
        1
    } else {
        m as u16
    }
}

/// What the velocity boundary writes to the wall (non-corner boundary) cell
/// `(x, y)` of a field that held `f`.
pub open spec fn vel_wall(b: i32, f: Seq<u16>, x: int, y: int) -> u16 {
    if 1 <= y <= GRID_HEIGHT {
        wall_vel(b == 1, f[cell(nearest(x, GRID_WIDTH as int), y)])
    } else {
        wall_vel(b == 2, f[cell(x, nearest(y, GRID_HEIGHT as int))])
    }
}

/// What the velocity boundary leaves in cell `(x, y)` of a field that held `f`:
/// `b == 1` negates across the left and right walls, `b == 2` across the top and
/// bottom walls, other walls copy; each corner is the mean of two cells next to
/// it, as they stand once the walls are written.
pub open spec fn vel_boundary(b: i32, f: Seq<u16>, x: int, y: int) -> u16 {
    let w = GRID_WIDTH as int;
    let h = GRID_HEIGHT as int;
    if interior(x, y) {
        f[cell(x, y)]
    } else if (1 <= y <= h) || (1 <= x <= w) {
        vel_wall(b, f, x, y)
    } else if x == 0 && y == 0 {
        mean_vel(vel_wall(b, f, 1, 0), vel_wall(b, f, 0, 1))
    } else if y == 0 {
        mean_vel(vel_wall(b, f, w, 0), f[cell(w, 1)])
    } else if x == 0 {
        mean_vel(vel_wall(b, f, 1, h + 1), vel_wall(b, f, 0, h))
    } else {
        mean_vel(vel_wall(b, f, w, h + 1), f[cell(w, h)])
    }
}

/// The code written to a wall cell from its simulated neighbour `raw`.
fn wall_vel_code(negate: bool, raw: u16) -> (c: u16)
    ensures
        c == wall_vel(negate, raw),
{
    let k = if raw == 0 {
        1
    } else {
        raw
    };
    if negate {
        (65536u32 - k as u32) as u16
    } else {
        k
    }
}

/// The code of the mean of two velocities.
fn mean_vel_code(a: u16, b: u16) -> (c: u16)
    ensures
        c == mean_vel(a, b),
{
    let m = (a as u32 + b as u32 + 1) / 2;
    if m < 1 {
        1
    } else {
        m as u16
    }
}

/// A dye wall copies its neighbour: dye is never negated.
fn keep_code(negate: bool, v: u16) -> (c: u16)
    ensures
        c == v,
{
    v
}

/// The mean of two dye amounts, rounded down.
fn half_sum_code(a: u16, b: u16) -> (c: u16)
    ensures
        c == (a + b) / 2,
{
    ((a as u32 + b as u32) / 2) as u16
}

/// The colour level of the dye amount `raw` (linear, 65535 is full):
/// `raw * max / 65535` rounded to the nearest integer, `max` being the top level.
pub open spec fn dye_level(raw: u16, max: int) -> int {
    (2 * raw * max + 65535) / 131070
}

/// The RGB565 code shown for the dye amounts `(r, g, b)`.
pub open spec fn dye_rgb565(r: u16, g: u16, b: u16) -> int {
    rgb565(dye_level(r, 31), dye_level(g, 63), dye_level(b, 31))
}

/// The dye amount `raw` as a colour level out of `max`, rounded to the nearest.
fn dye_level_code(raw: u16, max: u32) -> (l: u16)
    requires
        1 <= max <= 63,
    ensures
        l == dye_level(raw, max as int),
        l <= max,
{
    proof {
        assert(raw * 2 * max <= 65535 * 2 * 63) by (nonlinear_arith)
            requires
                raw <= 65535,
                max <= 63,
        ;
        assert((2 * raw * max + 65535) / 131070 <= max) by (nonlinear_arith)
            requires
                raw <= 65535,
                1 <= max,
        ;
    }
    let n = raw as u32 * 2 * max + 65535;
    (n / 131070) as u16
}

/// Pack three dye amounts into the colour that shows them.
fn rgb_to_color565(r: u16, g: u16, b: u16) -> (c: Color565)
    ensures
        c.value == dye_rgb565(r, g, b),
{
    let ri = dye_level_code(r, 31);
    let gi = dye_level_code(g, 63);
    let bi = dye_level_code(b, 31);
    let value = (ri << 11u16) | (gi << 5u16) | bi;
    assert(value == ri * 2048 + gi * 32 + bi) by (bit_vector)
        requires
            ri <= 31,
            gi <= 63,
            bi <= 31,
            value == (ri << 11u16) | (gi << 5u16) | bi,
    ;
    Color565::from_raw(value)
}

/// Distinct cells of a field have distinct indices, all inside the field.
pub proof fn lemma_cell_one_to_one(x1: int, y1: int, x2: int, y2: int)
    requires
        on_grid(x1, y1),
        on_grid(x2, y2),
    ensures
        0 <= cell(x1, y1) < GRID_WITH_BOUNDARY_SIZE,
        cell(x1, y1) == cell(x2, y2) ==> x1 == x2 && y1 == y2,
{
}

/// The copy boundary is idempotent: applied to a field it has already been
/// applied to, it changes nothing.
pub proof fn lemma_copy_boundary_idempotent(f: Seq<u16>, g: Seq<u16>)
    requires
        f.len() == GRID_WITH_BOUNDARY_SIZE,
        g.len() == GRID_WITH_BOUNDARY_SIZE,
        forall|x: int, y: int| on_grid(x, y) ==> #[trigger] g[cell(x, y)] == copy_boundary(f, x, y),
    ensures
        forall|x: int, y: int| on_grid(x, y) ==> #[trigger] copy_boundary(g, x, y) == g[cell(x, y)],
{
    assert forall|x: int, y: int| on_grid(x, y) implies #[trigger] copy_boundary(g, x, y) == g[cell(
        x,
        y,
    )] by {
        let nx = nearest(x, GRID_WIDTH as int);
        let ny = nearest(y, GRID_HEIGHT as int);
        assert(g[cell(nx, ny)] == copy_boundary(f, nx, ny));
        assert(g[cell(x, y)] == copy_boundary(f, x, y));
    }
}

/// The copy boundary has zero gradient across the walls: every boundary cell
/// holds the same value as its nearest simulated cell.
pub proof fn lemma_copy_boundary_zero_gradient(f: Seq<u16>, x: int, y: int)
    requires
        on_grid(x, y),
    ensures
        copy_boundary(f, x, y) == copy_boundary(
            f,
            nearest(x, GRID_WIDTH as int),
            nearest(y, GRID_HEIGHT as int),
        ),
{
}

/// Negating a velocity twice gives it back, and zero is its own negation.
pub proof fn lemma_reflect_vel_involution(raw: u16)
    requires
        raw >= 1,
    ensures
        reflect_vel(reflect_vel(raw)) == raw,
        reflect_vel(ZERO_VEL) == ZERO_VEL,
{
}

/// The velocity boundary is idempotent: applied with the same `b` to a field
/// it has already been applied to, it changes nothing.
pub proof fn lemma_vel_boundary_idempotent(b: i32, f: Seq<u16>, g: Seq<u16>)
    requires
        f.len() == GRID_WITH_BOUNDARY_SIZE,
        g.len() == GRID_WITH_BOUNDARY_SIZE,
        forall|x: int, y: int| on_grid(x, y) ==> #[trigger] g[cell(x, y)] == vel_boundary(b, f, x, y),
    ensures
        forall|x: int, y: int| on_grid(x, y) ==> #[trigger] vel_boundary(b, g, x, y) == g[cell(x, y)],
{
    let w = GRID_WIDTH as int;
    let h = GRID_HEIGHT as int;
    assert forall|x: int, y: int| 1 <= x <= w && 1 <= y <= h implies #[trigger] g[cell(x, y)]
        == f[cell(x, y)] by {
        assert(g[cell(x, y)] == vel_boundary(b, f, x, y));
    }
    assert forall|x: int, y: int| on_grid(x, y) && !interior(x, y) && ((1 <= y <= h) || (1 <= x
        <= w)) implies #[trigger] vel_wall(b, g, x, y) == vel_wall(b, f, x, y) by {
        if 1 <= y <= h {
            assert(g[cell(nearest(x, w), y)] == f[cell(nearest(x, w), y)]);
        } else {
            assert(g[cell(x, nearest(y, h))] == f[cell(x, nearest(y, h))]);
        }
    }
    assert forall|x: int, y: int| on_grid(x, y) implies #[trigger] vel_boundary(b, g, x, y)
        == g[cell(x, y)] by {
        assert(g[cell(x, y)] == vel_boundary(b, f, x, y));
        assert(vel_wall(b, g, 1, 0) == vel_wall(b, f, 1, 0));
        assert(vel_wall(b, g, 0, 1) == vel_wall(b, f, 0, 1));
        assert(vel_wall(b, g, w, 0) == vel_wall(b, f, w, 0));
        assert(vel_wall(b, g, 1, h + 1) == vel_wall(b, f, 1, h + 1));
        assert(vel_wall(b, g, 0, h) == vel_wall(b, f, 0, h));
        assert(vel_wall(b, g, w, h + 1) == vel_wall(b, f, w, h + 1));
        assert(g[cell(w, 1)] == f[cell(w, 1)]);
        assert(g[cell(w, h)] == f[cell(w, h)]);
    }
}

/// What the velocity boundary writes, in plain arithmetic on the codes
/// (`0x8000` is zero velocity, codes are symmetric about it, code 0 counts as
/// code 1): a reflecting wall holds the mirror image of its neighbour about
/// `0x8000`, a copying wall its neighbour; the corners next to a reflecting
/// wall hold zero velocity, except the right-hand corners when only the side
/// walls reflect, which copy the simulated corner cell.
pub proof fn lemma_vel_boundary_values(b: i32, f: Seq<u16>, x: int, y: int)
    requires
        f.len() == GRID_WITH_BOUNDARY_SIZE,
        on_grid(x, y),
    ensures
        1 <= y <= 30 && (x == 0 || x == 41) ==> {
            let n = if x == 0 { f[cell(1, y)] } else { f[cell(40, y)] };
            let m: int = if n == 0 { 1 } else { n as int };
            &&& b == 1 ==> vel_boundary(b, f, x, y) as int == 0x10000 - m
            &&& b != 1 ==> vel_boundary(b, f, x, y) as int == m
        },
        1 <= x <= 40 && (y == 0 || y == 31) ==> {
            let n = if y == 0 { f[cell(x, 1)] } else { f[cell(x, 30)] };
            let m: int = if n == 0 { 1 } else { n as int };
            &&& b == 2 ==> vel_boundary(b, f, x, y) as int == 0x10000 - m
            &&& b != 2 ==> vel_boundary(b, f, x, y) as int == m
        },
        (x == 0 || x == 41) && (y == 0 || y == 31) ==> {
            let n = f[cell(if x == 0 { 1 } else { 40 }, if y == 0 { 1 } else { 30 })];
            let m: int = if n == 0 { 1 } else { n as int };
            &&& b == 2 ==> vel_boundary(b, f, x, y) == 0x8000
            &&& b == 1 && x == 0 ==> vel_boundary(b, f, x, y) == 0x8000
            &&& b == 1 && x == 41 ==> vel_boundary(b, f, x, y) as int == m
            &&& b != 1 && b != 2 ==> vel_boundary(b, f, x, y) as int == m
        },
{
}

/// A field at rest stays at rest under the velocity boundary, whatever `b`.
pub proof fn lemma_vel_boundary_at_rest(b: i32, f: Seq<u16>)
    requires
        f.len() == GRID_WITH_BOUNDARY_SIZE,
        forall|x: int, y: int| on_grid(x, y) ==> #[trigger] f[cell(x, y)] == ZERO_VEL,
    ensures
        forall|x: int, y: int| on_grid(x, y) ==> #[trigger] vel_boundary(b, f, x, y) == ZERO_VEL,
{
    let w = GRID_WIDTH as int;
    let h = GRID_HEIGHT as int;
    assert forall|x: int, y: int| on_grid(x, y) implies #[trigger] vel_boundary(b, f, x, y)
        == ZERO_VEL by {
        assert(f[cell(nearest(x, w), nearest(y, h))] == ZERO_VEL);
        assert(f[cell(nearest(x, w), y)] == ZERO_VEL) by {
            if 1 <= y <= h {
                assert(on_grid(nearest(x, w), y));
            }
        }
        assert(f[cell(x, nearest(y, h))] == ZERO_VEL) by {
            if 1 <= x <= w {
                assert(on_grid(x, nearest(y, h)));
            }
        }
        assert(f[cell(1, 1)] == ZERO_VEL);
        assert(f[cell(w, 1)] == ZERO_VEL);
        assert(f[cell(1, h)] == ZERO_VEL);
        assert(f[cell(w, h)] == ZERO_VEL);
    }
}

/// Nothing flows through a reflecting wall: with `b == 1` the velocity across
/// the left and right walls, and with `b == 2` across the top and bottom walls,
/// averages to zero between a wall cell and the simulated cell next to it.
pub proof fn lemma_vel_boundary_no_flow_through_walls(b: i32, f: Seq<u16>, x: int, y: int)
    requires
        f.len() == GRID_WITH_BOUNDARY_SIZE,
    ensures
        b == 1 && 1 <= y <= GRID_HEIGHT && (x == 0 || x == GRID_WIDTH + 1) ==> mean_vel(
            vel_boundary(b, f, x, y),
            vel_boundary(b, f, nearest(x, GRID_WIDTH as int), y),
        ) == ZERO_VEL,
        b == 2 && 1 <= x <= GRID_WIDTH && (y == 0 || y == GRID_HEIGHT + 1) ==> mean_vel(
            vel_boundary(b, f, x, y),
            vel_boundary(b, f, x, nearest(y, GRID_HEIGHT as int)),
        ) == ZERO_VEL,
{
}

/// Dye levels run from black to the full level, more dye never shows darker,
/// and a level is the nearest one to `raw * max / 65535`.
pub proof fn lemma_dye_level_range(raw: u16, other: u16, max: int)
    requires
        1 <= max,
    ensures
        0 <= dye_level(raw, max) <= max,
        dye_level(0, max) == 0,
        dye_level(65535, max) == max,
        raw <= other ==> dye_level(raw, max) <= dye_level(other, max),
        -65535 < 2 * (dye_level(raw, max) * 65535 - raw * max) <= 65535,
{
    assert(-65535 < 2 * (dye_level(raw, max) * 65535 - raw * max) <= 65535) by (nonlinear_arith)
        requires
            1 <= max,
            0 <= raw,
    ;
    assert(0 <= dye_level(raw, max) <= max) by (nonlinear_arith)
        requires
            1 <= max,
            0 <= raw <= 65535,
    ;
    assert(dye_level(0, max) == 0) by (nonlinear_arith);
    assert(dye_level(65535, max) == max) by (nonlinear_arith)
        requires
            1 <= max,
    ;
    assert(raw <= other ==> dye_level(raw, max) <= dye_level(other, max)) by (nonlinear_arith)
        requires
            1 <= max,
            0 <= raw,
    ;
}

/// `(x, y)` is a wall cell: on the boundary, next to exactly one simulated cell.
pub open spec fn is_wall(x: int, y: int) -> bool {
    on_grid(x, y) && !interior(x, y) && ((1 <= y <= GRID_HEIGHT) || (1 <= x <= GRID_WIDTH))
}

/// Whether the boundary with flag `b` negates into the wall cell `(x, y)`:
/// `b == 1` at the left and right walls, `b == 2` at the top and bottom walls.
pub open spec fn negates(b: i32, x: int, y: int) -> bool {
    if 1 <= y <= GRID_HEIGHT {
        b == 1
    } else {
        b == 2
    }
}

/// Which walls negate: the left and right walls exactly when `b == 1`, the top
/// and bottom walls exactly when `b == 2`; and each wall cell is made from the
/// simulated cell next to it.
pub proof fn lemma_wall_negation(b: i32, x: int, y: int)
    requires
        is_wall(x, y),
    ensures
        x == 0 ==> negates(b, x, y) == (b == 1) && inner(x, y) == cell(1, y),
        x == GRID_WIDTH + 1 ==> negates(b, x, y) == (b == 1) && inner(x, y) == cell(
            GRID_WIDTH as int,
            y,
        ),
        y == 0 ==> negates(b, x, y) == (b == 2) && inner(x, y) == cell(x, 1),
        y == GRID_HEIGHT + 1 ==> negates(b, x, y) == (b == 2) && inner(x, y) == cell(
            x,
            GRID_HEIGHT as int,
        ),
{
}

/// The simulated cell whose value a boundary cell `(x, y)` is made from.
pub open spec fn inner(x: int, y: int) -> int {
    cell(nearest(x, GRID_WIDTH as int), nearest(y, GRID_HEIGHT as int))
}

impl Grid {
    /// Apply a boundary condition to a field of any cell type. Each wall cell
    /// becomes `wall(negate, v)` of its simulated neighbour `v`, `negate` being
    /// `negates(b, ..)`; then each corner becomes `mean` of two cells next to
    /// it: `(1, 0)` and `(0, 1)` for the top-left corner, `(W, 0)` and `(W, 1)`
    /// for the top-right, `(1, H + 1)` and `(0, H)` for the bottom-left,
    /// `(W, H + 1)` and `(W, H)` for the bottom-right. Simulated cells are
    /// unchanged.
    pub fn apply_boundary<T: Copy, FW: Fn(bool, T) -> T, FM: Fn(T, T) -> T>(
        b: i32,
        field: &mut [T; GRID_WITH_BOUNDARY_SIZE],
        wall: FW,
        mean: FM,
    )
        requires
            forall|n: bool, v: T| call_requires(wall, (n, v)),
            forall|p: T, q: T| call_requires(mean, (p, q)),
        ensures
            forall|x: int, y: int|
                on_grid(x, y) && interior(x, y) ==> #[trigger] final(field)@[cell(x, y)] == old(
                    field,
                )@[cell(x, y)],
            forall|x: int, y: int|
                is_wall(x, y) ==> call_ensures(
                    wall,
                    (negates(b, x, y), old(field)@[inner(x, y)]),
                    #[trigger] final(field)@[cell(x, y)],
                ),
            call_ensures(mean, (final(field)@[cell(1, 0)], final(field)@[cell(0, 1)]), final(field)@[cell(0, 0)]),
            call_ensures(mean, (final(field)@[cell(40, 0)], final(field)@[cell(40, 1)]), final(field)@[cell(41, 0)]),
            call_ensures(mean, (final(field)@[cell(1, 31)], final(field)@[cell(0, 30)]), final(field)@[cell(0, 31)]),
            call_ensures(mean, (final(field)@[cell(40, 31)], final(field)@[cell(40, 30)]), final(field)@[cell(41, 31)]),
            forall|y: int|
                1 <= y <= GRID_HEIGHT ==> call_ensures(
                    wall,
                    (b == 1, old(field)@[cell(1, y)]),
                    #[trigger] final(field)@[cell(0, y)],
                ) && call_ensures(
                    wall,
                    (b == 1, old(field)@[cell(GRID_WIDTH as int, y)]),
                    final(field)@[cell(GRID_WIDTH + 1, y)],
                ),
            forall|x: int|
                1 <= x <= GRID_WIDTH ==> call_ensures(
                    wall,
                    (b == 2, old(field)@[cell(x, 1)]),
                    #[trigger] final(field)@[cell(x, 0)],
                ) && call_ensures(
                    wall,
                    (b == 2, old(field)@[cell(x, GRID_HEIGHT as int)]),
                    final(field)@[cell(x, GRID_HEIGHT + 1)],
                ),
    {
        let gw = GRID_WIDTH as usize;
        let gh = GRID_HEIGHT as usize;
        let ghost f0 = field@;
        for y in 1..gh + 1
            invariant
                gw == 40,
                gh == 30,
                forall|n: bool, v: T| call_requires(wall, (n, v)),
                forall|x: int, y2: int|
                    on_grid(x, y2) && !((x == 0 || x == 41) && 1 <= y2 < y) ==> #[trigger] field@[cell(x, y2)] == f0[cell(x, y2)],
                forall|x: int, y2: int|
                    on_grid(x, y2) && (x == 0 || x == 41) && 1 <= y2 < y ==> call_ensures(
                        wall,
                        (negates(b, x, y2), f0[inner(x, y2)]),
                        #[trigger] field@[cell(x, y2)],
                    ),
        {
            let inner_l = field[idx(1, y)];
            let inner_r = field[idx(gw, y)];
            field[idx(0, y)] = wall(b == 1, inner_l);
            field[idx(gw + 1, y)] = wall(b == 1, inner_r);
        }
        for x in 1..gw + 1
            invariant
                gw == 40,
                gh == 30,
                forall|n: bool, v: T| call_requires(wall, (n, v)),
                forall|x2: int, y2: int|
                    on_grid(x2, y2) && !(((x2 == 0 || x2 == 41) && 1 <= y2 <= 30) || ((y2 == 0
                        || y2 == 31) && 1 <= x2 < x)) ==> #[trigger] field@[cell(x2, y2)] == f0[cell(x2, y2)],
                forall|x2: int, y2: int|
                    on_grid(x2, y2) && (((x2 == 0 || x2 == 41) && 1 <= y2 <= 30) || ((y2 == 0
                        || y2 == 31) && 1 <= x2 < x)) ==> call_ensures(
                        wall,
                        (negates(b, x2, y2), f0[inner(x2, y2)]),
                        #[trigger] field@[cell(x2, y2)],
                    ),
        {
            let inner_t = field[idx(x, 1)];
            let inner_b = field[idx(x, gh)];
            field[idx(x, 0)] = wall(b == 2, inner_t);
            field[idx(x, gh + 1)] = wall(b == 2, inner_b);
        }
        let ghost f1 = field@;
        field[idx(0, 0)] = mean(field[idx(1, 0)], field[idx(0, 1)]);
        field[idx(gw + 1, 0)] = mean(field[idx(gw, 0)], field[idx(gw, 1)]);
        field[idx(0, gh + 1)] = mean(field[idx(1, gh + 1)], field[idx(0, gh)]);
        field[idx(gw + 1, gh + 1)] = mean(field[idx(gw, gh + 1)], field[idx(gw, gh)]);
        assert forall|x: int, y: int| on_grid(x, y) && !((x == 0 || x == 41) && (y == 0 || y == 31)) implies #[trigger] field@[cell(x, y)] == f1[cell(x, y)] by {}
        assert forall|y: int| 1 <= y <= GRID_HEIGHT implies call_ensures(
            wall,
            (b == 1, f0[cell(1, y)]),
            #[trigger] field@[cell(0, y)],
        ) && call_ensures(wall, (b == 1, f0[cell(40, y)]), field@[cell(41, y)]) by {
            assert(f1[cell(0, y)] == field@[cell(0, y)]);
            assert(f1[cell(41, y)] == field@[cell(41, y)]);
            assert(on_grid(0, y) && on_grid(41, y));
        }
        assert forall|x: int| 1 <= x <= GRID_WIDTH implies call_ensures(
            wall,
            (b == 2, f0[cell(x, 1)]),
            #[trigger] field@[cell(x, 0)],
        ) && call_ensures(wall, (b == 2, f0[cell(x, 30)]), field@[cell(x, 31)]) by {
            assert(f1[cell(x, 0)] == field@[cell(x, 0)]);
            assert(f1[cell(x, 31)] == field@[cell(x, 31)]);
            assert(on_grid(x, 0) && on_grid(x, 31));
        }
    }
}

impl Grid {
    /// A grid at rest: zero velocity and no dye everywhere, scratch included.
    pub fn new() -> (grid: Self)
        ensures
            forall|i: int|
                0 <= i < GRID_WITH_BOUNDARY_SIZE ==> {
                    &&& #[trigger] grid.u@[i] == ZERO_VEL
                    &&& grid.v@[i] == ZERO_VEL
                    &&& grid.r@[i] == 0
                    &&& grid.g@[i] == 0
                    &&& grid.b@[i] == 0
                    &&& grid.scratch_u@[i] == ZERO_VEL
                    &&& grid.scratch_v@[i] == ZERO_VEL
                    &&& grid.scratch_r@[i] == 0
                    &&& grid.scratch_g@[i] == 0
                    &&& grid.scratch_b@[i] == 0
                },
    {
        Self {
            u: [ZERO_VEL; GRID_WITH_BOUNDARY_SIZE],
            v: [ZERO_VEL; GRID_WITH_BOUNDARY_SIZE],
            r: [0; GRID_WITH_BOUNDARY_SIZE],
            g: [0; GRID_WITH_BOUNDARY_SIZE],
            b: [0; GRID_WITH_BOUNDARY_SIZE],
            scratch_u: [ZERO_VEL; GRID_WITH_BOUNDARY_SIZE],
            scratch_v: [ZERO_VEL; GRID_WITH_BOUNDARY_SIZE],
            scratch_r: [0; GRID_WITH_BOUNDARY_SIZE],
            scratch_g: [0; GRID_WITH_BOUNDARY_SIZE],
            scratch_b: [0; GRID_WITH_BOUNDARY_SIZE],
        }
    }

    /// Copy the live fields into the scratch fields, which the advection pass
    /// reads from while it rewrites the live ones.
    pub fn snapshot(&mut self)
        ensures
            final(self).u@ == old(self).u@,
            final(self).v@ == old(self).v@,
            final(self).r@ == old(self).r@,
            final(self).g@ == old(self).g@,
            final(self).b@ == old(self).b@,
            final(self).scratch_u@ == old(self).u@,
            final(self).scratch_v@ == old(self).v@,
            final(self).scratch_r@ == old(self).r@,
            final(self).scratch_g@ == old(self).g@,
            final(self).scratch_b@ == old(self).b@,
    {
        self.scratch_u = self.u;
        self.scratch_v = self.v;
        self.scratch_r = self.r;
        self.scratch_g = self.g;
        self.scratch_b = self.b;
    }

    /// The display colour of field cell `i`: each dye channel scaled to its
    /// 5- or 6-bit colour level, rounded to the nearest.
    pub fn get_color(&self, i: usize) -> (c: Color565)
        requires
            i < GRID_WITH_BOUNDARY_SIZE,
        ensures
            c.value == dye_rgb565(self.r@[i as int], self.g@[i as int], self.b@[i as int]),
    {
        rgb_to_color565(self.r[i], self.g[i], self.b[i])
    }
    /// Apply the velocity boundary to a `u16` field: `b == 1` negates at the left
    /// and right walls (u component), `b == 2` at the top and bottom walls (v
    /// component), any other `b` copies; corners average two cells next to
    /// them. Simulated cells are unchanged.
    pub fn bnd_vel_u16(b: i32, field: &mut [u16; GRID_WITH_BOUNDARY_SIZE])
        ensures
            forall|x: int, y: int|
                on_grid(x, y) ==> #[trigger] final(field)@[cell(x, y)] == vel_boundary(
                    b,
                    old(field)@,
                    x,
                    y,
                ),
    {
        let ghost f0 = field@;
        Self::apply_boundary(b, field, wall_vel_code, mean_vel_code);
        proof {
            let f1 = field@;
            assert forall|x: int, y: int| is_wall(x, y) implies #[trigger] f1[cell(x, y)]
                == vel_wall(b, f0, x, y) by {
                assert(call_ensures(wall_vel_code, (negates(b, x, y), f0[inner(x, y)]), f1[cell(x, y)]));
            }
            assert(is_wall(1, 0) && is_wall(0, 1) && is_wall(40, 0) && is_wall(1, 31) && is_wall(0, 30) && is_wall(40, 31));
            assert(f1[cell(1, 0)] == vel_wall(b, f0, 1, 0));
            assert(f1[cell(0, 1)] == vel_wall(b, f0, 0, 1));
            assert(f1[cell(40, 0)] == vel_wall(b, f0, 40, 0));
            assert(f1[cell(1, 31)] == vel_wall(b, f0, 1, 31));
            assert(f1[cell(0, 30)] == vel_wall(b, f0, 0, 30));
            assert(f1[cell(40, 31)] == vel_wall(b, f0, 40, 31));
            assert(f1[cell(40, 1)] == f0[cell(40, 1)]);
            assert(f1[cell(40, 30)] == f0[cell(40, 30)]);
            assert forall|x: int, y: int| on_grid(x, y) implies #[trigger] f1[cell(x, y)]
                == vel_boundary(b, f0, x, y) by {
                if interior(x, y) {
                } else if is_wall(x, y) {
                } else {
                }
            }
        }
    }

    /// Apply the copy boundary to a `u16` dye field: every boundary cell takes
    /// the value of its nearest simulated cell; simulated cells are unchanged.
    pub fn bnd_copy_u16(field: &mut [u16; GRID_WITH_BOUNDARY_SIZE])
        ensures
            forall|x: int, y: int|
                on_grid(x, y) ==> #[trigger] final(field)@[cell(x, y)] == copy_boundary(
                    old(field)@,
                    x,
                    y,
                ),
    {
        let ghost f0 = field@;
        Self::apply_boundary(0, field, keep_code, half_sum_code);
        proof {
            let f1 = field@;
            assert forall|x: int, y: int| is_wall(x, y) implies #[trigger] f1[cell(x, y)]
                == f0[inner(x, y)] by {
                assert(call_ensures(keep_code, (negates(0, x, y), f0[inner(x, y)]), f1[cell(x, y)]));
            }
            assert(is_wall(1, 0) && is_wall(0, 1) && is_wall(40, 0) && is_wall(1, 31) && is_wall(0, 30) && is_wall(40, 31));
            assert(f1[cell(1, 0)] == f0[cell(1, 1)]);
            assert(f1[cell(0, 1)] == f0[cell(1, 1)]);
            assert(f1[cell(40, 0)] == f0[cell(40, 1)]);
            assert(f1[cell(1, 31)] == f0[cell(1, 30)]);
            assert(f1[cell(0, 30)] == f0[cell(1, 30)]);
            assert(f1[cell(40, 31)] == f0[cell(40, 30)]);
            assert(f1[cell(40, 1)] == f0[cell(40, 1)]);
            assert(f1[cell(40, 30)] == f0[cell(40, 30)]);
            assert forall|x: int, y: int| on_grid(x, y) implies #[trigger] f1[cell(x, y)]
                == copy_boundary(f0, x, y) by {
                if interior(x, y) {
                } else if is_wall(x, y) {
                } else {
                }
            }
        }
    }
}

} // verus!
