use fluid_sim::color::Color565;
use fluid_sim::grid::{
    idx, Grid, GRID_HEIGHT, GRID_HEIGHT_WITH_BOUNDARY, GRID_WIDTH, GRID_WIDTH_WITH_BOUNDARY,
    GRID_WITH_BOUNDARY_SIZE, ZERO_VEL,
};

const N: usize = GRID_WITH_BOUNDARY_SIZE;
const VEL_MAX: f32 = 10.0;

// The float codec of the simulation, as the running program has it.
fn enc_vel(v: f32) -> u16 {
    let norm = (v / VEL_MAX).clamp(-1.0, 1.0);
    (norm * 32767.0 + 32768.5) as u16
}

fn dec_vel(raw: u16) -> f32 {
    (raw as f32 - 32768.0) / 32767.0 * VEL_MAX
}

fn dec_dye(raw: u16) -> f32 {
    raw as f32 * (1.0 / 65535.0)
}

fn float_color(r: u16, g: u16, b: u16) -> u16 {
    let ri = (dec_dye(r) * 31.0 + 0.5) as u16;
    let gi = (dec_dye(g) * 63.0 + 0.5) as u16;
    let bi = (dec_dye(b) * 31.0 + 0.5) as u16;
    (ri << 11) | (gi << 5) | bi
}

// The velocity boundary computed through the float codec.
fn float_bnd_vel(b: i32, field: &mut [u16; N]) {
    let gw = GRID_WIDTH as usize;
    let gh = GRID_HEIGHT as usize;
    for y in 1..=gh {
        let inner_l = dec_vel(field[idx(1, y)]);
        let inner_r = dec_vel(field[idx(gw, y)]);
        field[idx(0, y)] = enc_vel(if b == 1 { -inner_l } else { inner_l });
        field[idx(gw + 1, y)] = enc_vel(if b == 1 { -inner_r } else { inner_r });
    }
    for x in 1..=gw {
        let inner_t = dec_vel(field[idx(x, 1)]);
        let inner_b = dec_vel(field[idx(x, gh)]);
        field[idx(x, 0)] = enc_vel(if b == 2 { -inner_t } else { inner_t });
        field[idx(x, gh + 1)] = enc_vel(if b == 2 { -inner_b } else { inner_b });
    }
    field[idx(0, 0)] = enc_vel(0.5 * (dec_vel(field[idx(1, 0)]) + dec_vel(field[idx(0, 1)])));
    field[idx(gw + 1, 0)] =
        enc_vel(0.5 * (dec_vel(field[idx(gw, 0)]) + dec_vel(field[idx(gw, 1)])));
    field[idx(0, gh + 1)] =
        enc_vel(0.5 * (dec_vel(field[idx(1, gh + 1)]) + dec_vel(field[idx(0, gh)])));
    field[idx(gw + 1, gh + 1)] =
        enc_vel(0.5 * (dec_vel(field[idx(gw, gh + 1)]) + dec_vel(field[idx(gw, gh)])));
}

struct Lcg(u64);

impl Lcg {
    fn next(&mut self) -> u16 {
        self.0 = self.0.wrapping_mul(6364136223846793005).wrapping_add(1442695040888963407);
        (self.0 >> 33) as u16
    }
}

fn random_field(seed: u64) -> [u16; N] {
    let mut rng = Lcg(seed);
    let mut f = [0u16; N];
    for i in 0..N {
        let v = rng.next();
        // Leave some zero codes and some extremes in.
        f[i] = match v % 16 {
            0 => 0,
            1 => 65535,
            2 => 1,
            _ => v,
        };
    }
    f
}

#[test]
fn idx_is_row_major() {
    assert_eq!(idx(0, 0), 0);
    assert_eq!(idx(3, 2), 87);
    assert_eq!(idx(41, 31), N - 1);
    assert_eq!(GRID_WIDTH_WITH_BOUNDARY, GRID_WIDTH as usize + 2);
    assert_eq!(GRID_HEIGHT_WITH_BOUNDARY, GRID_HEIGHT as usize + 2);
    assert_eq!(N, GRID_WIDTH_WITH_BOUNDARY * GRID_HEIGHT_WITH_BOUNDARY);
}

#[test]
fn idx_covers_field_once() {
    let mut seen = vec![false; N];
    for y in 0..GRID_HEIGHT_WITH_BOUNDARY {
        for x in 0..GRID_WIDTH_WITH_BOUNDARY {
            let i = idx(x, y);
            assert!(i < N);
            assert!(!seen[i]);
            seen[i] = true;
        }
    }
}

#[test]
fn new_grid_is_at_rest() {
    let grid = Grid::new();
    for i in 0..N {
        assert_eq!(grid.u[i], ZERO_VEL);
        assert_eq!(grid.v[i], ZERO_VEL);
        assert_eq!(grid.r[i], 0);
        assert_eq!(grid.g[i], 0);
        assert_eq!(grid.b[i], 0);
        assert_eq!(grid.scratch_u[i], ZERO_VEL);
        assert_eq!(grid.scratch_b[i], 0);
        assert_eq!(grid.get_color(i), Color565::from_raw(0));
    }
}

#[test]
fn snapshot_copies_live_fields() {
    let mut grid = Grid::new();
    grid.u = random_field(1);
    grid.v = random_field(2);
    grid.r = random_field(3);
    grid.g = random_field(4);
    grid.b = random_field(5);
    grid.snapshot();
    assert_eq!(grid.scratch_u, random_field(1));
    assert_eq!(grid.scratch_v, random_field(2));
    assert_eq!(grid.scratch_r, random_field(3));
    assert_eq!(grid.scratch_g, random_field(4));
    assert_eq!(grid.scratch_b, random_field(5));
    assert_eq!(grid.u, random_field(1));
}

#[test]
fn get_color_matches_float_conversion_for_every_level() {
    let mut grid = Grid::new();
    for raw in 0..=65535u32 {
        let raw = raw as u16;
        grid.r[5] = raw;
        grid.g[5] = raw;
        grid.b[5] = 65535 - raw;
        assert_eq!(grid.get_color(5).value, float_color(raw, raw, 65535 - raw), "raw {}", raw);
    }
}

#[test]
fn get_color_extremes() {
    let mut grid = Grid::new();
    grid.r[7] = 65535;
    grid.g[7] = 65535;
    grid.b[7] = 65535;
    assert_eq!(grid.get_color(7).value, 0xFFFF);
    grid.g[7] = 0;
    grid.b[7] = 0;
    assert_eq!(grid.get_color(7).value, 0xF800);
    grid.r[7] = 0;
    grid.g[7] = 32768;
    assert_eq!(grid.get_color(7).value, 32 << 5);
}

#[test]
fn bnd_copy_takes_nearest_simulated_cell() {
    let f = random_field(11);
    let mut g = f;
    Grid::bnd_copy_u16(&mut g);
    for y in 0..GRID_HEIGHT_WITH_BOUNDARY {
        for x in 0..GRID_WIDTH_WITH_BOUNDARY {
            let nx = x.clamp(1, GRID_WIDTH as usize);
            let ny = y.clamp(1, GRID_HEIGHT as usize);
            assert_eq!(g[idx(x, y)], f[idx(nx, ny)]);
        }
    }
}

#[test]
fn bnd_copy_is_idempotent() {
    let mut g = random_field(12);
    Grid::bnd_copy_u16(&mut g);
    let once = g;
    Grid::bnd_copy_u16(&mut g);
    assert_eq!(g, once);
}

#[test]
fn bnd_vel_matches_float_codec() {
    for seed in 0..40u64 {
        for b in 0..4i32 {
            let mut f = random_field(100 + seed);
            if seed % 2 == 0 {
                // Make every corner see codes that read back out of range.
                f[idx(1, 1)] = 0;
                f[idx(GRID_WIDTH as usize, 1)] = 0;
                f[idx(1, GRID_HEIGHT as usize)] = 0;
                f[idx(GRID_WIDTH as usize, GRID_HEIGHT as usize)] = 0;
            }
            let mut expected = f;
            float_bnd_vel(b, &mut expected);
            let mut got = f;
            Grid::bnd_vel_u16(b, &mut got);
            assert_eq!(got, expected, "seed {} b {}", seed, b);
        }
    }
}

#[test]
fn bnd_vel_negates_u_at_side_walls() {
    let mut f = [ZERO_VEL; N];
    f[idx(1, 4)] = ZERO_VEL + 1000;
    f[idx(40, 4)] = ZERO_VEL - 7;
    f[idx(5, 1)] = ZERO_VEL + 3;
    Grid::bnd_vel_u16(1, &mut f);
    assert_eq!(f[idx(0, 4)], ZERO_VEL - 1000);
    assert_eq!(f[idx(41, 4)], ZERO_VEL + 7);
    assert_eq!(f[idx(5, 0)], ZERO_VEL + 3);
    assert_eq!(f[idx(1, 4)], ZERO_VEL + 1000);
}

#[test]
fn bnd_vel_negates_v_at_top_and_bottom() {
    let mut f = [ZERO_VEL; N];
    f[idx(5, 1)] = ZERO_VEL + 3;
    f[idx(5, 30)] = 0;
    f[idx(1, 4)] = ZERO_VEL + 1000;
    Grid::bnd_vel_u16(2, &mut f);
    assert_eq!(f[idx(5, 0)], ZERO_VEL - 3);
    assert_eq!(f[idx(5, 31)], 65535);
    assert_eq!(f[idx(0, 4)], ZERO_VEL + 1000);
}

#[test]
fn bnd_vel_corners() {
    let mut f = [ZERO_VEL; N];
    f[idx(1, 1)] = 40000;
    f[idx(40, 1)] = 50000;
    f[idx(1, 30)] = 0;
    f[idx(40, 30)] = 20000;
    let mut side = f;
    Grid::bnd_vel_u16(1, &mut side);
    assert_eq!(side[idx(0, 0)], ZERO_VEL);
    assert_eq!(side[idx(41, 0)], 50000);
    assert_eq!(side[idx(0, 31)], ZERO_VEL);
    assert_eq!(side[idx(41, 31)], 20000);
    let mut top = f;
    Grid::bnd_vel_u16(2, &mut top);
    assert_eq!(top[idx(0, 0)], ZERO_VEL);
    assert_eq!(top[idx(41, 0)], ZERO_VEL);
    assert_eq!(top[idx(0, 31)], ZERO_VEL);
    assert_eq!(top[idx(41, 31)], ZERO_VEL);
    let mut copy = f;
    Grid::bnd_vel_u16(0, &mut copy);
    assert_eq!(copy[idx(0, 0)], 40000);
    assert_eq!(copy[idx(0, 31)], 1);
    assert_eq!(copy[idx(41, 31)], 20000);
}

#[test]
fn bnd_vel_is_idempotent() {
    for b in 0..3i32 {
        let mut g = random_field(21 + b as u64);
        Grid::bnd_vel_u16(b, &mut g);
        let once = g;
        Grid::bnd_vel_u16(b, &mut g);
        assert_eq!(g, once);
    }
}

#[test]
fn bnd_vel_keeps_rest() {
    for b in 0..3i32 {
        let mut g = [ZERO_VEL; N];
        Grid::bnd_vel_u16(b, &mut g);
        assert_eq!(g, [ZERO_VEL; N]);
    }
}

#[test]
fn bnd_vel_no_flow_through_reflecting_walls() {
    let f = random_field(31);
    let mut g = f;
    Grid::bnd_vel_u16(1, &mut g);
    for y in 1..=GRID_HEIGHT as usize {
        let a = dec_vel(g[idx(0, y)]) + dec_vel(g[idx(1, y)]);
        assert!(a.abs() < 1e-3 || g[idx(1, y)] == 0);
        let wall = g[idx(0, y)] as u32 + g[idx(1, y)].max(1) as u32;
        assert_eq!(wall, 65536);
    }
}

#[test]
fn wall_codes_match_float_codec_for_every_code() {
    let mut side = [ZERO_VEL; N];
    let mut copy = [ZERO_VEL; N];
    for raw in 0..=65535u32 {
        let raw = raw as u16;
        side[idx(1, 5)] = raw;
        copy[idx(1, 5)] = raw;
        Grid::bnd_vel_u16(1, &mut side);
        Grid::bnd_vel_u16(0, &mut copy);
        assert_eq!(side[idx(0, 5)], enc_vel(-dec_vel(raw)), "raw {}", raw);
        assert_eq!(copy[idx(0, 5)], enc_vel(dec_vel(raw)), "raw {}", raw);
    }
}

#[test]
fn reflecting_twice_restores_velocity() {
    for raw in [1u16, 2, 1000, ZERO_VEL, 40000, 65535] {
        let mut f = [ZERO_VEL; N];
        f[idx(1, 7)] = raw;
        Grid::bnd_vel_u16(1, &mut f);
        let mut g = [ZERO_VEL; N];
        g[idx(1, 7)] = f[idx(0, 7)];
        Grid::bnd_vel_u16(1, &mut g);
        assert_eq!(g[idx(0, 7)], raw);
    }
}

#[test]
fn apply_boundary_on_f32_fields() {
    let mut f = [0.0f32; N];
    for y in 1..=GRID_HEIGHT as usize {
        for x in 1..=GRID_WIDTH as usize {
            f[idx(x, y)] = (x * 100 + y) as f32;
        }
    }
    let mut g = f;
    Grid::apply_boundary(2, &mut g, |negate: bool, v: f32| if negate { -v } else { v }, |p: f32, q: f32| {
        0.5 * (p + q)
    });
    assert_eq!(g[idx(0, 3)], 103.0);
    assert_eq!(g[idx(41, 3)], 4003.0);
    assert_eq!(g[idx(7, 0)], -701.0);
    assert_eq!(g[idx(7, 31)], -730.0);
    assert_eq!(g[idx(0, 0)], 0.5 * (-101.0 + 101.0));
    assert_eq!(g[idx(41, 0)], 0.5 * (-4001.0 + 4001.0));
    assert_eq!(g[idx(0, 31)], 0.5 * (-130.0 + 130.0));
    assert_eq!(g[idx(41, 31)], 0.5 * (-4030.0 + 4030.0));
    assert_eq!(g[idx(9, 9)], 909.0);
}
