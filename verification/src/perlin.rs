//! The noise field: configuration, unit gradient vertices, grid
//! construction, cell location, corner dot products, eased-blend sampling,
//! and in-place rotation of every gradient.
//!
//! Gradient directions are whole degrees (a deliberate discretization of
//! the uniform angle: 360 directions, each an exact table entry), and all
//! coordinates and scalars are fixed-point integers in millionths.

use vstd::prelude::*;
use vstd::arithmetic::div_mod::lemma_div_is_ordered;
use vstd::arithmetic::div_mod::lemma_div_pos_is_pos;
use vstd::arithmetic::div_mod::lemma_fundamental_div_mod;
use vstd::arithmetic::div_mod::lemma_fundamental_div_mod_converse;
use vstd::arithmetic::div_mod::lemma_mod_bound;
use vstd::arithmetic::div_mod::lemma_div_multiples_vanish;
use crate::SCALE;
use crate::math::bilerp;
use crate::math::bilerp_spec;
use crate::math::div_floor_scale;
use crate::math::lemma_bilerp_spec_bounds;
use crate::math::lemma_lerp_spec_at_zero;
use crate::math::smoothstep;
use crate::math::smoothstep_spec;
use crate::math::smootherstep;
use crate::math::smootherstep_num;
use crate::math::smootherstep_spec;
use crate::trig::cos_deg;
use crate::trig::cos_sin_deg;
use crate::trig::sin_deg;

verus! {

/// Pixel-space dimensions of the field and the spacing of the gradient
/// grid. All three must be positive.
#[derive(Clone, Copy, Debug, PartialEq, Eq, Structural)]
pub struct PerlinConfig {
    pub cell_size: usize,
    pub grid_width: usize,
    pub grid_height: usize,
}

/// Rejected configuration: one of the dimensions is zero.
#[derive(Clone, Copy, Debug, PartialEq, Eq, Structural)]
pub struct ConfigError;

/// A sampling request that cannot be served.
#[derive(Clone, Copy, Debug, PartialEq, Eq, Structural)]
pub enum SampleError {
    /// The point lies outside `[0, width) x [0, height)`.
    OutOfBounds,
    /// Reserved for the optional denser sub-grid sampling mode: a derived
    /// magnitude exceeded its configured cap.
    RadiusOverflow,
}

/// Largest accepted pixel dimension: keeps every micro-pixel coordinate
/// and every product formed from it well inside `i64`.
pub const MAX_DIM: usize = 1_000_000;

/// Tolerance on the squared magnitude of a unit gradient: `1e-5` of
/// `SCALE` squared.
pub const UNIT_TOL: i64 = 10_000_000;

impl PerlinConfig {
    /// All dimensions positive: the invariant every constructed field
    /// relies on.
    pub open spec fn valid(self) -> bool {
        self.cell_size > 0 && self.grid_width > 0 && self.grid_height > 0
    }

    /// Within the machine bounds this crate accepts.
    pub open spec fn bounded(self) -> bool {
        self.cell_size <= MAX_DIM && self.grid_width <= MAX_DIM && self.grid_height <= MAX_DIM
    }

    /// A zero dimension is rejected, never defaulted: `Ok` exactly when
    /// every field is positive.
    pub fn validate(&self) -> (r: Result<(), ConfigError>)
        ensures
            r is Ok <==> self.valid(),
            !self.valid() ==> r == Result::<(), ConfigError>::Err(ConfigError),
    {
        if self.cell_size == 0 || self.grid_width == 0 || self.grid_height == 0 {
            Err(ConfigError)
        } else {
            Ok(())
        }
    }

    /// Number of cells spanning the width: `ceil(width / cell_size)`.
    pub open spec fn cells_x(self) -> int {
        (self.grid_width + self.cell_size - 1) as int / self.cell_size as int
    }

    /// Number of cells spanning the height: `ceil(height / cell_size)`.
    pub open spec fn cells_y(self) -> int {
        (self.grid_height + self.cell_size - 1) as int / self.cell_size as int
    }

    /// Cell counts in both directions, computed as ceiling divisions; one
    /// more vertex than cells lies along each axis.
    pub fn grid_cells(&self) -> (r: (usize, usize))
        requires
            self.valid(),
            self.bounded(),
        ensures
            r.0 as int == self.cells_x(),
            r.1 as int == self.cells_y(),
            1 <= r.0 <= MAX_DIM,
            1 <= r.1 <= MAX_DIM,
    {
        let cx: usize = (self.grid_width + self.cell_size - 1) / self.cell_size;
        let cy: usize = (self.grid_height + self.cell_size - 1) / self.cell_size;
        proof {
            assert(1 <= (self.grid_width + self.cell_size - 1) as int / self.cell_size as int
                <= 1_000_000) by (nonlinear_arith)
                requires
                    1 <= self.cell_size <= 1_000_000,
                    1 <= self.grid_width <= 1_000_000,
            ;
            assert(1 <= (self.grid_height + self.cell_size - 1) as int / self.cell_size as int
                <= 1_000_000) by (nonlinear_arith)
                requires
                    1 <= self.cell_size <= 1_000_000,
                    1 <= self.grid_height <= 1_000_000,
            ;
        }
        (cx, cy)
    }
}

/// The ceiling count along an axis is one more than the floor quotient of
/// `dim - 1`: the bridge between cell location and grid shape.
pub proof fn lemma_cells_count(cs: int, dim: int)
    requires
        1 <= cs,
        1 <= dim,
    ensures
        (dim + cs - 1) / cs == (dim - 1) / cs + 1,
{
    let q = (dim - 1) / cs;
    let r = (dim - 1) % cs;
    lemma_fundamental_div_mod(dim - 1, cs);
    lemma_mod_bound(dim - 1, cs);
    assert(dim + cs - 1 == (q + 1) * cs + r) by (nonlinear_arith)
        requires
            dim - 1 == cs * q + r,
    ;
    lemma_fundamental_div_mod_converse(dim + cs - 1, cs, q + 1, r);
}

/// The easing curve a field blends with, fixed once per field.
#[derive(Clone, Copy, Debug, PartialEq, Eq, Structural)]
pub enum Easing {
    SmoothStep,
    SmootherStep,
}

/// What the chosen easing curve evaluates to on `[0, SCALE]`.
pub open spec fn ease_spec(e: Easing, x: int) -> int {
    match e {
        Easing::SmoothStep => smoothstep_spec(x),
        Easing::SmootherStep => smootherstep_spec(x),
    }
}

/// Evaluate the chosen easing curve.
pub fn ease(e: Easing, x: i64) -> (r: i64)
    requires
        0 <= x <= SCALE,
    ensures
        r == ease_spec(e, x as int),
        0 <= r <= SCALE,
{
    match e {
        Easing::SmoothStep => smoothstep(x),
        Easing::SmootherStep => smootherstep(x),
    }
}

/// Either easing curve maps a zero weight to zero exactly.
pub proof fn lemma_ease_at_zero(e: Easing)
    ensures
        ease_spec(e, 0) == 0,
{
    assert(0int * 0 * (3_000_000 - 2 * 0) == 0) by (nonlinear_arith);
    assert(0int / 1_000_000_000_000 == 0) by (nonlinear_arith);
    assert(smoothstep_spec(0) == 0);
    assert(0int * 0 * 0 * (10_000_000_000_000 - 15_000_000 * 0 + 6 * 0 * 0) == 0) by (nonlinear_arith);
    assert(smootherstep_num(0) == 0);
    assert(0int / 1_000_000_000_000_000_000_000_000 == 0) by (nonlinear_arith);
    assert(smootherstep_spec(0) == 0);
}

/// Relies on rand's `Rng::random_range` over `0..360`: the sampled value
/// lies in the given range, so the angle is a whole degree below 360.
/// It is drawn from the thread-local generator; nothing more is promised
/// of which value comes back.
#[verifier::external_body]
pub fn random_angle() -> (a: u32)
    ensures
        a < 360,
{
    rand::Rng::random_range(&mut rand::rng(), 0..360u32)
}

/// Does a candidate component pair have squared magnitude within
/// `UNIT_TOL` of one?
pub open spec fn raw_unit_ok(c: int, s: int) -> bool {
    1_000_000_000_000 - UNIT_TOL <= c * c + s * s <= 1_000_000_000_000 + UNIT_TOL
}

/// The x component a grid angle maps to: the table cosine when the table
/// pair passes the magnitude check, the exact unit x axis otherwise.
pub open spec fn grad_x(a: int) -> int {
    if raw_unit_ok(cos_deg(a), sin_deg(a)) {
        cos_deg(a)
    } else {
        1_000_000
    }
}

/// The y component a grid angle maps to.
pub open spec fn grad_y(a: int) -> int {
    if raw_unit_ok(cos_deg(a), sin_deg(a)) {
        sin_deg(a)
    } else {
        0
    }
}

/// A grid vertex: its whole-degree angle and the fixed-point unit vector
/// pointing that way.
#[derive(Clone, Copy, Debug, PartialEq, Eq, Structural)]
pub struct Gradient {
    pub angle: u32,
    pub gx: i64,
    pub gy: i64,
}

impl Gradient {
    /// The vertex invariant: a whole-degree angle, components derived from
    /// it, and a squared magnitude within `1e-5` of one.
    pub open spec fn wf(self) -> bool {
        &&& self.angle < 360
        &&& self.gx == grad_x(self.angle as int)
        &&& self.gy == grad_y(self.angle as int)
        &&& -SCALE <= self.gx <= SCALE
        &&& -SCALE <= self.gy <= SCALE
        &&& 1_000_000_000_000 - UNIT_TOL <= self.gx * self.gx + self.gy * self.gy
        &&& self.gx * self.gx + self.gy * self.gy <= 1_000_000_000_000 + UNIT_TOL
    }
}

/// The unit gradient vector of a whole-degree angle: cosine and sine from
/// the table, guarded by a magnitude check with an exact-axis fallback.
pub fn unit_vector2(angle: u32) -> (g: Gradient)
    requires
        angle < 360,
    ensures
        g.wf(),
        g.angle == angle,
{
    let cs: (i64, i64) = cos_sin_deg(angle);
    let c: i64 = cs.0;
    let s: i64 = cs.1;
    proof {
        assert(0 <= c * c <= 1_000_000_000_000 && 0 <= s * s <= 1_000_000_000_000) by (nonlinear_arith)
            requires
                -1_000_000 <= c <= 1_000_000,
                -1_000_000 <= s <= 1_000_000,
        ;
    }
    let m: i64 = c * c + s * s;
    if 1_000_000_000_000 - UNIT_TOL <= m && m <= 1_000_000_000_000 + UNIT_TOL {
        Gradient { angle, gx: c, gy: s }
    } else {
        proof {
            assert(1_000_000int * 1_000_000 == 1_000_000_000_000) by (nonlinear_arith);
            assert(0int * 0 == 0) by (nonlinear_arith);
        }
        Gradient { angle, gx: SCALE, gy: 0 }
    }
}

/// The fixed-point dot product of a gradient with an offset vector, both
/// in millionths: `(gx ox + gy oy) / SCALE`, rounded down.
pub open spec fn dot_spec(g: Gradient, ox: int, oy: int) -> int {
    (g.gx * ox + g.gy * oy) / 1_000_000
}

/// Dot a unit gradient with a cell-relative offset; the result is bounded
/// by twice the scale.
pub fn dot_fp(g: &Gradient, ox: i64, oy: i64) -> (d: i64)
    requires
        g.wf(),
        -SCALE <= ox <= SCALE,
        -SCALE <= oy <= SCALE,
    ensures
        d == dot_spec(*g, ox as int, oy as int),
        -2_000_000 <= d <= 2_000_000,
{
    proof {
        assert(-1_000_000_000_000 <= g.gx * ox <= 1_000_000_000_000
            && -1_000_000_000_000 <= g.gy * oy <= 1_000_000_000_000) by (nonlinear_arith)
            requires
                -1_000_000 <= g.gx <= 1_000_000,
                -1_000_000 <= g.gy <= 1_000_000,
                -1_000_000 <= ox <= 1_000_000,
                -1_000_000 <= oy <= 1_000_000,
        ;
        lemma_div_is_ordered(-2_000_000_000_000, g.gx * ox + g.gy * oy, 1_000_000);
        lemma_div_is_ordered(g.gx * ox + g.gy * oy, 2_000_000_000_000, 1_000_000);
        lemma_div_multiples_vanish(-2_000_000, 1_000_000);
        lemma_div_multiples_vanish(2_000_000, 1_000_000);
    }
    div_floor_scale(g.gx * ox + g.gy * oy)
}

/// Locate a micro-pixel coordinate along one axis: the enclosing cell
/// index and the cell-relative coordinate in millionths.
pub fn locate_axis(pt: i64, cell_size: usize, dim: usize) -> (r: (usize, i64))
    requires
        1 <= cell_size <= MAX_DIM,
        1 <= dim <= MAX_DIM,
        0 <= pt < dim as int * 1_000_000,
    ensures
        r.0 as int == (pt as int / 1_000_000) / (cell_size as int),
        r.0 as int <= (dim - 1) as int / (cell_size as int),
        r.1 == (pt as int - r.0 as int * (cell_size as int) * 1_000_000) / (cell_size as int),
        0 <= r.1 < SCALE,
{
    let px: u64 = (pt as u64) / 1_000_000;
    proof {
        let d = dim as int;
        lemma_fundamental_div_mod_converse(d * 1_000_000 - 1, 1_000_000, d - 1, 999_999);
        lemma_div_is_ordered(pt as int, d * 1_000_000 - 1, 1_000_000);
        lemma_div_pos_is_pos(pt as int, 1_000_000);
    }
    let col: usize = (px as usize) / cell_size;
    proof {
        let csi = cell_size as int;
        let pxi = px as int;
        lemma_fundamental_div_mod(pxi, csi);
        lemma_mod_bound(pxi, csi);
        assert(csi * (pxi / csi) == (pxi / csi) * csi) by (nonlinear_arith);
        lemma_div_is_ordered(pxi, (dim - 1) as int, csi);
    }
    let origin: usize = col * cell_size;
    let origin_micro: i64 = (origin as i64) * 1_000_000;
    proof {
        let csi = cell_size as int;
        let pxi = px as int;
        let cc = col as int * csi;
        // pt sits within one cell span of its origin
        lemma_fundamental_div_mod(pt as int, 1_000_000);
        lemma_mod_bound(pt as int, 1_000_000);
        assert(pt as int - cc * 1_000_000 <= csi * 1_000_000 - 1) by (nonlinear_arith)
            requires
                pt as int == 1_000_000 * pxi + (pt as int) % 1_000_000,
                (pt as int) % 1_000_000 < 1_000_000,
                pxi - cc < csi,
        ;
        assert(pt as int - cc * 1_000_000 >= 0) by (nonlinear_arith)
            requires
                pt as int == 1_000_000 * pxi + (pt as int) % 1_000_000,
                (pt as int) % 1_000_000 >= 0,
                cc <= pxi,
        ;
        lemma_fundamental_div_mod_converse(csi * 1_000_000 - 1, csi, 999_999, csi - 1);
        lemma_div_is_ordered(pt as int - cc * 1_000_000, csi * 1_000_000 - 1, csi);
        lemma_div_pos_is_pos(pt as int - cc * 1_000_000, csi);
    }
    let rel: i64 = (((pt - origin_micro) as u64) / (cell_size as u64)) as i64;
    (col, rel)
}

/// The noise field: the gradient grid, its configuration, and the easing
/// policy fixed at construction.
#[derive(Debug)]
pub struct Perlin {
    pub grid: Vec<Vec<Gradient>>,
    pub config: PerlinConfig,
    pub easing: Easing,
}

/// An angle transform applied uniformly to the grid.
#[derive(Clone, Copy, Debug, PartialEq, Eq, Structural)]
pub enum Transform {
    /// Leave every angle as it is.
    Identity,
    /// Advance every angle by the given whole-degree rotation.
    RotateBy(u32),
}

/// The angle a transform sends a vertex angle to.
pub open spec fn apply_transform(t: Transform, a: int) -> int {
    match t {
        Transform::Identity => a,
        Transform::RotateBy(d) => (a + d) % 360,
    }
}

impl Perlin {
    /// Vertex rows: one more than the cell count down the height.
    pub open spec fn rows(self) -> int {
        self.config.cells_y() + 1
    }

    /// Vertex columns: one more than the cell count across the width.
    pub open spec fn cols(self) -> int {
        self.config.cells_x() + 1
    }

    /// The field invariant: a valid bounded configuration and a fully
    /// populated grid of well-formed unit gradients.
    pub open spec fn wf(self) -> bool {
        &&& self.config.valid()
        &&& self.config.bounded()
        &&& self.grid@.len() == self.rows()
        &&& forall|r: int| 0 <= r < self.grid@.len() ==> (#[trigger] self.grid@[r])@.len() == self.cols()
        &&& forall|r: int, c: int|
            0 <= r < self.grid@.len() && 0 <= c < self.grid@[r]@.len()
                ==> (#[trigger] self.grid@[r]@[c]).wf()
    }

    /// Is a micro-pixel point inside `[0, width) x [0, height)`?
    pub open spec fn in_domain(self, x: int, y: int) -> bool {
        &&& 0 <= x < self.config.grid_width as int * 1_000_000
        &&& 0 <= y < self.config.grid_height as int * 1_000_000
    }

    /// What `sample` returns on an in-domain point: locate the cell, dot
    /// the four corner gradients with the offsets from each corner, and
    /// blend with eased weights.
    pub open spec fn sample_spec(self, x: int, y: int) -> int {
        let cs = self.config.cell_size as int;
        let col = (x / 1_000_000) / cs;
        let row = (y / 1_000_000) / cs;
        let u = (x - col * cs * 1_000_000) / cs;
        let v = (y - row * cs * 1_000_000) / cs;
        let tl = dot_spec(self.grid@[row]@[col], u, v);
        let tr = dot_spec(self.grid@[row]@[col + 1], u - 1_000_000, v);
        let bl = dot_spec(self.grid@[row + 1]@[col], u, v - 1_000_000);
        let br = dot_spec(self.grid@[row + 1]@[col + 1], u - 1_000_000, v - 1_000_000);
        bilerp_spec(tl, tr, bl, br, ease_spec(self.easing, u), ease_spec(self.easing, v))
    }

    /// Construct a field over a fresh random grid: every vertex drawn
    /// through the random source, converted to a unit gradient. A zero
    /// dimension is rejected with `ConfigError`.
    pub fn random(config: PerlinConfig) -> (r: Result<Perlin, ConfigError>)
        requires
            config.bounded(),
        ensures
            r is Ok <==> config.valid(),
            r is Ok ==> (r->Ok_0).wf() && (r->Ok_0).config == config
                && (r->Ok_0).easing == Easing::SmootherStep,
            !config.valid() ==> r == Result::<Perlin, ConfigError>::Err(ConfigError),
    {
        if config.validate().is_err() {
            return Err(ConfigError);
        }
        let dims: (usize, usize) = config.grid_cells();
        let cols_n: usize = dims.0 + 1;
        let rows_n: usize = dims.1 + 1;
        let mut grid: Vec<Vec<Gradient>> = Vec::new();
        while grid.len() < rows_n
            invariant
                rows_n as int == config.cells_y() + 1,
                cols_n as int == config.cells_x() + 1,
                grid@.len() <= rows_n,
                forall|r: int| 0 <= r < grid@.len() ==> (#[trigger] grid@[r])@.len() == cols_n,
                forall|r: int, c: int|
                    0 <= r < grid@.len() && 0 <= c < grid@[r]@.len()
                        ==> (#[trigger] grid@[r]@[c]).wf(),
            decreases rows_n - grid.len(),
        {
            let mut rowv: Vec<Gradient> = Vec::new();
            while rowv.len() < cols_n
                invariant
                    rowv@.len() <= cols_n,
                    forall|c: int| 0 <= c < rowv@.len() ==> (#[trigger] rowv@[c]).wf(),
                decreases cols_n - rowv.len(),
            {
                let a: u32 = random_angle();
                rowv.push(unit_vector2(a));
            }
            grid.push(rowv);
        }
        Ok(Perlin { grid, config, easing: Easing::SmootherStep })
    }

    /// Sample the field at a micro-pixel point. Outside the domain the
    /// point is rejected with `OutOfBounds`, never clamped; inside, the
    /// result is the eased blend of the four corner influences, within
    /// twice the scale.
    pub fn sample(&self, x: i64, y: i64) -> (r: Result<i64, SampleError>)
        requires
            self.wf(),
        ensures
            r is Ok <==> self.in_domain(x as int, y as int),
            r is Ok ==> r->Ok_0 == self.sample_spec(x as int, y as int)
                && -2_000_000 <= r->Ok_0 <= 2_000_000,
            !self.in_domain(x as int, y as int)
                ==> r == Result::<i64, SampleError>::Err(SampleError::OutOfBounds),
    {
        let w: i64 = (self.config.grid_width as i64) * 1_000_000;
        let h: i64 = (self.config.grid_height as i64) * 1_000_000;
        if x < 0 || x >= w || y < 0 || y >= h {
            return Err(SampleError::OutOfBounds);
        }
        let cx: (usize, i64) = locate_axis(x, self.config.cell_size, self.config.grid_width);
        let cy: (usize, i64) = locate_axis(y, self.config.cell_size, self.config.grid_height);
        let col: usize = cx.0;
        let row: usize = cy.0;
        let u: i64 = cx.1;
        let v: i64 = cy.1;
        proof {
            lemma_cells_count(self.config.cell_size as int, self.config.grid_width as int);
            lemma_cells_count(self.config.cell_size as int, self.config.grid_height as int);
        }
        let g_tl: Gradient = self.grid[row][col];
        let g_tr: Gradient = self.grid[row][col + 1];
        let g_bl: Gradient = self.grid[row + 1][col];
        let g_br: Gradient = self.grid[row + 1][col + 1];
        let tl: i64 = dot_fp(&g_tl, u, v);
        let tr: i64 = dot_fp(&g_tr, u - SCALE, v);
        let bl: i64 = dot_fp(&g_bl, u, v - SCALE);
        let br: i64 = dot_fp(&g_br, u - SCALE, v - SCALE);
        let eu: i64 = ease(self.easing, u);
        let ev: i64 = ease(self.easing, v);
        proof {
            lemma_bilerp_spec_bounds(tl as int, tr as int, bl as int, br as int,
                eu as int, ev as int, -2_000_000, 2_000_000);
        }
        Ok(bilerp(tl, tr, bl, br, eu, ev))
    }

    /// Apply an angle transform to every vertex: each angle moves as the
    /// transform says, the components are re-derived from the table, and
    /// the grid keeps its shape. Requires exclusive access, which the
    /// `&mut` receiver enforces.
    pub fn update_grid(&mut self, t: Transform)
        requires
            old(self).wf(),
        ensures
            final(self).wf(),
            final(self).config == old(self).config,
            final(self).easing == old(self).easing,
            final(self).grid@.len() == old(self).grid@.len(),
            forall|r: int| 0 <= r < final(self).grid@.len()
                ==> (#[trigger] final(self).grid@[r])@.len() == old(self).grid@[r]@.len(),
            forall|r: int, c: int|
                0 <= r < final(self).grid@.len() && 0 <= c < final(self).grid@[r]@.len()
                    ==> (#[trigger] final(self).grid@[r]@[c]).angle
                        == apply_transform(t, old(self).grid@[r]@[c].angle as int),
    {
        let ghost orig = *self;
        let mut ng: Vec<Vec<Gradient>> = Vec::new();
        let rows_n: usize = self.grid.len();
        while ng.len() < rows_n
            invariant
                orig.wf(),
                *self == orig,
                rows_n == orig.grid@.len(),
                ng@.len() <= rows_n,
                forall|r: int| 0 <= r < ng@.len()
                    ==> (#[trigger] ng@[r])@.len() == orig.grid@[r]@.len(),
                forall|r: int, c: int|
                    0 <= r < ng@.len() && 0 <= c < ng@[r]@.len()
                        ==> (#[trigger] ng@[r]@[c]).wf()
                            && ng@[r]@[c].angle == apply_transform(t, orig.grid@[r]@[c].angle as int),
            decreases rows_n - ng.len(),
        {
            let i: usize = ng.len();
            let cols_n: usize = self.grid[i].len();
            let mut rowv: Vec<Gradient> = Vec::new();
            while rowv.len() < cols_n
                invariant
                    orig.wf(),
                    *self == orig,
                    0 <= i < orig.grid@.len(),
                    cols_n == orig.grid@[i as int]@.len(),
                    rowv@.len() <= cols_n,
                    forall|c: int|
                        0 <= c < rowv@.len()
                            ==> (#[trigger] rowv@[c]).wf()
                                && rowv@[c].angle == apply_transform(t, orig.grid@[i as int]@[c].angle as int),
                decreases cols_n - rowv.len(),
            {
                let j: usize = rowv.len();
                let g: Gradient = self.grid[i][j];
                let na: u32 = match t {
                    Transform::Identity => g.angle,
                    Transform::RotateBy(d) => (((g.angle as u64) + (d as u64)) % 360) as u32,
                };
                rowv.push(unit_vector2(na));
            }
            ng.push(rowv);
        }
        self.grid = ng;
    }

    /// Rotate every gradient by a whole-degree angle: the field evolves by
    /// rotation rather than re-randomization. The caller (a render loop)
    /// turns elapsed time and angular velocity into this angle.
    pub fn animate(&mut self, theta_deg: u32)
        requires
            old(self).wf(),
        ensures
            final(self).wf(),
            final(self).config == old(self).config,
            final(self).easing == old(self).easing,
            final(self).grid@.len() == old(self).grid@.len(),
            forall|r: int| 0 <= r < final(self).grid@.len()
                ==> (#[trigger] final(self).grid@[r])@.len() == old(self).grid@[r]@.len(),
            forall|r: int, c: int|
                0 <= r < final(self).grid@.len() && 0 <= c < final(self).grid@[r]@.len()
                    ==> (#[trigger] final(self).grid@[r]@[c]).angle
                        == (old(self).grid@[r]@[c].angle + theta_deg) % 360,
    {
        self.update_grid(Transform::RotateBy(theta_deg));
    }
}

/// At an exact grid vertex the sampled value is zero: the coincident
/// corner's offset vanishes, the eased weights are zero, and the blend
/// collapses to that corner's dot product.
pub proof fn lemma_sample_at_vertex(p: Perlin, col: int, row: int)
    requires
        p.wf(),
        0 <= col < p.config.cells_x(),
        0 <= row < p.config.cells_y(),
    ensures
        p.sample_spec(col * (p.config.cell_size as int) * 1_000_000,
            row * (p.config.cell_size as int) * 1_000_000) == 0,
{
    let cs = p.config.cell_size as int;
    let x = col * cs * 1_000_000;
    let y = row * cs * 1_000_000;
    // the whole-pixel coordinate is col * cs, and its cell index is col
    assert(x == 1_000_000 * (col * cs) && y == 1_000_000 * (row * cs)) by (nonlinear_arith)
        requires
            x == col * cs * 1_000_000,
            y == row * cs * 1_000_000,
    ;
    lemma_div_multiples_vanish(col * cs, 1_000_000);
    lemma_div_multiples_vanish(row * cs, 1_000_000);
    assert(col * cs == cs * col && row * cs == cs * row) by (nonlinear_arith);
    lemma_div_multiples_vanish(col, cs);
    lemma_div_multiples_vanish(row, cs);
    // the relative coordinates are exactly zero
    lemma_fundamental_div_mod_converse(0, cs, 0, 0);
    let g = p.grid@[row]@[col];
    assert(g.gx * 0 + g.gy * 0 == 0) by (nonlinear_arith);
    lemma_fundamental_div_mod_converse(0, 1_000_000, 0, 0);
    assert(dot_spec(g, 0, 0) == 0);
    lemma_ease_at_zero(p.easing);
    lemma_lerp_spec_at_zero(0, dot_spec(p.grid@[row]@[col + 1], 0 - 1_000_000, 0));
    lemma_lerp_spec_at_zero(dot_spec(p.grid@[row + 1]@[col], 0, 0 - 1_000_000),
        dot_spec(p.grid@[row + 1]@[col + 1], 0 - 1_000_000, 0 - 1_000_000));
    lemma_lerp_spec_at_zero(0, crate::math::lerp_spec(
        dot_spec(p.grid@[row + 1]@[col], 0, 0 - 1_000_000),
        dot_spec(p.grid@[row + 1]@[col + 1], 0 - 1_000_000, 0 - 1_000_000), 0));
}

} // verus!
