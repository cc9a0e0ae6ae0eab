//! The grid of stones, its animation step, and the user-driven parameter
//! changes.
//!
//! Positions are kept in fixed-point units of `1 / POS_UNITS_PER_CELL` of a
//! cell, the two adjustment factors in tenths, and the per-stone offsets as
//! exact integer products of row depth, factor and noise draw. One update
//! pass walks the grid row-major (row 0 first) and consumes exactly three
//! draws per stone — first the x jitter, then the y jitter, then the rotation
//! — so a replay from the same seed reproduces the same frame.

use vstd::prelude::*;
use vstd::pervasive::VecAdditionalExecFns;

use crate::random_field::RandomField;
use crate::random_field::draw_at;
use crate::random_field::jitter_from;
use crate::random_field::rot_from;
use crate::random_field::stream_state;
use crate::random_field::lemma_stream_state_succ;
use crate::random_field::ROT_HALF;

verus! {

/// Number of rows in the grid.
pub const ROWS: u32 = 22;
/// Number of columns in the grid.
pub const COLS: u32 = 12;
/// Number of stones: `ROWS * COLS`.
pub const N_STONES: usize = 264;

/// Fixed-point position units per grid cell.
pub const POS_UNITS_PER_CELL: u32 = 22;
/// Horizontal animation step: half a cell scaled by the grid's aspect ratio,
/// `0.5 * COLS / ROWS` cells, in position units.
pub const STEP_X: u32 = 6;
/// Vertical animation step: half a cell, in position units.
pub const STEP_Y: u32 = 11;

/// Adjustment factors are kept in tenths: 10 stands for a factor of 1.0.
pub const ADJ_SCALE: i64 = 10;
/// Startup value of both adjustment factors: 1.0.
pub const ADJ_INIT: i64 = 10;
/// Hard cap on the factors, far above any slider range, so that every offset
/// product stays within `i64`.
pub const ADJ_MAX: i64 = 1_000_000;
/// Upper end of the control-panel sliders: 5.0, in tenths.
pub const SLIDER_MAX: i64 = 50;

/// Fresh seeds are drawn below this bound.
pub const SEED_BOUND: u64 = 1_000_000;

/// Side of one rendered cell, in pixels.
pub const CELL_SIZE: u32 = 30;
/// Window margin around the grid, in pixels.
pub const MARGIN: u32 = 35;
/// Extra vertical band for the control panel, in pixels.
pub const PANEL_BAND: u32 = 75;

/// One grid square: its target slot, its animated position, and the offsets
/// recomputed from the noise stream on every update.
#[derive(Clone, Copy, PartialEq, Eq, Structural, Debug)]
pub struct Stone {
    /// Target column, in cells.
    pub grid_x: u32,
    /// Target row, in cells; also the depth that scales the offsets.
    pub grid_y: u32,
    /// Animated x position, in position units; walks from 0 toward the target.
    pub current_x: u32,
    /// Animated y position, in position units; walks from 0 toward the target.
    pub current_y: u32,
    /// Jitter offset along x: `grid_y * factor * draw`, in product units of
    /// `1 / (POS_UNITS_PER_CELL * ADJ_SCALE * JITTER_RANGE)` of a cell.
    pub offset_x: i64,
    /// Jitter offset along y, in the same product units as `offset_x`.
    pub offset_y: i64,
    /// Rotation angle: `grid_y * factor * draw`, in product units of
    /// `1 / (POS_UNITS_PER_CELL * ADJ_SCALE)` millionths of a radian.
    pub rotation: i64,
}

/// Target x position of a stone, in position units.
pub open spec fn target_x(s: Stone) -> int {
    POS_UNITS_PER_CELL * s.grid_x
}

/// Target y position of a stone, in position units.
pub open spec fn target_y(s: Stone) -> int {
    POS_UNITS_PER_CELL * s.grid_y
}

impl Stone {
    /// A stone is well formed when its target lies on the grid and its
    /// animated position lies between start and target; the y position moves
    /// in whole steps, which divide the target evenly, so it never overshoots,
    /// while the x position may pass the target by less than one step.
    pub open spec fn wf(self) -> bool {
        &&& self.grid_x < COLS
        &&& self.grid_y < ROWS
        &&& self.current_x < target_x(self) + STEP_X
        &&& self.current_y <= target_y(self)
        &&& self.current_y % STEP_Y == 0
    }

    /// A fresh stone: parked at the origin with no offsets, aimed at its slot.
    pub fn new(grid_x: u32, grid_y: u32) -> (s: Stone)
        requires
            grid_x < COLS,
            grid_y < ROWS,
        ensures
            s == (Stone {
                grid_x,
                grid_y,
                current_x: 0,
                current_y: 0,
                offset_x: 0,
                offset_y: 0,
                rotation: 0,
            }),
            s.wf(),
    {
        Stone { grid_x, grid_y, current_x: 0, current_y: 0, offset_x: 0, offset_y: 0, rotation: 0 }
    }
}

/// The fresh stone of row-major index `i`.
pub open spec fn fresh_stone(i: int) -> Stone {
    Stone {
        grid_x: (i % (COLS as int)) as u32,
        grid_y: (i / (COLS as int)) as u32,
        current_x: 0,
        current_y: 0,
        offset_x: 0,
        offset_y: 0,
        rotation: 0,
    }
}

/// The full fresh grid, row-major: stone `i` sits in column `i % COLS` of
/// row `i / COLS`.
pub open spec fn fresh_grid() -> Seq<Stone> {
    Seq::new(N_STONES as nat, |i: int| fresh_stone(i))
}

/// Build the fresh grid, row 0 first, each row left to right.
fn make_fresh_stones() -> (v: Vec<Stone>)
    ensures
        v@ == fresh_grid(),
{
    let mut v: Vec<Stone> = Vec::new();
    let mut i: usize = 0;
    while i < N_STONES
        invariant
            i <= N_STONES,
            v@.len() == i,
            forall|k: int| 0 <= k < i ==> v@[k] == fresh_stone(k),
        decreases N_STONES - i,
    {
        let gx = (i as u32) % COLS;
        let gy = (i as u32) / COLS;
        assert(gy < ROWS) by {
            assert(i < 264);
        }
        v.push(Stone::new(gx, gy));
        i = i + 1;
    }
    assert(v@ =~= fresh_grid());
    v
}

/// One animation step of a single coordinate: while the position is short of
/// the target it advances by the step, otherwise it stays put.
pub open spec fn step_toward(cur: u32, target: int, step: u32) -> u32 {
    if cur < target {
        (cur + step) as u32
    } else {
        cur
    }
}

/// An offset as the exact product of row depth, adjustment factor and noise
/// draw; the scales divide out only at rendering time.
pub open spec fn offset_value(grid_y: u32, factor: i64, draw: int) -> int {
    grid_y * factor * draw
}

/// What one update pass makes of the stone with row-major index `i`, given
/// the seed and the two adjustment factors: offsets and rotation are
/// recomputed from draws `3 i`, `3 i + 1` and `3 i + 2` of the stream, and
/// each coordinate takes one animation step.
pub open spec fn stone_after(s: Stone, seed: u64, i: nat, disp: i64, rot: i64) -> Stone {
    Stone {
        grid_x: s.grid_x,
        grid_y: s.grid_y,
        current_x: step_toward(s.current_x, target_x(s), STEP_X),
        current_y: step_toward(s.current_y, target_y(s), STEP_Y),
        offset_x: offset_value(s.grid_y, disp, jitter_from(draw_at(seed, 3 * i))) as i64,
        offset_y: offset_value(s.grid_y, disp, jitter_from(draw_at(seed, 3 * i + 1))) as i64,
        rotation: offset_value(s.grid_y, rot, rot_from(draw_at(seed, 3 * i + 2))) as i64,
    }
}

/// What one update pass makes of the whole grid.
pub open spec fn grid_after(g: Seq<Stone>, seed: u64, disp: i64, rot: i64) -> Seq<Stone> {
    Seq::new(g.len(), |i: int| stone_after(g[i], seed, i as nat, disp, rot))
}

/// The grid together with the live parameters: the two adjustment factors, in
/// tenths, and the seed of the noise stream.
pub struct GridModel {
    /// Multiplier on the jitter offsets, in tenths.
    pub displacement_factor: i64,
    /// Multiplier on the rotation angles, in tenths.
    pub rotation_factor: i64,
    /// Seed of the noise stream; freely editable from the control panel.
    pub seed: u64,
    /// The stones, row-major: stone `i` targets column `i % COLS` of row
    /// `i / COLS`.
    pub stones: Vec<Stone>,
}

impl GridModel {
    /// The model is well formed when both factors lie in `[0, ADJ_MAX]` and
    /// the stones are the full row-major grid, each well formed.
    pub open spec fn wf(self) -> bool {
        &&& 0 <= self.displacement_factor <= ADJ_MAX
        &&& 0 <= self.rotation_factor <= ADJ_MAX
        &&& self.stones@.len() == N_STONES
        &&& forall|i: int|
            0 <= i < self.stones@.len() ==> (#[trigger] self.stones@[i]).wf()
        &&& forall|i: int|
            0 <= i < self.stones@.len() ==> (#[trigger] self.stones@[i]).grid_x == i % (
            COLS as int) && self.stones@[i].grid_y == i / (COLS as int)
    }

    /// A fresh model: the fresh grid, both factors at 1.0, the given seed.
    pub fn new(seed: u64) -> (m: GridModel)
        ensures
            m.wf(),
            m.stones@ == fresh_grid(),
            m.displacement_factor == ADJ_INIT,
            m.rotation_factor == ADJ_INIT,
            m.seed == seed,
    {
        let m = GridModel {
            displacement_factor: ADJ_INIT,
            rotation_factor: ADJ_INIT,
            seed,
            stones: make_fresh_stones(),
        };
        proof {
            lemma_fresh_grid_wf();
        }
        m
    }

    /// A fresh model under a seed drawn at random below `SEED_BOUND`, as at
    /// startup.
    pub fn new_random() -> (m: GridModel)
        ensures
            m.wf(),
            m.stones@ == fresh_grid(),
            m.displacement_factor == ADJ_INIT,
            m.rotation_factor == ADJ_INIT,
            m.seed < SEED_BOUND,
    {
        let seed = draw_seed();
        GridModel::new(seed)
    }

    /// The control panel's randomize button: replace every stone with a fresh
    /// one — all animation progress returns to the origin — and draw a new
    /// seed in the startup range. The factors keep their values.
    pub fn randomize(&mut self)
        requires
            old(self).wf(),
        ensures
            final(self).wf(),
            final(self).stones@ == fresh_grid(),
            final(self).seed < SEED_BOUND,
            final(self).displacement_factor == old(self).displacement_factor,
            final(self).rotation_factor == old(self).rotation_factor,
    {
        self.seed = draw_seed();
        self.stones = make_fresh_stones();
        proof {
            lemma_fresh_grid_wf();
        }
    }
}

/// Bounds of one offset product: with the row on the grid, the factor capped
/// and the draw within the rotation range (the wider of the two draw ranges),
/// the product and its first partial product stay far inside `i64`.
proof fn lemma_offset_bounds(gy: int, f: int, j: int)
    by (nonlinear_arith)
    requires
        0 <= gy < ROWS,
        0 <= f <= ADJ_MAX,
        -ROT_HALF <= j <= ROT_HALF,
    ensures
        0 <= gy * f <= 21_000_000,
        -16_493_358_000_000 <= (gy * f) * j <= 16_493_358_000_000,
{
}

impl GridModel {
    /// One animation frame over the whole grid, row-major: reseed the noise
    /// stream from the stored seed, recompute every stone's offsets and
    /// rotation from exactly three draws per stone, and advance each stone one
    /// step toward its slot. The parameters and the seed are left unchanged,
    /// and the new grid is a function of the old model alone.
    pub fn update(&mut self)
        requires
            old(self).wf(),
        ensures
            final(self).wf(),
            final(self).stones@ == grid_after(
                old(self).stones@,
                old(self).seed,
                old(self).displacement_factor,
                old(self).rotation_factor,
            ),
            final(self).displacement_factor == old(self).displacement_factor,
            final(self).rotation_factor == old(self).rotation_factor,
            final(self).seed == old(self).seed,
    {
        let ghost g0 = self.stones@;
        let mut rng = RandomField::new(self.seed);
        let n = self.stones.len();
        let mut i: usize = 0;
        while i < n
            invariant
                old(self).wf(),
                i <= n,
                n == g0.len(),
                g0 == old(self).stones@,
                self.displacement_factor == old(self).displacement_factor,
                self.rotation_factor == old(self).rotation_factor,
                self.seed == old(self).seed,
                self.stones@.len() == n,
                rng.state == stream_state(self.seed, 3 * i as nat),
                forall|k: int|
                    0 <= k < i ==> self.stones@[k] == stone_after(
                        g0[k],
                        self.seed,
                        k as nat,
                        self.displacement_factor,
                        self.rotation_factor,
                    ),
                forall|k: int| i <= k < n ==> self.stones@[k] == g0[k],
            decreases n - i,
        {
            let s = self.stones[i];
            assert(s == g0[i as int]);
            assert(s.wf());
            proof {
                lemma_stream_state_succ(self.seed, 3 * i as nat);
                lemma_stream_state_succ(self.seed, 3 * i as nat + 1);
                lemma_stream_state_succ(self.seed, 3 * i as nat + 2);
            }
            let jx = rng.next_jitter();
            let jy = rng.next_jitter();
            let jr = rng.next_rot();
            proof {
                lemma_offset_bounds(s.grid_y as int, self.displacement_factor as int, jx as int);
                lemma_offset_bounds(s.grid_y as int, self.displacement_factor as int, jy as int);
                lemma_offset_bounds(s.grid_y as int, self.rotation_factor as int, jr as int);
            }
            let depth_disp: i64 = (s.grid_y as i64) * self.displacement_factor;
            let depth_rot: i64 = (s.grid_y as i64) * self.rotation_factor;
            let target_col: u32 = POS_UNITS_PER_CELL * s.grid_x;
            let target_row: u32 = POS_UNITS_PER_CELL * s.grid_y;
            let next = Stone {
                grid_x: s.grid_x,
                grid_y: s.grid_y,
                current_x: if s.current_x < target_col {
                    s.current_x + STEP_X
                } else {
                    s.current_x
                },
                current_y: if s.current_y < target_row {
                    s.current_y + STEP_Y
                } else {
                    s.current_y
                },
                offset_x: depth_disp * jx,
                offset_y: depth_disp * jy,
                rotation: depth_rot * jr,
            };
            self.stones.set(i, next);
            assert(self.stones@[i as int] == stone_after(
                g0[i as int],
                self.seed,
                i as nat,
                self.displacement_factor,
                self.rotation_factor,
            ));
            i = i + 1;
        }
        assert(self.stones@ =~= grid_after(
            g0,
            self.seed,
            self.displacement_factor,
            self.rotation_factor,
        ));
        assert forall|k: int| 0 <= k < self.stones@.len() implies (
        #[trigger] self.stones@[k]).wf() by {
            assert(g0[k].wf());
        }
    }
}

/// A keyboard input, as the model understands it. `S` asks for a frame
/// capture, which is the window's business, so it reaches the model only as a
/// no-op.
#[derive(Clone, Copy, PartialEq, Eq, Structural, Debug)]
pub enum KeyInput {
    /// Draw a new seed; animation positions keep walking.
    R,
    /// Capture the frame to a file; no effect on the model.
    S,
    /// Raise the displacement factor one tenth.
    Up,
    /// Lower the displacement factor one tenth, only while above zero.
    Down,
    /// Raise the rotation factor one tenth.
    Right,
    /// Lower the rotation factor one tenth, only while above zero.
    Left,
    /// Any other key; no effect on the model.
    Other,
}

/// One raising key press: one tenth up, held at the cap.
pub open spec fn raise_step(v: i64) -> i64 {
    if v < ADJ_MAX {
        (v + 1) as i64
    } else {
        v
    }
}

/// One lowering key press: one tenth down, but only from strictly above zero —
/// the guard tests before the subtraction.
pub open spec fn lower_step(v: i64) -> i64 {
    if v > 0 {
        (v - 1) as i64
    } else {
        v
    }
}

impl GridModel {
    /// Apply one key press. Raising and lowering keys move one factor a tenth
    /// with the guards above; `R` draws a new seed below `SEED_BOUND` and —
    /// unlike the randomize button — leaves every stone's animation progress
    /// untouched; every other key changes nothing.
    pub fn handle_key(&mut self, key: KeyInput)
        requires
            old(self).wf(),
        ensures
            final(self).wf(),
            final(self).stones@ == old(self).stones@,
            final(self).displacement_factor == (if key == KeyInput::Up {
                raise_step(old(self).displacement_factor)
            } else if key == KeyInput::Down {
                lower_step(old(self).displacement_factor)
            } else {
                old(self).displacement_factor
            }),
            final(self).rotation_factor == (if key == KeyInput::Right {
                raise_step(old(self).rotation_factor)
            } else if key == KeyInput::Left {
                lower_step(old(self).rotation_factor)
            } else {
                old(self).rotation_factor
            }),
            key == KeyInput::R ==> final(self).seed < SEED_BOUND,
            key != KeyInput::R ==> final(self).seed == old(self).seed,
    {
        match key {
            KeyInput::R => {
                self.seed = draw_seed();
            },
            KeyInput::Up => {
                if self.displacement_factor < ADJ_MAX {
                    self.displacement_factor = self.displacement_factor + 1;
                }
            },
            KeyInput::Down => {
                if self.displacement_factor > 0 {
                    self.displacement_factor = self.displacement_factor - 1;
                }
            },
            KeyInput::Right => {
                if self.rotation_factor < ADJ_MAX {
                    self.rotation_factor = self.rotation_factor + 1;
                }
            },
            KeyInput::Left => {
                if self.rotation_factor > 0 {
                    self.rotation_factor = self.rotation_factor - 1;
                }
            },
            KeyInput::S => {},
            KeyInput::Other => {},
        }
    }
}

/// Every stone of the fresh grid is well formed and sits at its row-major
/// slot.
pub proof fn lemma_fresh_grid_wf()
    ensures
        fresh_grid().len() == N_STONES,
        forall|i: int| 0 <= i < N_STONES ==> (#[trigger] fresh_grid()[i]).wf(),
        forall|i: int|
            0 <= i < N_STONES ==> (#[trigger] fresh_grid()[i]).grid_x == i % (COLS as int)
                && fresh_grid()[i].grid_y == i / (COLS as int),
{
    assert forall|i: int| 0 <= i < N_STONES implies (#[trigger] fresh_grid()[i]).wf() by {
        assert(0 <= i % (COLS as int) < COLS as int);
        assert(0 <= i / (COLS as int) < ROWS as int) by (nonlinear_arith)
            requires
                0 <= i < 264,
        ;
    }
}

/// Law: one update pass is deterministic. The next grid is a function of the
/// grid, the seed and the two factors alone, so two independent passes over
/// equal models — same seed, same row-major traversal — agree on every
/// stone's offsets, rotation and position.
pub proof fn lemma_update_deterministic(
    g1: Seq<Stone>,
    g2: Seq<Stone>,
    seed: u64,
    disp: i64,
    rot: i64,
)
    requires
        g1 == g2,
    ensures
        grid_after(g1, seed, disp, rot) == grid_after(g2, seed, disp, rot),
{
}

/// Law: depth scaling. For one and the same draw and factor, the offsets of
/// two rows stand in the exact ratio of their row indices: the offset of the
/// deeper row times the shallower index equals the offset of the shallower
/// row times the deeper index.
pub proof fn lemma_depth_scaling(y1: u32, y2: u32, factor: i64, draw: int)
    requires
        0 < y1 < y2,
    ensures
        offset_value(y2, factor, draw) * y1 == offset_value(y1, factor, draw) * y2,
{
    assert((y2 * factor * draw) * y1 == (y1 * factor * draw) * y2) by (nonlinear_arith);
}

/// Law: animation convergence, one frame at a time. While a coordinate is
/// short of its target an update strictly increases it, and once both
/// coordinates are at or past their targets the stone's position is a fixed
/// point of further updates.
pub proof fn lemma_animation_convergence(s: Stone, seed: u64, i: nat, disp: i64, rot: i64)
    requires
        s.wf(),
    ensures
        s.current_x < target_x(s) ==> stone_after(s, seed, i, disp, rot).current_x > s.current_x,
        s.current_y < target_y(s) ==> stone_after(s, seed, i, disp, rot).current_y > s.current_y,
        s.current_x >= target_x(s) ==> stone_after(s, seed, i, disp, rot).current_x == s.current_x,
        s.current_y >= target_y(s) ==> stone_after(s, seed, i, disp, rot).current_y == s.current_y,
{
}

/// A coordinate after `n` animation steps.
pub open spec fn advance_n(cur: u32, target: int, step: u32, n: nat) -> u32
    decreases n,
{
    if n == 0 {
        cur
    } else {
        step_toward(advance_n(cur, target, step, (n - 1) as nat), target, step)
    }
}

/// Law: animation convergence, reachability. With a positive step and targets
/// in the grid's range, after `n` steps a coordinate is either at or past its
/// target or has grown by the full `n` steps — so any `n` with
/// `cur + n * step >= target` ends at or past the target, a fixed point from
/// then on.
pub proof fn lemma_convergence_reached(cur: u32, target: int, step: u32, n: nat)
    requires
        1 <= step <= STEP_Y,
        0 <= target <= 462,
    ensures
        advance_n(cur, target, step, n) >= target || advance_n(cur, target, step, n) >= cur + n
            * step,
    decreases n,
{
    if n > 0 {
        lemma_convergence_reached(cur, target, step, (n - 1) as nat);
        let a = advance_n(cur, target, step, (n - 1) as nat);
        assert(advance_n(cur, target, step, n) == step_toward(a, target, step));
        assert(((n - 1) as nat) * step + step == n * step) by (nonlinear_arith)
            requires
                n >= 1,
        ;
        if a < target {
            assert(step_toward(a, target, step) == a + step);
            assert(a + step >= cur + n * step || a >= target);
        } else {
            assert(step_toward(a, target, step) == a);
        }
    } else {
        assert(advance_n(cur, target, step, n) == cur);
        assert(n * step == 0) by (nonlinear_arith)
            requires
                n == 0,
        ;
    }
}

/// `n` lowering key presses in a row.
pub open spec fn lower_iter(v: i64, n: nat) -> i64
    decreases n,
{
    if n == 0 {
        v
    } else {
        lower_step(lower_iter(v, (n - 1) as nat))
    }
}

/// Law: the lowering keys never drive a factor below zero. Starting from any
/// non-negative value, any number of presses of a lowering key leaves the
/// factor non-negative, because the guard tests before the subtraction.
pub proof fn lemma_factor_floor(v: i64, n: nat)
    requires
        v >= 0,
    ensures
        lower_iter(v, n) >= 0,
    decreases n,
{
    if n > 0 {
        lemma_factor_floor(v, (n - 1) as nat);
    }
}

/// Width of the window, in pixels: the grid plus a margin on either side.
pub fn window_width() -> (w: u32)
    ensures
        w == COLS * CELL_SIZE + 2 * MARGIN,
{
    COLS * CELL_SIZE + 2 * MARGIN
}

/// Height of the window, in pixels: the grid, the control-panel band, and a
/// margin above and below.
pub fn window_height() -> (h: u32)
    ensures
        h == ROWS * CELL_SIZE + PANEL_BAND + 2 * MARGIN,
{
    ROWS * CELL_SIZE + PANEL_BAND + 2 * MARGIN
}

/// Relies on `rand::Rng::gen_range` over the half-open range
/// `0..SEED_BOUND`: every value drawn lies below `SEED_BOUND`, and the range
/// is not empty, so the call does not panic.
#[verifier::external_body]
fn draw_seed() -> (s: u64)
    ensures
        s < SEED_BOUND,
{
    rand::Rng::gen_range(&mut rand::thread_rng(), 0..SEED_BOUND)
}

} // verus!
