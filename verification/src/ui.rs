//! Camera tracking, the scrolling background, and the HUD: score
//! digits, lap counter and speed readout.

use vstd::prelude::*;

use crate::car::SCORE_LIMIT;
use crate::geom::{
    spec_travel, travel, DT_LIMIT_MS, POS_LIMIT_MPX, SPEED_LIMIT_MPX_S, WINDOW_LIMIT_PX,
};
use crate::levels::spec_lap_progress;
use crate::levels::lap_progress;

verus! {

/// The camera keeps pace with the car's forward speed.
pub fn camera_tracking(cam_x: &mut i64, car_speed_x: i64, dt_ms: u32)
    requires
        -POS_LIMIT_MPX <= *old(cam_x) <= POS_LIMIT_MPX,
        0 <= car_speed_x <= SPEED_LIMIT_MPX_S,
        dt_ms <= DT_LIMIT_MS,
    ensures
        *final(cam_x) == *old(cam_x) + spec_travel(car_speed_x as int, dt_ms as int),
{
    *cam_x = *cam_x + travel(car_speed_x, dt_ms);
}

/// One strip of road background; `x` is its left edge.
#[derive(Clone, Copy, Debug, PartialEq, Eq, Structural)]
pub struct Background {
    /// Left edge of the strip, in milli-pixels.
    pub x: i64,
    /// Width of the strip, in milli-pixels.
    pub width: i64,
}

/// The road drawn when a level starts: a triple-width strip from the
/// origin and a single-width strip one window to the left.
pub fn spawn_background(width_px: u32) -> (tiles: Vec<Background>)
    requires
        1 <= width_px <= WINDOW_LIMIT_PX,
    ensures
        tiles@.len() == 2,
        tiles@[0].x == 0 && tiles@[0].width == 3 * width_px * 1000,
        tiles@[1].x == -(width_px * 1000) && tiles@[1].width == width_px * 1000,
{
    let w_mpx: i64 = (width_px as i64) * 1000;
    let mut tiles: Vec<Background> = Vec::new();
    tiles.push(Background { x: 0, width: 3 * w_mpx });
    tiles.push(Background { x: -w_mpx, width: w_mpx });
    tiles
}

/// The four lap-mark pillars, one every ten window widths.
pub fn lap_marker_positions(width_px: u32) -> (xs: Vec<i64>)
    requires
        1 <= width_px <= WINDOW_LIMIT_PX,
    ensures
        xs@.len() == 4,
        xs@[0] == width_px * 10_000,
        xs@[1] == 2 * width_px * 10_000,
        xs@[2] == 3 * width_px * 10_000,
        xs@[3] == 4 * width_px * 10_000,
{
    let stride: i64 = (width_px as i64) * 10_000;
    let mut xs: Vec<i64> = Vec::new();
    xs.push(stride);
    xs.push(2 * stride);
    xs.push(3 * stride);
    xs.push(4 * stride);
    xs
}

/// Strips a full four windows behind the camera center are culled.
pub open spec fn bg_cull_line(cam_x: int, width_px: int) -> int {
    cam_x - 4 * width_px * 1000
}

/// The strips that survive one frame of background upkeep.
pub open spec fn spec_keep_tiles(
    s: Seq<Background>,
    cam_x: int,
    width_px: int,
) -> Seq<Background>
    decreases s.len(),
{
    if s.len() == 0 {
        Seq::empty()
    } else {
        let rest = spec_keep_tiles(s.drop_last(), cam_x, width_px);
        if s.last().x < bg_cull_line(cam_x, width_px) {
            rest
        } else {
            rest.push(s.last())
        }
    }
}

/// Is some strip still ahead of the camera center?
pub open spec fn spec_road_ahead(s: Seq<Background>, cam_x: int) -> bool {
    exists|i: int| 0 <= i < s.len() && (#[trigger] s[i]).x > cam_x
}

/// Where the next triple-width strip goes once the road has run out:
/// the next multiple of three window widths past the camera.
pub open spec fn spec_next_tile_x(cam_x: int, width_px: int) -> int {
    (cam_x / (3 * width_px * 1000) + 1) * (3 * width_px * 1000)
}

/// One frame of background upkeep: strips far behind the camera are
/// culled and, when no strip is ahead of the camera center any more
/// (judged before the culling), a fresh triple-width strip is laid
/// down ahead.  The returned strip, if any, is appended to `tiles`;
/// the front end spawns its sprite.
#[verifier::loop_isolation(false)]
pub fn update_background(
    tiles: &mut Vec<Background>,
    cam_x: i64,
    width_px: u32,
) -> (spawned: Option<Background>)
    requires
        1 <= width_px <= WINDOW_LIMIT_PX,
        -POS_LIMIT_MPX <= cam_x <= POS_LIMIT_MPX,
    ensures
        spec_road_ahead(old(tiles)@, cam_x as int) ==> {
            &&& spawned is None
            &&& final(tiles)@ == spec_keep_tiles(old(tiles)@, cam_x as int, width_px as int)
        },
        !spec_road_ahead(old(tiles)@, cam_x as int) ==> (spawned matches Some(t) && {
            &&& t.x == spec_next_tile_x(cam_x as int, width_px as int)
            &&& t.width == 3 * width_px * 1000
            &&& final(tiles)@ == spec_keep_tiles(
                old(tiles)@,
                cam_x as int,
                width_px as int,
            ).push(t)
        }),
{
    let w_mpx: i64 = (width_px as i64) * 1000;
    let line = cam_x - 4 * w_mpx;
    let n = tiles.len();

    let mut ahead = false;
    let mut i: usize = 0;
    while i < n
        invariant
            i <= n,
            ahead == spec_road_ahead(tiles@.take(i as int), cam_x as int),
        decreases n - i,
    {
        proof {
            assert(tiles@.take(i + 1).drop_last() =~= tiles@.take(i as int));
            assert(tiles@.take(i + 1).last() == tiles@[i as int]);
            assert(forall|j: int| 0 <= j < i ==> tiles@.take(i as int)[j] == tiles@.take(
                i + 1,
            )[j]);
        }
        if tiles[i].x > cam_x {
            ahead = true;
        }
        proof {
            if ahead && !spec_road_ahead(tiles@.take(i as int), cam_x as int) {
                assert(tiles@.take(i + 1)[i as int] == tiles@[i as int]);
            }
            if !ahead {
                assert(!spec_road_ahead(tiles@.take(i + 1), cam_x as int)) by {
                    if spec_road_ahead(tiles@.take(i + 1), cam_x as int) {
                        let j = choose|j: int|
                            0 <= j < i + 1 && (#[trigger] tiles@.take(i + 1)[j]).x > cam_x;
                        if j < i {
                            assert(tiles@.take(i as int)[j].x > cam_x);
                        }
                        assert(false);
                    }
                }
            }
        }
        i = i + 1;
    }
    proof {
        assert(tiles@.take(n as int) =~= tiles@);
    }

    let mut out: Vec<Background> = Vec::new();
    let mut k: usize = 0;
    while k < n
        invariant
            k <= n,
            out@ == spec_keep_tiles(tiles@.take(k as int), cam_x as int, width_px as int),
        decreases n - k,
    {
        proof {
            assert(tiles@.take(k + 1).drop_last() =~= tiles@.take(k as int));
            assert(tiles@.take(k + 1).last() == tiles@[k as int]);
        }
        let t = tiles[k];
        if t.x >= line {
            out.push(t);
        }
        k = k + 1;
    }
    *tiles = out;

    if !ahead {
        let d: i64 = 3 * w_mpx;
        let rem: i64 = match cam_x.checked_rem_euclid(d) {
            Some(r) => r,
            None => 0,
        };
        proof {
            vstd::arithmetic::div_mod::lemma_fundamental_div_mod(cam_x as int, d as int);
            vstd::arithmetic::div_mod::lemma_mod_division_less_than_divisor(
                cam_x as int,
                d as int,
            );
            let q = cam_x as int / d as int;
            assert((q + 1) * (d as int) == q * (d as int) + d) by (nonlinear_arith);
        }
        let nx: i64 = cam_x - rem + d;
        let t = Background { x: nx, width: d };
        tiles.push(t);
        Some(t)
    } else {
        None
    }
}

/// The persistent score, carried across levels, in milli-points.
#[derive(Clone, Copy, Debug, PartialEq, Eq, Structural)]
pub struct Score {
    pub score: i64,
}

/// The score a fresh run starts with.
pub fn spawn_score() -> (s: Score)
    ensures
        s == (Score { score: 0 }),
{
    Score { score: 0 }
}

/// The HUD speed readout: the forward speed in whole tens of pixels
/// per second.
pub fn update_speed(speed_x_mpx_s: i64) -> (r: u32)
    requires
        0 <= speed_x_mpx_s <= SPEED_LIMIT_MPX_S,
    ensures
        r == speed_x_mpx_s as int / 10_000,
{
    ((speed_x_mpx_s as u64) / 10_000) as u32
}

/// Decimal digits of `n`, most significant first; zero is a single
/// digit.
pub open spec fn spec_digits(n: int) -> Seq<int>
    decreases n,
{
    if n < 10 {
        seq![n]
    } else {
        spec_digits(n / 10).push(n % 10)
    }
}

/// The number a digit sequence denotes.
pub open spec fn spec_digits_value(s: Seq<int>) -> int
    decreases s.len(),
{
    if s.len() == 0 {
        0
    } else {
        spec_digits_value(s.drop_last()) * 10 + s.last()
    }
}

/// The decimal digits of a number denote it again: there is at least
/// one digit, every digit is between zero and nine, and the sequence
/// evaluates back to the number.
pub proof fn lemma_digits_roundtrip(n: int)
    requires
        0 <= n,
    ensures
        spec_digits(n).len() >= 1,
        forall|i: int| 0 <= i < spec_digits(n).len() ==> 0 <= #[trigger] spec_digits(n)[i] <= 9,
        spec_digits_value(spec_digits(n)) == n,
    decreases n,
{
    if n < 10 {
        assert(spec_digits(n) =~= seq![n]);
        assert(spec_digits(n).drop_last() =~= Seq::<int>::empty());
        assert(spec_digits_value(Seq::<int>::empty()) == 0);
    } else {
        vstd::arithmetic::div_mod::lemma_div_pos_is_pos(n, 10);
        vstd::arithmetic::div_mod::lemma_div_is_strictly_smaller(n, 10);
        lemma_digits_roundtrip(n / 10);
        vstd::arithmetic::div_mod::lemma_fundamental_div_mod(n, 10);
        vstd::arithmetic::div_mod::lemma_mod_division_less_than_divisor(n, 10);
        let prefix = spec_digits(n / 10);
        assert(spec_digits(n) =~= prefix.push(n % 10));
        assert(spec_digits(n).drop_last() =~= prefix);
        assert forall|i: int| 0 <= i < spec_digits(n).len() implies 0 <= #[trigger] spec_digits(
            n,
        )[i] <= 9 by {
            if i < prefix.len() {
                assert(spec_digits(n)[i] == prefix[i]);
            }
        }
    }
}

/// Powers of ten.
pub open spec fn spec_pow10(k: int) -> int
    decreases k,
{
    if k <= 0 {
        1
    } else {
        10 * spec_pow10(k - 1)
    }
}

/// A number below the `k`-th power of ten has at most `k` decimal
/// digits.
pub proof fn lemma_digits_len(n: int, k: int)
    requires
        0 <= n,
        1 <= k,
        n < spec_pow10(k),
    ensures
        spec_digits(n).len() <= k,
    decreases k,
{
    if n < 10 {
    } else {
        assert(spec_pow10(0) == 1);
        assert(spec_pow10(1) == 10);
        if k == 1 {
            assert(false);
        }
        vstd::arithmetic::div_mod::lemma_div_pos_is_pos(n, 10);
        vstd::arithmetic::div_mod::lemma_multiply_divide_lt(n, 10, spec_pow10(k - 1));
        lemma_digits_len(n / 10, k - 1);
    }
}

/// The decimal digits of the whole-point score, most significant
/// first.
pub fn score_digits(n: u32) -> (v: Vec<u32>)
    ensures
        v@.len() == spec_digits(n as int).len(),
        forall|i: int| 0 <= i < v@.len() ==> v@[i] == spec_digits(n as int)[i],
        1 <= v@.len() <= 10,
    decreases n,
{
    proof {
        assert(spec_pow10(10) == 10_000_000_000) by {
            assert(spec_pow10(0) == 1);
            assert(spec_pow10(1) == 10);
            assert(spec_pow10(2) == 100);
            assert(spec_pow10(3) == 1000);
            assert(spec_pow10(4) == 10_000);
            assert(spec_pow10(5) == 100_000);
            assert(spec_pow10(6) == 1_000_000);
            assert(spec_pow10(7) == 10_000_000);
            assert(spec_pow10(8) == 100_000_000);
            assert(spec_pow10(9) == 1_000_000_000);
        }
        lemma_digits_len(n as int, 10);
        lemma_digits_roundtrip(n as int);
    }
    if n < 10 {
        let mut v: Vec<u32> = Vec::new();
        v.push(n);
        v
    } else {
        let mut v = score_digits(n / 10);
        v.push(n % 10);
        v
    }
}

/// Screen x of the `i`-th of `count` score digits: the row ends ten
/// pixels short of the right window edge and each digit is 3% of the
/// window wide.
pub open spec fn spec_digit_position(width_px: int, count: int, i: int) -> int {
    width_px * 1000 - 10_000 - 30 * width_px * count + i * 30 * width_px
}

#[verifier::loop_isolation(false)]
pub fn digit_positions(width_px: u32, count: usize) -> (xs: Vec<i64>)
    requires
        1 <= width_px <= WINDOW_LIMIT_PX,
        count <= 20,
    ensures
        xs@.len() == count,
        forall|i: int|
            0 <= i < count ==> xs@[i] == spec_digit_position(width_px as int, count as int, i),
{
    let step: i64 = 30 * (width_px as i64);
    proof {
        assert(0 <= (step as int) * (count as int) <= 60_000_000) by (nonlinear_arith)
            requires
                step == 30 * (width_px as int),
                0 <= width_px as int <= 100_000,
                0 <= count as int <= 20,
        ;
        assert((step as int) * (count as int) == 30 * (width_px as int) * (count as int))
            by (nonlinear_arith)
            requires
                step == 30 * (width_px as int),
        ;
    }
    let start: i64 = (width_px as i64) * 1000 - 10_000 - step * (count as i64);
    let mut xs: Vec<i64> = Vec::new();
    let mut i: usize = 0;
    while i < count
        invariant
            i <= count,
            xs@.len() == i,
            forall|j: int|
                0 <= j < i ==> xs@[j] == spec_digit_position(width_px as int, count as int, j),
        decreases count - i,
    {
        proof {
            assert(0 <= (step as int) * (i as int) <= 60_000_000) by (nonlinear_arith)
                requires
                    step == 30 * (width_px as int),
                    0 <= width_px as int <= 100_000,
                    0 <= i as int <= 20,
            ;
            assert((step as int) * (i as int) == (i as int) * 30 * (width_px as int))
                by (nonlinear_arith)
                requires
                    step == 30 * (width_px as int),
            ;
        }
        let x: i64 = start + step * (i as i64);
        xs.push(x);
        i = i + 1;
    }
    xs
}

/// The HUD score readout: the digits of the whole-point score, most
/// significant first, and the screen x each digit sits at.
pub fn update_score(score_milli: i64, width_px: u32) -> (r: (Vec<u32>, Vec<i64>))
    requires
        0 <= score_milli <= SCORE_LIMIT,
        1 <= width_px <= WINDOW_LIMIT_PX,
    ensures
        ({
            let digits = spec_digits(score_milli as int / 1000);
            &&& r.0@.len() == digits.len()
            &&& forall|i: int| 0 <= i < r.0@.len() ==> r.0@[i] == digits[i]
            &&& r.1@.len() == digits.len()
            &&& forall|i: int|
                0 <= i < r.1@.len() ==> r.1@[i] == spec_digit_position(
                    width_px as int,
                    digits.len() as int,
                    i,
                )
        }),
{
    let points: u32 = (((score_milli as u64) / 1000) as u32);
    let digits = score_digits(points);
    let xs = digit_positions(width_px, digits.len());
    (digits, xs)
}

/// The lap counter shown on the HUD.
#[derive(Clone, Copy, Debug, PartialEq, Eq, Structural)]
pub struct Lap {
    pub lap: u64,
}

/// Refresh the lap digit whenever the lap count changed upward or no
/// digit is shown yet; on a refresh the counter takes the new value.
pub fn update_laps(lap: &mut Lap, car_x_mpx: i64, width_px: u32, digit_shown: bool) -> (refresh:
    bool)
    requires
        1 <= width_px <= WINDOW_LIMIT_PX,
        -POS_LIMIT_MPX <= car_x_mpx <= POS_LIMIT_MPX,
    ensures
        ({
            let d = spec_lap_progress(car_x_mpx as int, width_px as int);
            if d > old(lap).lap || !digit_shown {
                final(lap).lap == d && refresh
            } else {
                final(lap).lap == old(lap).lap && !refresh
            }
        }),
{
    let d = lap_progress(car_x_mpx, width_px);
    if d > lap.lap || !digit_shown {
        lap.lap = d;
        true
    } else {
        false
    }
}

} // verus!
