//! Lane obstacles: per-frame movement and culling, the windowed
//! procedural spawner with its overlap-rejection rule, and the
//! car-against-obstacle collision check.

use vstd::prelude::*;

use crate::car::{Car, CarState, car_wf, CAR_HEIGHT_PX, CAR_WIDTH_PX};
use crate::geom::{
    abs_val, spec_travel, travel, DT_LIMIT_MS, POS_LIMIT_MPX, SPEED_LIMIT_MPX_S, WINDOW_LIMIT_PX,
};
use crate::levels::{level_assets_wf, LevelAssets};

verus! {

/// A lane obstacle on the road.
#[derive(Clone, Copy, Debug, PartialEq, Eq, Structural)]
pub struct Obstacle {
    /// On-screen position of the obstacle center, in milli-pixels.
    pub x: i64,
    pub y: i64,
    /// Horizontal speed, in milli-pixels per second; negative for
    /// oncoming traffic.
    pub speed: i64,
}

/// Bounds under which one frame update stays inside `i64`.
pub open spec fn obstacle_wf(o: Obstacle) -> bool {
    &&& -POS_LIMIT_MPX <= o.x <= POS_LIMIT_MPX
    &&& -POS_LIMIT_MPX <= o.y <= POS_LIMIT_MPX
    &&& -SPEED_LIMIT_MPX_S <= o.speed <= SPEED_LIMIT_MPX_S
}

pub open spec fn all_obstacles_wf(s: Seq<Obstacle>) -> bool {
    forall|i: int| 0 <= i < s.len() ==> obstacle_wf(#[trigger] s[i])
}

/// Obstacles more than half a window behind the camera center are
/// gone for good and get culled.
pub open spec fn cull_line(cam_x: int, width_px: int) -> int {
    cam_x - width_px * 1000 / 2
}

/// Where an obstacle is after one frame.
pub open spec fn spec_advanced(o: Obstacle, dt_ms: int) -> Obstacle {
    Obstacle { x: (o.x + spec_travel(o.speed as int, dt_ms)) as i64, y: o.y, speed: o.speed }
}

/// One frame of obstacle motion: obstacles behind the cull line
/// leave, the rest move by their speed.
pub open spec fn spec_step_obstacles(
    s: Seq<Obstacle>,
    cam_x: int,
    width_px: int,
    dt_ms: int,
) -> Seq<Obstacle>
    decreases s.len(),
{
    if s.len() == 0 {
        Seq::empty()
    } else {
        let rest = spec_step_obstacles(s.drop_last(), cam_x, width_px, dt_ms);
        if s.last().x < cull_line(cam_x, width_px) {
            rest
        } else {
            rest.push(spec_advanced(s.last(), dt_ms))
        }
    }
}

pub fn update_obstacles(obstacles: &mut Vec<Obstacle>, cam_x: i64, width_px: u32, dt_ms: u32)
    requires
        all_obstacles_wf(old(obstacles)@),
        dt_ms <= DT_LIMIT_MS,
        1 <= width_px <= WINDOW_LIMIT_PX,
        -POS_LIMIT_MPX <= cam_x <= POS_LIMIT_MPX,
    ensures
        final(obstacles)@ == spec_step_obstacles(
            old(obstacles)@,
            cam_x as int,
            width_px as int,
            dt_ms as int,
        ),
{
    let half_w: i64 = (((width_px as u64) * 1000) / 2) as i64;
    let line = cam_x - half_w;
    let n = obstacles.len();
    let mut out: Vec<Obstacle> = Vec::new();
    let mut i: usize = 0;
    while i < n
        invariant
            obstacles@ == old(obstacles)@,
            all_obstacles_wf(obstacles@),
            n == obstacles@.len(),
            i <= n,
            dt_ms <= DT_LIMIT_MS,
            1 <= width_px <= WINDOW_LIMIT_PX,
            -POS_LIMIT_MPX <= cam_x <= POS_LIMIT_MPX,
            line == cull_line(cam_x as int, width_px as int),
            out@ == spec_step_obstacles(
                obstacles@.take(i as int),
                cam_x as int,
                width_px as int,
                dt_ms as int,
            ),
        decreases n - i,
    {
        let o = obstacles[i];
        proof {
            assert(obstacles@.take(i + 1).drop_last() =~= obstacles@.take(i as int));
            assert(obstacles@.take(i + 1).last() == obstacles@[i as int]);
        }
        if o.x >= line {
            let adv = Obstacle { x: o.x + travel(o.speed, dt_ms), y: o.y, speed: o.speed };
            out.push(adv);
        }
        i = i + 1;
    }
    proof {
        assert(obstacles@.take(n as int) =~= obstacles@);
    }
    *obstacles = out;
}

/// The collision rule: the car and an obstacle collide when their
/// centers are horizontally within 95% of the mean of their widths
/// and vertically within 90% of the mean of their heights, both
/// scaled to the window.  Stated multiplicatively so it is exact:
/// `|dx| <= 0.95 * ((135 + ow) * h / 1080 / 2)` pixels becomes
/// `|dx| * 43_200 <= 19_000 * (135 + ow) * h` milli-pixels.
pub open spec fn spec_hits(
    car_x: int,
    car_y: int,
    o: Obstacle,
    ow_px: int,
    oh_px: int,
    height_px: int,
) -> bool {
    &&& abs_val(o.x - car_x) * 43_200 <= 19_000 * (CAR_WIDTH_PX + ow_px) * height_px
    &&& abs_val(o.y - car_y) * 21_600 <= 9_000 * (CAR_HEIGHT_PX + oh_px) * height_px
}

/// How many obstacles of `s` the car at `(car_x, car_y)` collides
/// with.
pub open spec fn spec_hit_count(
    car_x: int,
    car_y: int,
    s: Seq<Obstacle>,
    ow_px: int,
    oh_px: int,
    height_px: int,
) -> int
    decreases s.len(),
{
    if s.len() == 0 {
        0
    } else {
        spec_hit_count(car_x, car_y, s.drop_last(), ow_px, oh_px, height_px) + (
        if spec_hits(car_x, car_y, s.last(), ow_px, oh_px, height_px) {
            1int
        } else {
            0int
        })
    }
}

/// Check the car against every obstacle.  The returned mask marks the
/// obstacles hit this frame; each hit crashes the car and counts one
/// collision.  The front end despawns the marked sprites (see
/// `retain_unhit`) and plays the crash sound once per hit.
pub fn detect_collision(
    car: &mut Car,
    obstacles: &Vec<Obstacle>,
    cfg: &LevelAssets,
    height_px: u32,
) -> (hits: Vec<bool>)
    requires
        car_wf(*old(car)),
        all_obstacles_wf(obstacles@),
        level_assets_wf(*cfg),
        1 <= height_px <= WINDOW_LIMIT_PX,
        old(car).collision_counter + obstacles@.len() <= 255,
    ensures
        hits@.len() == obstacles@.len(),
        forall|i: int|
            0 <= i < hits@.len() ==> hits@[i] == spec_hits(
                old(car).x as int,
                old(car).y as int,
                obstacles@[i],
                cfg.obstacle_width_px as int,
                cfg.obstacle_height_px as int,
                height_px as int,
            ),
        final(car).collision_counter == old(car).collision_counter + spec_hit_count(
            old(car).x as int,
            old(car).y as int,
            obstacles@,
            cfg.obstacle_width_px as int,
            cfg.obstacle_height_px as int,
            height_px as int,
        ),
        final(car).state == (if spec_hit_count(
            old(car).x as int,
            old(car).y as int,
            obstacles@,
            cfg.obstacle_width_px as int,
            cfg.obstacle_height_px as int,
            height_px as int,
        ) > 0 {
            CarState::Crashed
        } else {
            old(car).state
        }),
        final(car).x == old(car).x,
        final(car).y == old(car).y,
        final(car).speed_x == old(car).speed_x,
        final(car).speed_y == old(car).speed_y,
        final(car).score == old(car).score,
        final(car).crash_elapsed_ms == old(car).crash_elapsed_ms,
{
    let ghost ow: int = cfg.obstacle_width_px as int;
    let ghost oh: int = cfg.obstacle_height_px as int;
    let ghost h: int = height_px as int;
    proof {
        assert((19_000 * (135 + ow)) * h <= 400_000_000_000_000) by (nonlinear_arith)
            requires
                0 <= ow <= 100_000,
                0 <= h <= 100_000,
        ;
        assert((9_000 * (105 + oh)) * h <= 400_000_000_000_000) by (nonlinear_arith)
            requires
                0 <= oh <= 100_000,
                0 <= h <= 100_000,
        ;
    }
    let tx: i64 = 19_000 * ((CAR_WIDTH_PX + cfg.obstacle_width_px) as i64) * (height_px as i64);
    let ty: i64 = 9_000 * ((CAR_HEIGHT_PX + cfg.obstacle_height_px) as i64) * (height_px as i64);
    let n = obstacles.len();
    let mut hits: Vec<bool> = Vec::new();
    let mut hit_count: usize = 0;
    let mut i: usize = 0;
    while i < n
        invariant
            *car == *old(car),
            car_wf(*car),
            all_obstacles_wf(obstacles@),
            n == obstacles@.len(),
            i <= n,
            ow == cfg.obstacle_width_px as int,
            oh == cfg.obstacle_height_px as int,
            h == height_px as int,
            tx == 19_000 * (CAR_WIDTH_PX + ow) * h,
            ty == 9_000 * (CAR_HEIGHT_PX + oh) * h,
            hits@.len() == i,
            forall|j: int|
                0 <= j < i ==> hits@[j] == spec_hits(
                    car.x as int,
                    car.y as int,
                    obstacles@[j],
                    ow,
                    oh,
                    h,
                ),
            hit_count == spec_hit_count(car.x as int, car.y as int, obstacles@.take(i as int), ow, oh, h),
            hit_count <= i,
        decreases n - i,
    {
        let o = obstacles[i];
        let dx: i64 = if o.x >= car.x {
            o.x - car.x
        } else {
            car.x - o.x
        };
        let dy: i64 = if o.y >= car.y {
            o.y - car.y
        } else {
            car.y - o.y
        };
        let hit = dx * 43_200 <= tx && dy * 21_600 <= ty;
        proof {
            assert(obstacles@.take(i + 1).drop_last() =~= obstacles@.take(i as int));
            assert(obstacles@.take(i + 1).last() == obstacles@[i as int]);
        }
        hits.push(hit);
        if hit {
            hit_count = hit_count + 1;
        }
        i = i + 1;
    }
    proof {
        assert(obstacles@.take(n as int) =~= obstacles@);
    }
    if hit_count > 0 {
        car.state = CarState::Crashed;
    }
    car.collision_counter = car.collision_counter + (hit_count as u8);
    hits
}

/// The obstacles that survive a frame's collision mask.
pub open spec fn spec_retain_unhit(s: Seq<Obstacle>, hits: Seq<bool>) -> Seq<Obstacle>
    recommends
        s.len() == hits.len(),
    decreases s.len(),
{
    if s.len() == 0 {
        Seq::empty()
    } else {
        let rest = spec_retain_unhit(s.drop_last(), hits.drop_last());
        if hits.len() > 0 && hits.last() {
            rest
        } else {
            rest.push(s.last())
        }
    }
}

/// Drop the obstacles the collision mask marked hit.
pub fn retain_unhit(obstacles: &mut Vec<Obstacle>, hits: &Vec<bool>)
    requires
        old(obstacles)@.len() == hits@.len(),
    ensures
        final(obstacles)@ == spec_retain_unhit(old(obstacles)@, hits@),
{
    let n = obstacles.len();
    let mut out: Vec<Obstacle> = Vec::new();
    let mut i: usize = 0;
    while i < n
        invariant
            obstacles@ == old(obstacles)@,
            n == obstacles@.len(),
            n == hits@.len(),
            i <= n,
            out@ == spec_retain_unhit(obstacles@.take(i as int), hits@.take(i as int)),
        decreases n - i,
    {
        proof {
            assert(obstacles@.take(i + 1).drop_last() =~= obstacles@.take(i as int));
            assert(hits@.take(i + 1).drop_last() =~= hits@.take(i as int));
            assert(obstacles@.take(i + 1).last() == obstacles@[i as int]);
            assert(hits@.take(i + 1).last() == hits@[i as int]);
        }
        if !hits[i] {
            let o = obstacles[i];
            out.push(o);
        }
        i = i + 1;
    }
    proof {
        assert(obstacles@.take(n as int) =~= obstacles@);
        assert(hits@.take(n as int) =~= hits@);
    }
    *obstacles = out;
}

/// The spawner only adds obstacles while at most this many are on
/// the road.
pub const OBSTACLE_CAP: usize = 10;

/// Would a new obstacle centered at `(x, y)` overlap one already on
/// the road?  Overlap is measured against the unscaled obstacle
/// footprint, in milli-pixels.
pub open spec fn spec_overlaps(
    s: Seq<Obstacle>,
    x: int,
    y: int,
    ow_px: int,
    oh_px: int,
) -> bool {
    exists|i: int|
        0 <= i < s.len() && abs_val(s[i].x - x) < ow_px * 1000 && abs_val(s[i].y - y) < oh_px
            * 1000
}

/// Where a draw of `x_draw` milli-pixels puts a new obstacle: that
/// far past the right window edge, plus half an obstacle width.
pub open spec fn spec_planned_x(cam_x: int, width_px: int, ow_px: int, x_draw: int) -> int {
    x_draw + ow_px * 500 + cam_x + width_px * 1000
}

/// A lane offset of the reference space, scaled to the window.
pub open spec fn spec_lane_scaled(lane_mpx: int, height_px: int) -> int {
    lane_mpx * height_px / 1080
}

/// An accepted spawner draw: the obstacle to put on the road and
/// which of the level's two textures it carries (oncoming traffic
/// gets the second).
#[derive(Clone, Copy, Debug, PartialEq, Eq, Structural)]
pub struct ObstaclePlan {
    pub obstacle: Obstacle,
    pub texture_index: usize,
}

/// The spawner's decision for one set of draws: `x_draw` milli-pixels
/// into the spawn window, `parity_draw` whose parity picks the
/// heading, and `lane_draw` picking the lane.  Obstacles with an even
/// parity drive in the upper lanes with the level's speed; the rest
/// mirror below the road middle and drive back.  A draw that would
/// overlap an obstacle already on the road is rejected.
#[verifier::loop_isolation(false)]
pub fn plan_obstacle(
    existing: &Vec<Obstacle>,
    cam_x: i64,
    width_px: u32,
    height_px: u32,
    cfg: &LevelAssets,
    x_draw: u32,
    parity_draw: u32,
    lane_draw: u32,
) -> (r: Option<ObstaclePlan>)
    requires
        all_obstacles_wf(existing@),
        level_assets_wf(*cfg),
        1 <= width_px <= WINDOW_LIMIT_PX,
        1 <= height_px <= WINDOW_LIMIT_PX,
        -POS_LIMIT_MPX <= cam_x <= POS_LIMIT_MPX,
        x_draw < width_px * 1000,
        parity_draw < 10,
        lane_draw < 4,
    ensures
        existing@.len() > OBSTACLE_CAP ==> r is None,
        existing@.len() <= OBSTACLE_CAP ==> {
            let x = spec_planned_x(
                cam_x as int,
                width_px as int,
                cfg.obstacle_width_px as int,
                x_draw as int,
            );
            let even = parity_draw % 2 == 0;
            let lane = spec_lane_scaled(cfg.lane_y_mpx@[lane_draw as int] as int, height_px as int);
            let y = if even {
                lane
            } else {
                -lane
            };
            let sp = if even {
                cfg.obstacle_speed_mpx_s as int
            } else {
                -(cfg.obstacle_speed_mpx_s as int)
            };
            if spec_overlaps(
                existing@,
                x,
                y,
                cfg.obstacle_width_px as int,
                cfg.obstacle_height_px as int,
            ) {
                r is None
            } else {
                r == Some(
                    ObstaclePlan {
                        obstacle: Obstacle { x: x as i64, y: y as i64, speed: sp as i64 },
                        texture_index: if even {
                            0
                        } else {
                            1
                        },
                    },
                )
            }
        },
{
    if existing.len() > OBSTACLE_CAP {
        return None;
    }
    let x: i64 = (x_draw as i64) + (cfg.obstacle_width_px as i64) * 500 + cam_x + (
    width_px as i64) * 1000;
    let lane_ref: i64 = cfg.lane_y_mpx[lane_draw as usize];
    proof {
        assert(cfg.lane_y_mpx@[lane_draw as int] == lane_ref);
        assert((lane_ref as int) * (height_px as int) <= 100_000_000_000) by (nonlinear_arith)
            requires
                0 <= lane_ref as int <= 1_000_000,
                0 <= height_px as int <= 100_000,
        ;
    }
    let lane_scaled: i64 = (((lane_ref as u64) * (height_px as u64)) / 1080) as i64;
    assert(lane_scaled <= 100_000_000_000);
    let even = parity_draw % 2 == 0;
    let y: i64 = if even {
        lane_scaled
    } else {
        -lane_scaled
    };
    let speed: i64 = if even {
        cfg.obstacle_speed_mpx_s
    } else {
        -cfg.obstacle_speed_mpx_s
    };
    let ow_mpx: i64 = (cfg.obstacle_width_px as i64) * 1000;
    let oh_mpx: i64 = (cfg.obstacle_height_px as i64) * 1000;
    let n = existing.len();
    let mut i: usize = 0;
    while i < n
        invariant
            all_obstacles_wf(existing@),
            n == existing@.len(),
            i <= n,
            -POS_LIMIT_MPX - 300_000_000 <= x <= POS_LIMIT_MPX + 300_000_000,
            -100_000_000_000 <= y <= 100_000_000_000,
            ow_mpx == cfg.obstacle_width_px as int * 1000,
            oh_mpx == cfg.obstacle_height_px as int * 1000,
            forall|j: int|
                0 <= j < i ==> !(abs_val((#[trigger] existing@[j]).x - x) < ow_mpx && abs_val(
                    existing@[j].y - y,
                ) < oh_mpx),
        decreases n - i,
    {
        let o = existing[i];
        let dx: i64 = if o.x >= x {
            o.x - x
        } else {
            x - o.x
        };
        let dy: i64 = if o.y >= y {
            o.y - y
        } else {
            y - o.y
        };
        if dx < ow_mpx && dy < oh_mpx {
            proof {
                assert(existing@[i as int] == o);
                assert(abs_val(o.x - x) < cfg.obstacle_width_px * 1000 && abs_val(o.y - y)
                    < cfg.obstacle_height_px * 1000);
                assert(spec_overlaps(
                    existing@,
                    x as int,
                    y as int,
                    cfg.obstacle_width_px as int,
                    cfg.obstacle_height_px as int,
                ));
            }
            return None;
        }
        i = i + 1;
    }
    proof {
        assert(!spec_overlaps(
            existing@,
            x as int,
            y as int,
            cfg.obstacle_width_px as int,
            cfg.obstacle_height_px as int,
        )) by {
            if spec_overlaps(
                existing@,
                x as int,
                y as int,
                cfg.obstacle_width_px as int,
                cfg.obstacle_height_px as int,
            ) {
                let j = choose|j: int|
                    0 <= j < existing@.len() && abs_val(existing@[j].x - x) < cfg.obstacle_width_px
                        * 1000 && abs_val(existing@[j].y - y) < cfg.obstacle_height_px * 1000;
                assert(false);
            }
        }
    }
    Some(ObstaclePlan { obstacle: Obstacle { x, y, speed }, texture_index: if even { 0 } else { 1 } })
}

/// Relies on rand 0.8's `Rng::gen_range` on the thread-local
/// generator: a draw from `0..n` returns a value below `n` (it
/// panics only on an empty range).
#[verifier::external_body]
fn draw_below(n: u32) -> (r: u32)
    requires
        n >= 1,
    ensures
        r < n,
{
    rand::Rng::gen_range(&mut rand::thread_rng(), 0..n)
}

/// One spawner frame: with at most `OBSTACLE_CAP` obstacles on the
/// road, draw a start position, a heading and a lane, and accept the
/// new obstacle unless it would overlap one already there.  The
/// front end spawns a sprite for an accepted plan.
///
/// The draws are random, so no caller can tell ahead which plan (if
/// any) comes back; whatever comes back starts inside the spawn
/// window ahead of the camera, sits on a lane, and overlaps nothing.
pub fn spawn_new_obstacles(
    existing: &Vec<Obstacle>,
    cam_x: i64,
    width_px: u32,
    height_px: u32,
    cfg: &LevelAssets,
) -> (r: Option<ObstaclePlan>)
    requires
        all_obstacles_wf(existing@),
        level_assets_wf(*cfg),
        1 <= width_px <= WINDOW_LIMIT_PX,
        1 <= height_px <= WINDOW_LIMIT_PX,
        -POS_LIMIT_MPX <= cam_x <= POS_LIMIT_MPX,
    ensures
        existing@.len() > OBSTACLE_CAP ==> r is None,
        existing@.len() == 0 ==> r is Some,
        r matches Some(p) ==> {
            &&& !spec_overlaps(
                existing@,
                p.obstacle.x as int,
                p.obstacle.y as int,
                cfg.obstacle_width_px as int,
                cfg.obstacle_height_px as int,
            )
            &&& cam_x + width_px * 1000 + cfg.obstacle_width_px * 500 <= p.obstacle.x
                < cam_x + 2 * width_px * 1000 + cfg.obstacle_width_px * 500
            &&& exists|lane: int|
                0 <= lane < 4 && {
                    let scaled = spec_lane_scaled(
                        #[trigger] cfg.lane_y_mpx@[lane] as int,
                        height_px as int,
                    );
                    ||| {
                        &&& p.obstacle.y == scaled
                        &&& p.obstacle.speed == cfg.obstacle_speed_mpx_s
                        &&& p.texture_index == 0
                    }
                    ||| {
                        &&& p.obstacle.y == -scaled
                        &&& p.obstacle.speed == -(cfg.obstacle_speed_mpx_s as int)
                        &&& p.texture_index == 1
                    }
                }
        },
{
    let x_draw = draw_below(width_px * 1000);
    let parity_draw = draw_below(10);
    let lane_draw = draw_below(4);
    let r = plan_obstacle(existing, cam_x, width_px, height_px, cfg, x_draw, parity_draw, lane_draw);
    proof {
        match r {
            Some(p) => {
                let lane = lane_draw as int;
                assert(0 <= lane < 4);
                assert(0 <= cfg.lane_y_mpx@[lane] <= 1_000_000);
                let lane_mpx = cfg.lane_y_mpx@[lane] as int;
                let h = height_px as int;
                assert(lane_mpx * h <= 100_000_000_000) by (nonlinear_arith)
                    requires
                        0 <= lane_mpx <= 1_000_000,
                        0 <= h <= 100_000,
                ;
                vstd::arithmetic::div_mod::lemma_div_pos_is_pos(lane_mpx * h, 1080);
                vstd::arithmetic::div_mod::lemma_div_nonincreasing(lane_mpx * h, 1080);
                let scaled = spec_lane_scaled(cfg.lane_y_mpx@[lane] as int, height_px as int);
                assert(0 <= scaled <= 100_000_000_000);
                if parity_draw % 2 == 0 {
                    assert(p.obstacle.y == scaled && p.obstacle.speed == cfg.obstacle_speed_mpx_s
                        && p.texture_index == 0);
                } else {
                    assert(p.obstacle.y == -scaled && p.obstacle.speed == -(
                    cfg.obstacle_speed_mpx_s as int) && p.texture_index == 1);
                }
            },
            None => {},
        }
    }
    r
}

} // verus!
