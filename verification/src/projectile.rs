//! A small projectile simulation: a position advanced by a velocity that
//! gravity and wind wear down, sampled until the projectile falls below
//! ground level or the step budget runs out.

use vstd::prelude::*;
use crate::fixed::{fxmul, lemma_fxmul_bound, sabs, SCALE};
use crate::tuples;
use crate::tuples::{tuple_bounded, Tuple};

verus! {

/// The most simulation steps one flight may take.
pub const MAX_STEPS: usize = 4096;

/// Something moving: where it is and how fast.
#[derive(Debug, Copy, Clone)]
pub struct Projectile {
    pub position: Tuple,
    pub velocity: Tuple,
}

/// What acts on a projectile each step.
#[derive(Debug, Copy, Clone)]
pub struct Environment {
    pub gravity: Tuple,
    pub wind: Tuple,
}

/// The flight's starting state: launch from the origin, up and to the
/// right at 30 and 50 units per second.
pub open spec fn proj_start() -> Projectile {
    Projectile {
        position: Tuple { x: 0i64, y: 0i64, z: 0i64, w: SCALE },
        velocity: Tuple { x: 1966080i64, y: 3276800i64, z: 0i64, w: 0i64 },
    }
}

/// The fixed surroundings: gravity of 9.8 units per second squared and a
/// slight headwind.
pub open spec fn proj_env() -> Environment {
    Environment {
        gravity: Tuple { x: 0i64, y: -642253i64, z: 0i64, w: 0i64 },
        wind: Tuple { x: -786i64, y: -328i64, z: 0i64, w: 0i64 },
    }
}

/// One simulation step at `dt` of a hundredth of a second: the position
/// advances by `dt` times the velocity; the velocity gains `dt` times
/// gravity and then the wind.
pub open spec fn proj_step(p: Projectile) -> Projectile {
    let dt = 655int;
    let g = proj_env().gravity;
    let w = proj_env().wind;
    Projectile {
        position: Tuple {
            x: (p.position.x + fxmul(dt, p.velocity.x as int)) as i64,
            y: (p.position.y + fxmul(dt, p.velocity.y as int)) as i64,
            z: (p.position.z + fxmul(dt, p.velocity.z as int)) as i64,
            w: (p.position.w + fxmul(dt, p.velocity.w as int)) as i64,
        },
        velocity: Tuple {
            x: (p.velocity.x + fxmul(dt, g.x as int) + w.x) as i64,
            y: (p.velocity.y + fxmul(dt, g.y as int) + w.y) as i64,
            z: (p.velocity.z + fxmul(dt, g.z as int) + w.z) as i64,
            w: (p.velocity.w + fxmul(dt, g.w as int) + w.w) as i64,
        },
    }
}

/// The state after `n` steps from the start.
pub open spec fn proj_state(n: nat) -> Projectile
    decreases n,
{
    if n == 0 {
        proj_start()
    } else {
        proj_step(proj_state((n - 1) as nat))
    }
}

/// The positions of one flight, sampled each step while the projectile is
/// at or above ground level, within the step budget.
pub fn projectile_vec() -> (r: Vec<Tuple>)
    ensures
        r@.len() <= MAX_STEPS,
        forall|i: int|
            0 <= i < r@.len() ==> #[trigger] r@[i] == proj_state(i as nat).position && proj_state(
                i as nat,
            ).position.y >= 0,
        r@.len() < MAX_STEPS ==> proj_state(r@.len() as nat).position.y < 0,
{
    let mut projectile = Projectile {
        position: tuples::point(0, 0, 0),
        velocity: tuples::vector(1966080, 3276800, 0),
    };
    let environ1 = Environment {
        gravity: tuples::vector(0, -642253, 0),
        wind: tuples::vector(-786, -328, 0),
    };
    let dt: i64 = 655;
    let mut positions_vec: Vec<Tuple> = Vec::new();
    let mut steps: usize = 0;
    while projectile.position.y >= 0 && steps < MAX_STEPS
        invariant
            steps <= MAX_STEPS,
            positions_vec@.len() == steps,
            projectile == proj_state(steps as nat),
            environ1.gravity == proj_env().gravity,
            environ1.wind == proj_env().wind,
            dt == 655,
            forall|i: int|
                0 <= i < steps ==> #[trigger] positions_vec@[i] == proj_state(i as nat).position
                    && proj_state(i as nat).position.y >= 0,
            tuple_bounded(projectile.velocity, 3276800 + 6747 * (steps as int)),
            tuple_bounded(projectile.position, (SCALE as int) + 524288 * (steps as int)),
        decreases MAX_STEPS - steps,
    {
        positions_vec.push(projectile.position);
        proof {
            assert(tuple_bounded(projectile.velocity, 30912512));
            lemma_fxmul_bound(655, projectile.velocity.x as int, 655, 30912512);
            lemma_fxmul_bound(655, projectile.velocity.y as int, 655, 30912512);
            lemma_fxmul_bound(655, projectile.velocity.z as int, 655, 30912512);
            lemma_fxmul_bound(655, projectile.velocity.w as int, 655, 30912512);
            assert(fxmul(655, 0) == 0);
            assert(fxmul(655, -642253) == -6419);
        }
        projectile.position = tuples::add(
            projectile.position,
            tuples::multiply(dt, projectile.velocity),
        );
        projectile.velocity = tuples::add(
            projectile.velocity,
            tuples::multiply(dt, environ1.gravity),
        );
        projectile.velocity = tuples::add(projectile.velocity, environ1.wind);
        steps = steps + 1;
        proof {
            assert(projectile == proj_step(proj_state((steps - 1) as nat)));
            assert(projectile == proj_state(steps as nat));
        }
    }
    positions_vec
}

} // verus!
