//! The world model: the bodies the demo spawns, the gravity it configures,
//! and the per-frame movement system that writes the player's velocity.
//!
//! Positions, velocities and speeds are whole world units; the physics host
//! owns integration and collision response and only ever hands back updated
//! positions for the same bodies.

use vstd::prelude::*;

use crate::input::velocity_x;
use crate::input::velocity_x_spec;

verus! {

/// A two-dimensional vector in world units.
#[derive(Clone, Copy, Debug, PartialEq, Eq)]
pub struct Vec2 {
    pub x: i64,
    pub y: i64,
}

/// A collision shape, in world units.
#[derive(Clone, Copy, Debug, PartialEq, Eq)]
pub enum Shape {
    Ball { radius: i64 },
    Cuboid { half_x: i64, half_y: i64 },
}

/// Whether a body is simulated. A `Static` body is a bare collider: an
/// immovable boundary that the telemetry report leaves out. A `Dynamic`
/// body is a rigid body whose position the physics host integrates.
#[derive(Clone, Copy, Debug, PartialEq, Eq)]
pub enum BodyKind {
    Static,
    Dynamic,
}

/// One spawned entity: its collision shape, restitution coefficient
/// (1 = perfectly elastic, 0 = no bounce), position and velocity, and, for
/// the keyboard-controlled player, its movement speed.
#[derive(Clone, Copy, Debug, PartialEq, Eq)]
pub struct Body {
    pub kind: BodyKind,
    pub shape: Shape,
    pub restitution: i64,
    pub position: Vec2,
    pub velocity: Vec2,
    /// `Some(speed)` marks the body as keyboard-controlled; the movement
    /// system overwrites its horizontal velocity with the axis times
    /// `speed` each frame.
    pub player_speed: Option<i64>,
}

/// A well-formed body: a player's speed is positive.
pub open spec fn body_wf(b: Body) -> bool {
    match b.player_speed {
        Some(s) => 0 < s,
        None => true,
    }
}

/// The shared entity store: global gravity and every spawned body, indexed
/// by spawn order.
pub struct World {
    pub gravity: Vec2,
    pub bodies: Vec<Body>,
}

impl World {
    /// Every body of the world is well-formed.
    pub open spec fn wf(self) -> bool {
        forall|i: int| 0 <= i < self.bodies@.len() ==> body_wf(self.bodies@[i])
    }

    /// An empty world: no bodies, no gravity yet.
    pub fn new() -> (w: World)
        ensures
            w.wf(),
            w.gravity == zero_vec2(),
            w.bodies@ == Seq::<Body>::empty(),
    {
        World { gravity: Vec2 { x: 0, y: 0 }, bodies: Vec::new() }
    }
}

/// The zero vector.
pub open spec fn zero_vec2() -> Vec2 {
    Vec2 { x: 0, y: 0 }
}

/// The configured gravity: straight down, 600 units per second squared.
pub open spec fn gravity_config() -> Vec2 {
    Vec2 { x: 0, y: -600i64 }
}

/// The ground: a static, perfectly inelastic cuboid boundary below the
/// scene.
pub open spec fn ground_config() -> Body {
    Body {
        kind: BodyKind::Static,
        shape: Shape::Cuboid { half_x: 500, half_y: 50 },
        restitution: 0,
        position: Vec2 { x: 0, y: -200i64 },
        velocity: Vec2 { x: 0, y: 0 },
        player_speed: None,
    }
}

/// The free ball: a dynamic, perfectly elastic body dropped above the
/// ground.
pub open spec fn ball_config() -> Body {
    Body {
        kind: BodyKind::Dynamic,
        shape: Shape::Ball { radius: 75 },
        restitution: 1,
        position: Vec2 { x: 50, y: -75i64 },
        velocity: Vec2 { x: 0, y: 0 },
        player_speed: None,
    }
}

/// The player: a dynamic, perfectly elastic ball that the keyboard steers
/// at speed 100.
pub open spec fn player_config() -> Body {
    Body {
        kind: BodyKind::Dynamic,
        shape: Shape::Ball { radius: 50 },
        restitution: 1,
        position: Vec2 { x: 200, y: -100i64 },
        velocity: Vec2 { x: 0, y: 0 },
        player_speed: Some(100),
    }
}

/// Sets the global gravity and spawns the ground and the free ball.
pub fn setup_physics(w: &mut World)
    requires
        old(w).wf(),
    ensures
        final(w).wf(),
        final(w).gravity == gravity_config(),
        final(w).bodies@ == old(w).bodies@ + seq![ground_config(), ball_config()],
{
    w.gravity = Vec2 { x: 0, y: -600 };
    w.bodies.push(Body {
        kind: BodyKind::Static,
        shape: Shape::Cuboid { half_x: 500, half_y: 50 },
        restitution: 0,
        position: Vec2 { x: 0, y: -200 },
        velocity: Vec2 { x: 0, y: 0 },
        player_speed: None,
    });
    w.bodies.push(Body {
        kind: BodyKind::Dynamic,
        shape: Shape::Ball { radius: 75 },
        restitution: 1,
        position: Vec2 { x: 50, y: -75 },
        velocity: Vec2 { x: 0, y: 0 },
        player_speed: None,
    });
    proof {
        assert(w.bodies@ =~= old(w).bodies@ + seq![ground_config(), ball_config()]);
    }
}

/// Spawns the keyboard-controlled player body.
pub fn setup_character(w: &mut World)
    requires
        old(w).wf(),
    ensures
        final(w).wf(),
        final(w).gravity == old(w).gravity,
        final(w).bodies@ == old(w).bodies@ + seq![player_config()],
{
    w.bodies.push(Body {
        kind: BodyKind::Dynamic,
        shape: Shape::Ball { radius: 50 },
        restitution: 1,
        position: Vec2 { x: 200, y: -100 },
        velocity: Vec2 { x: 0, y: 0 },
        player_speed: Some(100),
    });
    proof {
        assert(w.bodies@ =~= old(w).bodies@ + seq![player_config()]);
    }
}

/// How one movement step changes one body: a player body gets its
/// horizontal velocity overwritten with the axis times its speed, its
/// vertical velocity and every other field untouched; a body without a
/// player speed is untouched.
pub open spec fn moved_body_rel(b0: Body, b1: Body, left: bool, right: bool) -> bool {
    &&& b1.kind == b0.kind
    &&& b1.shape == b0.shape
    &&& b1.restitution == b0.restitution
    &&& b1.position == b0.position
    &&& b1.player_speed == b0.player_speed
    &&& b1.velocity.y == b0.velocity.y
    &&& match b0.player_speed {
        Some(s) => b1.velocity.x as int == velocity_x_spec(left, right, s as int),
        None => b1.velocity.x == b0.velocity.x,
    }
}

/// How one movement step changes the whole body store: body by body, as
/// `moved_body_rel` says.
pub open spec fn moved_rel(before: Seq<Body>, after: Seq<Body>, left: bool, right: bool) -> bool {
    &&& after.len() == before.len()
    &&& forall|i: int|
        0 <= i < before.len() ==> moved_body_rel(before[i], #[trigger] after[i], left, right)
}

/// The movement system: once per frame, overwrites the horizontal velocity
/// of every player body with the axis times its speed. Positions, vertical
/// velocities, non-player bodies and the gravity are left untouched, and
/// the write is a full overwrite, so repeating the call with the same held
/// keys changes nothing more.
pub fn player_movement(w: &mut World, left: bool, right: bool)
    requires
        old(w).wf(),
    ensures
        final(w).wf(),
        final(w).gravity == old(w).gravity,
        moved_rel(old(w).bodies@, final(w).bodies@, left, right),
{
    let ghost s0 = w.bodies@;
    let n = w.bodies.len();
    let mut i: usize = 0;
    while i < n
        invariant
            i <= n,
            n == s0.len(),
            w.bodies@.len() == s0.len(),
            w.gravity == old(w).gravity,
            forall|j: int| 0 <= j < s0.len() ==> body_wf(s0[j]),
            forall|j: int| 0 <= j < i ==> moved_body_rel(s0[j], #[trigger] w.bodies@[j], left, right),
            forall|j: int| i <= j < s0.len() ==> #[trigger] w.bodies@[j] == s0[j],
        decreases n - i,
    {
        let b = w.bodies[i];
        if let Some(speed) = b.player_speed {
            let vx = velocity_x(left, right, speed);
            let moved = Body {
                velocity: Vec2 { x: vx, y: b.velocity.y },
                ..b
            };
            w.bodies.set(i, moved);
        }
        i += 1;
    }
    proof {
        assert forall|j: int| 0 <= j < w.bodies@.len() implies body_wf(w.bodies@[j]) by {
            assert(moved_body_rel(s0[j], w.bodies@[j], left, right));
        }
    }
}

/// Stepping the movement system twice with the same held keys leaves the
/// second step with nothing to change: the commanded velocity replaces the
/// old one instead of accumulating on it.
pub proof fn lemma_movement_idempotent(
    s0: Seq<Body>,
    s1: Seq<Body>,
    s2: Seq<Body>,
    left: bool,
    right: bool,
)
    requires
        moved_rel(s0, s1, left, right),
        moved_rel(s1, s2, left, right),
    ensures
        s2 == s1,
{
    assert forall|i: int| 0 <= i < s1.len() implies s2[i] == s1[i] by {
        assert(moved_body_rel(s0[i], s1[i], left, right));
        assert(moved_body_rel(s1[i], s2[i], left, right));
    }
    assert(s2 =~= s1);
}

} // verus!
