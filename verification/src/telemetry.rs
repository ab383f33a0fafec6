//! One snapshot of the live game, and what it does to the session's state.
//!
//! Every number is the bit pattern of a binary32 value. A snapshot calls for
//! three results of arithmetic, gathered in [`TickNumbers`]: what is done
//! with them is done by functions that take them as an argument.

use vstd::prelude::*;
use crate::arithmetic;
use crate::ball::BallState;
use crate::ball::HeatseekerTarget;
use crate::binary32;
use crate::session::SimulationContext;

verus! {

/// A vector of three numbers.
#[derive(Clone, Copy, Debug, PartialEq, Eq, Structural)]
pub struct GameVec {
    pub x: u32,
    pub y: u32,
    pub z: u32,
}

impl GameVec {
    /// The three components in order.
    pub open spec fn triple(self) -> (u32, u32, u32) {
        (self.x, self.y, self.z)
    }

    /// Hands out the three components in order.
    pub fn to_tuple(&self) -> (r: (u32, u32, u32))
        ensures
            r == self.triple(),
    {
        (self.x, self.y, self.z)
    }
}

#[derive(Clone, Copy, Debug, PartialEq, Eq, Structural)]
pub struct GameSphere {
    pub diameter: u32,
}

#[derive(Clone, Copy, Debug, PartialEq, Eq, Structural)]
pub struct GameBox {
    pub length: u32,
    pub width: u32,
    pub height: u32,
}

#[derive(Clone, Copy, Debug, PartialEq, Eq, Structural)]
pub struct GameCylinder {
    pub diameter: u32,
    pub height: u32,
}

/// The shape the game collides the ball as.
#[derive(Clone, Copy, Debug, PartialEq, Eq, Structural)]
pub enum GameCollisionShapeUnion {
    Box(GameBox),
    Sphere(GameSphere),
    Cylinder(GameCylinder),
}

impl GameCollisionShapeUnion {
    /// The radius of the ball: a sixth of the three edges of a box added up
    /// in the order length, width, height; half the diameter of a sphere or
    /// of a cylinder, whatever the cylinder's height.
    pub open spec fn radius(self) -> u32 {
        match self {
            GameCollisionShapeUnion::Box(cuboid) => arithmetic::quotient(
                arithmetic::sum(arithmetic::sum(cuboid.length, cuboid.width), cuboid.height),
                arithmetic::SIX,
            ),
            GameCollisionShapeUnion::Sphere(sphere) => arithmetic::quotient(
                sphere.diameter,
                arithmetic::TWO,
            ),
            GameCollisionShapeUnion::Cylinder(cylinder) => arithmetic::quotient(
                cylinder.diameter,
                arithmetic::TWO,
            ),
        }
    }

    /// Works out the radius of the ball.
    pub fn get_radius(&self) -> (r: u32)
        ensures
            r == self.radius(),
    {
        match self {
            GameCollisionShapeUnion::Box(cuboid) => arithmetic::divide(
                arithmetic::add(arithmetic::add(cuboid.length, cuboid.width), cuboid.height),
                arithmetic::SIX,
            ),
            GameCollisionShapeUnion::Sphere(sphere) => arithmetic::divide(
                sphere.diameter,
                arithmetic::TWO,
            ),
            GameCollisionShapeUnion::Cylinder(cylinder) => arithmetic::divide(
                cylinder.diameter,
                arithmetic::TWO,
            ),
        }
    }
}

#[derive(Clone, Copy, Debug, PartialEq, Eq, Structural)]
pub struct GameCollisionShape {
    pub item: GameCollisionShapeUnion,
}

#[derive(Clone, Copy, Debug, PartialEq, Eq, Structural)]
pub struct GamePhysics {
    pub location: GameVec,
    pub velocity: GameVec,
    pub angular_velocity: GameVec,
}

/// The last touch of the ball. A time of zero means that nobody touched it yet.
#[derive(Clone, Copy, Debug, PartialEq, Eq, Structural)]
pub struct BallTouch {
    pub game_seconds: u32,
    pub team: u8,
}

#[derive(Clone, Copy, Debug, PartialEq, Eq, Structural)]
pub struct GameBall {
    pub physics: GamePhysics,
    pub latest_touch: BallTouch,
    pub shape: GameCollisionShape,
}

#[derive(Clone, Copy, Debug, PartialEq, Eq, Structural)]
pub struct GameInfo {
    pub seconds_elapsed: u32,
    pub world_gravity_z: u32,
}

/// A snapshot in which nothing is missing. The session follows its first ball.
#[derive(Clone, Debug, PartialEq, Eq)]
pub struct GamePacket {
    pub game_info: GameInfo,
    pub balls: Vec<GameBall>,
}

/// The results of the arithmetic that a snapshot calls for.
#[derive(Clone, Copy, Debug, PartialEq, Eq, Structural)]
pub struct TickNumbers {
    /// The radius of the snapshot's ball.
    pub radius: u32,
    /// Radius of the session's ball minus radius of the snapshot's ball.
    pub radius_change: u32,
    /// Time of the snapshot minus time of the last touch.
    pub touch_age: u32,
}

impl TickNumbers {
    /// Whether the two radii lie further apart than [`binary32::EPSILON`],
    /// so that the ball has to be resized.
    pub open spec fn resizes(self) -> bool {
        binary32::more(binary32::magnitude(self.radius_change), binary32::EPSILON)
    }
}

/// What a snapshot says: clock and gravity, and the balls in order.
#[verifier::ext_equal]
pub struct PacketView {
    pub game_info: GameInfo,
    pub balls: Seq<GameBall>,
}

impl View for GamePacket {
    type V = PacketView;

    open spec fn view(&self) -> PacketView {
        PacketView { game_info: self.game_info, balls: self.balls@ }
    }
}

impl PacketView {
    /// Whether the snapshot holds the ball that the session follows.
    pub open spec fn has_ball(self) -> bool {
        self.balls.len() > 0
    }

    /// The ball that the session follows.
    pub open spec fn ball(self) -> GameBall
        recommends
            self.has_ball(),
    {
        self.balls[0]
    }

    /// The numbers that the snapshot calls for when the session's ball has
    /// the radius `current_radius`.
    pub open spec fn numbers_for(self, current_radius: u32) -> TickNumbers
        recommends
            self.has_ball(),
    {
        let radius = self.ball().shape.item.radius();
        TickNumbers {
            radius,
            radius_change: arithmetic::difference(current_radius, radius),
            touch_age: arithmetic::difference(
                self.game_info.seconds_elapsed,
                self.ball().latest_touch.game_seconds,
            ),
        }
    }

    /// The arena setting after the snapshot: the vertical part of gravity is
    /// the snapshot's, all else stays.
    pub open spec fn context_after(self, context: SimulationContext) -> SimulationContext {
        SimulationContext {
            gravity: GameVec { z: self.game_info.world_gravity_z, ..context.gravity },
            ..context
        }
    }

    /// The ball after the snapshot. Time, location and velocities are the
    /// snapshot's. The radius is the snapshot's where it differs from the
    /// ball's by more than epsilon. The target moves only under the homing
    /// rules, by [`HeatseekerTarget::after_snapshot`].
    pub open spec fn ball_after(self, ball: BallState, heatseeker: bool, numbers: TickNumbers) -> BallState
        recommends
            self.has_ball(),
    {
        let physics = self.ball().physics;
        let touch = self.ball().latest_touch;
        BallState {
            time: self.game_info.seconds_elapsed,
            location: physics.location,
            velocity: physics.velocity,
            angular_velocity: physics.angular_velocity,
            radius: if numbers.resizes() {
                numbers.radius
            } else {
                ball.radius
            },
            target: if heatseeker {
                ball.target.after_snapshot(
                    touch.game_seconds,
                    numbers.touch_age,
                    touch.team,
                    physics.location.y,
                    physics.velocity.y,
                )
            } else {
                ball.target
            },
        }
    }

}

impl GamePacket {
    /// Works out the numbers that the snapshot calls for when the session's
    /// ball has the radius `current_radius`.
    pub fn numbers(&self, current_radius: u32) -> (r: TickNumbers)
        requires
            self@.has_ball(),
        ensures
            r == self@.numbers_for(current_radius),
    {
        let radius: u32 = self.balls[0].shape.item.get_radius();
        TickNumbers {
            radius,
            radius_change: arithmetic::subtract(current_radius, radius),
            touch_age: arithmetic::subtract(
                self.game_info.seconds_elapsed,
                self.balls[0].latest_touch.game_seconds,
            ),
        }
    }

    /// Writes the snapshot's vertical gravity into the arena setting.
    pub fn export_to_game(&self, game: &mut SimulationContext)
        ensures
            *final(game) == self@.context_after(*old(game)),
    {
        game.gravity.z = self.game_info.world_gravity_z;
    }

    /// Brings `ball` up to the snapshot: the update, the resize where the
    /// radius moved, and under the homing rules the choice of a goal.
    pub fn export_to_ball(&self, ball: &mut BallState, heatseeker: bool, numbers: &TickNumbers)
        requires
            self@.has_ball(),
        ensures
            *final(ball) == self@.ball_after(*old(ball), heatseeker, *numbers),
    {
        let first: &GameBall = &self.balls[0];
        ball.update(
            self.game_info.seconds_elapsed,
            first.physics.location,
            first.physics.velocity,
            first.physics.angular_velocity,
        );

        if binary32::gt(binary32::abs(numbers.radius_change), binary32::EPSILON) {
            ball.set_radius(numbers.radius);
        }

        if !heatseeker {
            return ;
        }

        let target: HeatseekerTarget = ball.target.next(
            first.latest_touch.game_seconds,
            numbers.touch_age,
            first.latest_touch.team,
            first.physics.location.y,
            first.physics.velocity.y,
        );
        ball.target = target;
    }
}

} // verus!
