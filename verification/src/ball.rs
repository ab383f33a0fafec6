//! The ball as the session keeps it, and the goal it homes in on.

use vstd::prelude::*;
use crate::binary32;
use crate::telemetry::GameVec;

verus! {

/// The pattern of 4820, the distance from midfield beyond which a homing ball
/// is given a new goal.
pub const FIELD_LENGTH: u32 = 0x4596_a000;

/// The pattern of 0.1, the seconds for which a touch counts as fresh.
pub const TOUCH_WINDOW: u32 = 0x3dcc_cccd;

/// The goal a homing ball is drawn to.
#[derive(Clone, Copy, Debug, PartialEq, Eq, Structural)]
pub enum HeatseekerTarget {
    /// No goal: the ball flies as an ordinary ball.
    Neutral,
    /// The goal on the side of negative `y`.
    BlueGoal,
    /// The goal on the side of positive `y`.
    OrangeGoal,
}

impl HeatseekerTarget {
    /// The target that names the blue goal or the orange one.
    pub open spec fn toward(blue_goal: bool) -> Self {
        if blue_goal {
            HeatseekerTarget::BlueGoal
        } else {
            HeatseekerTarget::OrangeGoal
        }
    }

    /// The target whose goal line lies at the coordinate `y`:
    /// blue below zero, orange above, none at zero or where `y` is no number.
    pub open spec fn of_goal_y(y: u32) -> Self {
        if binary32::is_nan(y) || binary32::is_zero(y) {
            HeatseekerTarget::Neutral
        } else {
            Self::toward(binary32::has_sign(y))
        }
    }

    /// The target after one snapshot of a homing ball, by the first rule that applies:
    /// a ball never touched has no goal; a ball touched within the window is sent
    /// away from the team that touched it; a ball without a goal, or one past the
    /// field length, follows the direction it already travels in; any other keeps
    /// its goal.
    pub open spec fn after_snapshot(
        self,
        touch_seconds: u32,
        touch_age: u32,
        team: u8,
        location_y: u32,
        velocity_y: u32,
    ) -> Self {
        if binary32::less(touch_seconds, binary32::EPSILON) {
            HeatseekerTarget::Neutral
        } else if binary32::less(touch_age, TOUCH_WINDOW) {
            Self::toward(team == 1)
        } else if self == HeatseekerTarget::Neutral || binary32::at_least(
            binary32::magnitude(location_y),
            FIELD_LENGTH,
        ) {
            Self::toward(binary32::is_negative(velocity_y))
        } else {
            self
        }
    }

    /// Names the blue goal or the orange one.
    pub fn aimed_at(blue_goal: bool) -> (r: Self)
        ensures
            r == Self::toward(blue_goal),
    {
        if blue_goal {
            HeatseekerTarget::BlueGoal
        } else {
            HeatseekerTarget::OrangeGoal
        }
    }

    /// Reads the target off the `y` coordinate of the goal line it stands for.
    pub fn from_goal_y(y: u32) -> (r: Self)
        ensures
            r == Self::of_goal_y(y),
    {
        if binary32::nan(y) || binary32::zero(y) {
            HeatseekerTarget::Neutral
        } else {
            Self::aimed_at(y >= binary32::SIGN)
        }
    }

    /// Tells whether no goal is set.
    pub fn is_neutral(&self) -> (r: bool)
        ensures
            r == (*self == HeatseekerTarget::Neutral),
    {
        matches!(self, HeatseekerTarget::Neutral)
    }

    /// Applies the rules of [`Self::after_snapshot`] to one snapshot.
    pub fn next(
        &self,
        touch_seconds: u32,
        touch_age: u32,
        team: u8,
        location_y: u32,
        velocity_y: u32,
    ) -> (r: Self)
        ensures
            r == self.after_snapshot(touch_seconds, touch_age, team, location_y, velocity_y),
    {
        if binary32::lt(touch_seconds, binary32::EPSILON) {
            HeatseekerTarget::Neutral
        } else if binary32::lt(touch_age, TOUCH_WINDOW) {
            Self::aimed_at(team == 1)
        } else if self.is_neutral() || binary32::ge(binary32::abs(location_y), FIELD_LENGTH) {
            Self::aimed_at(binary32::negative(velocity_y))
        } else {
            *self
        }
    }
}

/// Everything the session knows of the ball. Numbers are binary32 bit patterns.
#[derive(Clone, Copy, Debug, PartialEq, Eq, Structural)]
pub struct BallState {
    /// Game time of the last update, in seconds.
    pub time: u32,
    pub location: GameVec,
    pub velocity: GameVec,
    pub angular_velocity: GameVec,
    /// Size of the ball. Whatever the engine derives from it is derived anew
    /// each time the engine is handed this state, so it is never stale.
    pub radius: u32,
    /// The goal the ball homes in on, if any.
    pub target: HeatseekerTarget,
}

/// A partial update of the ball: each field that is present replaces the ball's.
#[derive(Clone, Copy, Debug, PartialEq, Eq, Structural)]
pub struct BallPatch {
    pub time: Option<u32>,
    pub location: Option<GameVec>,
    pub velocity: Option<GameVec>,
    pub angular_velocity: Option<GameVec>,
    pub radius: Option<u32>,
}

impl BallState {
    /// The ball after everything that changes from tick to tick was replaced.
    pub open spec fn updated(
        self,
        time: u32,
        location: GameVec,
        velocity: GameVec,
        angular_velocity: GameVec,
    ) -> Self {
        BallState { time, location, velocity, angular_velocity, ..self }
    }

    /// The ball after the present fields of `patch` replaced its own.
    pub open spec fn patched(self, patch: BallPatch) -> Self {
        BallState {
            time: if patch.time is Some { patch.time->0 } else { self.time },
            location: if patch.location is Some { patch.location->0 } else { self.location },
            velocity: if patch.velocity is Some { patch.velocity->0 } else { self.velocity },
            angular_velocity: if patch.angular_velocity is Some {
                patch.angular_velocity->0
            } else {
                self.angular_velocity
            },
            radius: if patch.radius is Some { patch.radius->0 } else { self.radius },
            target: self.target,
        }
    }

    /// Replaces time, location and both velocities; size and target stay.
    pub fn update(
        &mut self,
        time: u32,
        location: GameVec,
        velocity: GameVec,
        angular_velocity: GameVec,
    )
        ensures
            *final(self) == old(self).updated(time, location, velocity, angular_velocity),
    {
        self.time = time;
        self.location = location;
        self.velocity = velocity;
        self.angular_velocity = angular_velocity;
    }

    /// Gives the ball a new size.
    pub fn set_radius(&mut self, radius: u32)
        ensures
            *final(self) == (BallState { radius, ..*old(self) }),
    {
        self.radius = radius;
    }

    /// Sends the ball toward the blue goal or the orange one.
    pub fn set_heatseeker_target(&mut self, blue_goal: bool)
        ensures
            *final(self) == (BallState {
                target: HeatseekerTarget::toward(blue_goal),
                ..*old(self)
            }),
    {
        self.target = HeatseekerTarget::aimed_at(blue_goal);
    }

    /// Takes the ball's goal away.
    pub fn reset_heatseeker_target(&mut self)
        ensures
            *final(self) == (BallState { target: HeatseekerTarget::Neutral, ..*old(self) }),
    {
        self.target = HeatseekerTarget::Neutral;
    }

    /// Replaces each field of the ball that `patch` holds.
    pub fn apply(&mut self, patch: &BallPatch)
        ensures
            *final(self) == old(self).patched(*patch),
    {
        if let Some(time) = patch.time {
            self.time = time;
        }
        if let Some(location) = patch.location {
            self.location = location;
        }
        if let Some(velocity) = patch.velocity {
            self.velocity = velocity;
        }
        if let Some(angular_velocity) = patch.angular_velocity {
            self.angular_velocity = angular_velocity;
        }
        if let Some(radius) = patch.radius {
            self.radius = radius;
        }
    }
}

} // verus!
