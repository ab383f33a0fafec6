//! A snapshot as it arrives, before anything is known to be present.
//!
//! Whoever reads the live game fills in what it finds and leaves the rest
//! empty. [`RawPacket::validate`] then checks the whole snapshot at once and
//! yields a [`GamePacket`] in which nothing is missing. Nothing of the
//! session is touched while a snapshot is checked.

use vstd::prelude::*;
use crate::error::SessionError;
use crate::telemetry::BallTouch;
use crate::telemetry::GameBall;
use crate::telemetry::GameBox;
use crate::telemetry::GameCollisionShape;
use crate::telemetry::GameCollisionShapeUnion;
use crate::telemetry::GameCylinder;
use crate::telemetry::GameInfo;
use crate::telemetry::GamePacket;
use crate::telemetry::GamePhysics;
use crate::telemetry::GameSphere;
use crate::telemetry::GameVec;
use crate::telemetry::PacketView;

verus! {

/// The tag of a box.
pub const SHAPE_BOX: i32 = 0;

/// The tag of a sphere.
pub const SHAPE_SPHERE: i32 = 1;

/// The tag of a cylinder.
pub const SHAPE_CYLINDER: i32 = 2;

/// A collision shape as it arrives: a tag, and a body for each shape that
/// the sender filled in. Only the body that the tag names is read.
#[derive(Clone, Copy, Debug, PartialEq, Eq, Structural)]
pub struct RawShape {
    pub kind: Option<i32>,
    pub cuboid: Option<GameBox>,
    pub sphere: Option<GameSphere>,
    pub cylinder: Option<GameCylinder>,
}

#[derive(Clone, Copy, Debug, PartialEq, Eq, Structural)]
pub struct RawPhysics {
    pub location: Option<GameVec>,
    pub velocity: Option<GameVec>,
    pub angular_velocity: Option<GameVec>,
}

/// A ball as it arrives. The last touch may be left out.
#[derive(Clone, Copy, Debug, PartialEq, Eq, Structural)]
pub struct RawBall {
    pub physics: Option<RawPhysics>,
    pub latest_touch: Option<BallTouch>,
    pub shape: RawShape,
}

#[derive(Clone, Copy, Debug, PartialEq, Eq, Structural)]
pub struct RawGameInfo {
    pub seconds_elapsed: Option<u32>,
    pub world_gravity_z: Option<u32>,
}

/// A snapshot as it arrives: the game's clock and gravity, and either one
/// ball or a list of balls.
#[derive(Clone, Debug, PartialEq, Eq)]
pub struct RawPacket {
    pub game_info: Option<RawGameInfo>,
    pub game_ball: Option<RawBall>,
    pub balls: Vec<RawBall>,
}

impl RawShape {
    /// The shape that the tag names, with its body. A tag that is missing or
    /// names no shape is an unknown shape; a named shape without its body is
    /// a missing field.
    pub open spec fn resolved(self) -> Result<GameCollisionShapeUnion, SessionError> {
        if self.kind == Some(SHAPE_BOX) {
            match self.cuboid {
                Some(cuboid) => Ok(GameCollisionShapeUnion::Box(cuboid)),
                None => Err(SessionError::InvalidTelemetry),
            }
        } else if self.kind == Some(SHAPE_SPHERE) {
            match self.sphere {
                Some(sphere) => Ok(GameCollisionShapeUnion::Sphere(sphere)),
                None => Err(SessionError::InvalidTelemetry),
            }
        } else if self.kind == Some(SHAPE_CYLINDER) {
            match self.cylinder {
                Some(cylinder) => Ok(GameCollisionShapeUnion::Cylinder(cylinder)),
                None => Err(SessionError::InvalidTelemetry),
            }
        } else {
            Err(SessionError::UnknownShapeType)
        }
    }

    /// Resolves the tag to one of the three shapes.
    pub fn resolve(&self) -> (r: Result<GameCollisionShapeUnion, SessionError>)
        ensures
            r == self.resolved(),
    {
        match self.kind {
            Some(kind) => {
                if kind == SHAPE_BOX {
                    match self.cuboid {
                        Some(cuboid) => Ok(GameCollisionShapeUnion::Box(cuboid)),
                        None => Err(SessionError::InvalidTelemetry),
                    }
                } else if kind == SHAPE_SPHERE {
                    match self.sphere {
                        Some(sphere) => Ok(GameCollisionShapeUnion::Sphere(sphere)),
                        None => Err(SessionError::InvalidTelemetry),
                    }
                } else if kind == SHAPE_CYLINDER {
                    match self.cylinder {
                        Some(cylinder) => Ok(GameCollisionShapeUnion::Cylinder(cylinder)),
                        None => Err(SessionError::InvalidTelemetry),
                    }
                } else {
                    Err(SessionError::UnknownShapeType)
                }
            },
            None => Err(SessionError::UnknownShapeType),
        }
    }
}

impl RawPhysics {
    /// The physics with all three vectors, if all three are there.
    pub open spec fn complete(self) -> Option<GamePhysics> {
        if self.location is Some && self.velocity is Some && self.angular_velocity is Some {
            Some(
                GamePhysics {
                    location: self.location->0,
                    velocity: self.velocity->0,
                    angular_velocity: self.angular_velocity->0,
                },
            )
        } else {
            None
        }
    }
}

/// The touch of a ball that nobody touched yet.
pub open spec fn no_touch() -> BallTouch {
    BallTouch { game_seconds: 0, team: 0 }
}

impl RawBall {
    /// The ball with nothing missing. Physics is looked at first, then the
    /// shape. A ball without a last touch counts as never touched.
    pub open spec fn validated(self) -> Result<GameBall, SessionError> {
        if self.physics is None || self.physics->0.complete() is None {
            Err(SessionError::InvalidTelemetry)
        } else {
            match self.shape.resolved() {
                Err(e) => Err(e),
                Ok(item) => Ok(
                    GameBall {
                        physics: self.physics->0.complete()->0,
                        latest_touch: if self.latest_touch is Some {
                            self.latest_touch->0
                        } else {
                            no_touch()
                        },
                        shape: GameCollisionShape { item },
                    },
                ),
            }
        }
    }

    /// Checks one ball.
    pub fn validate(&self) -> (r: Result<GameBall, SessionError>)
        ensures
            r == self.validated(),
    {
        let physics: GamePhysics = match self.physics {
            Some(RawPhysics {
                location: Some(location),
                velocity: Some(velocity),
                angular_velocity: Some(angular_velocity),
            }) => GamePhysics { location, velocity, angular_velocity },
            _ => {
                return Err(SessionError::InvalidTelemetry);
            },
        };
        let item: GameCollisionShapeUnion = self.shape.resolve()?;
        let latest_touch: BallTouch = match self.latest_touch {
            Some(touch) => touch,
            None => BallTouch { game_seconds: 0, team: 0 },
        };
        Ok(GameBall { physics, latest_touch, shape: GameCollisionShape { item } })
    }
}

impl RawGameInfo {
    /// Clock and gravity, if both are there.
    pub open spec fn complete(self) -> Option<GameInfo> {
        if self.seconds_elapsed is Some && self.world_gravity_z is Some {
            Some(
                GameInfo {
                    seconds_elapsed: self.seconds_elapsed->0,
                    world_gravity_z: self.world_gravity_z->0,
                },
            )
        } else {
            None
        }
    }
}

/// The balls of a list with nothing missing, or the error of the first ball
/// that fails the check.
pub open spec fn validated_balls(balls: Seq<RawBall>) -> Result<Seq<GameBall>, SessionError>
    decreases balls.len(),
{
    if balls.len() == 0 {
        Ok(Seq::empty())
    } else {
        match validated_balls(balls.drop_last()) {
            Err(e) => Err(e),
            Ok(checked) => match balls.last().validated() {
                Err(e) => Err(e),
                Ok(ball) => Ok(checked.push(ball)),
            },
        }
    }
}

/// What a snapshot as it arrived says, with its list of balls as a sequence.
#[verifier::ext_equal]
pub struct RawPacketView {
    pub game_info: Option<RawGameInfo>,
    pub game_ball: Option<RawBall>,
    pub balls: Seq<RawBall>,
}

impl View for RawPacket {
    type V = RawPacketView;

    open spec fn view(&self) -> RawPacketView {
        RawPacketView { game_info: self.game_info, game_ball: self.game_ball, balls: self.balls@ }
    }
}

impl RawPacketView {
    /// The balls that the snapshot speaks of: the single ball where there is
    /// one, the list otherwise.
    pub open spec fn given_balls(self) -> Seq<RawBall> {
        match self.game_ball {
            Some(ball) => seq![ball],
            None => self.balls,
        }
    }

    /// The snapshot with nothing missing. Clock and gravity are looked at
    /// first, then the balls in order; the first fault found is the error.
    /// A snapshot without any ball lacks a field.
    pub open spec fn validated(self) -> Result<PacketView, SessionError> {
        if self.game_info is None || self.game_info->0.complete() is None {
            Err(SessionError::InvalidTelemetry)
        } else if self.given_balls().len() == 0 {
            Err(SessionError::InvalidTelemetry)
        } else {
            match validated_balls(self.given_balls()) {
                Err(e) => Err(e),
                Ok(balls) => Ok(PacketView { game_info: self.game_info->0.complete()->0, balls }),
            }
        }
    }
}

/// Whether the outcome `r` of a check shows what `expected` says: the same
/// error, or a snapshot that says the same.
pub open spec fn shows(
    r: Result<GamePacket, SessionError>,
    expected: Result<PacketView, SessionError>,
) -> bool {
    match expected {
        Err(e) => r is Err && r->Err_0 == e,
        Ok(packet) => r is Ok && r->Ok_0@ == packet,
    }
}

impl RawPacket {
    /// Checks the whole snapshot.
    pub fn validate(&self) -> (r: Result<GamePacket, SessionError>)
        ensures
            shows(r, self@.validated()),
    {
        let game_info: GameInfo = match self.game_info {
            Some(RawGameInfo {
                seconds_elapsed: Some(seconds_elapsed),
                world_gravity_z: Some(world_gravity_z),
            }) => GameInfo { seconds_elapsed, world_gravity_z },
            _ => {
                return Err(SessionError::InvalidTelemetry);
            },
        };
        let mut balls: Vec<GameBall> = Vec::new();
        match self.game_ball {
            Some(single) => {
                assert(validated_balls(seq![single].drop_last()) == Ok::<
                    Seq<GameBall>,
                    SessionError,
                >(Seq::empty()));
                let ball: GameBall = single.validate()?;
                balls.push(ball);
                assert(balls@ =~= Seq::<GameBall>::empty().push(ball));
            },
            None => {
                if self.balls.len() == 0 {
                    return Err(SessionError::InvalidTelemetry);
                }
                let mut i: usize = 0;
                while i < self.balls.len()
                    invariant
                        i <= self.balls.len(),
                        self.game_ball is None,
                        self.game_info is Some,
                        self.game_info->0.complete() == Some(game_info),
                        validated_balls(self.balls@.take(i as int)) == Ok::<
                            Seq<GameBall>,
                            SessionError,
                        >(balls@),
                    decreases self.balls.len() - i,
                {
                    let ghost seen: Seq<RawBall> = self.balls@.take(i + 1);
                    assert(seen.drop_last() =~= self.balls@.take(i as int));
                    assert(seen.last() == self.balls@[i as int]);
                    match self.balls[i].validate() {
                        Err(e) => {
                            proof {
                                lemma_fault_stays(seen, self.balls@);
                            }
                            return Err(e);
                        },
                        Ok(ball) => {
                            balls.push(ball);
                        },
                    }
                    i = i + 1;
                }
                assert(self.balls@.take(i as int) =~= self.balls@);
            },
        }
        Ok(GamePacket { game_info, balls })
    }
}

/// A fault among the first balls of a list is the fault of the whole list.
pub proof fn lemma_fault_stays(head: Seq<RawBall>, all: Seq<RawBall>)
    requires
        head.len() <= all.len(),
        head =~= all.take(head.len() as int),
        validated_balls(head) is Err,
    ensures
        validated_balls(all) == validated_balls(head),
    decreases all.len(),
{
    if head.len() < all.len() {
        assert(head =~= all.drop_last().take(head.len() as int));
        lemma_fault_stays(head, all.drop_last());
    } else {
        assert(head =~= all);
    }
}

} // verus!
