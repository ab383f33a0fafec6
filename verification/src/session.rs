//! The session: one arena setting and one ball, and the calls that change them.
//!
//! The session never runs the physics engine itself. A call that needs the
//! engine comes in two halves. The first half checks the session and hands out
//! a request that says what the engine is to be run on; the second half takes
//! what the engine returned. A step holds the session exclusively between
//! its halves: if the second half never comes, every later call fails until
//! an arena is loaded again.

use vstd::prelude::*;
use crate::arithmetic;
use crate::ball::BallPatch;
use crate::ball::BallState;
use crate::ball::HeatseekerTarget;
use crate::binary32;
use crate::error::SessionError;
use crate::prediction::BallPredictionStruct;
use crate::prediction::BallSlice;
use crate::prediction::HalfBallPredictionStruct;
use crate::prediction::full_slices;
use crate::prediction::half_slices;
use crate::preset::Preset;
use crate::snapshot::RawPacket;
use crate::snapshot::RawPacketView;
use crate::snapshot::shows;
use crate::telemetry::GamePacket;
use crate::telemetry::GameVec;
use crate::telemetry::PacketView;
use crate::telemetry::TickNumbers;

verus! {

/// The pattern of the length of one tick: the hundred-and-twentieth of a second.
pub const TICK_DT: u32 = 0x3c08_8889;

/// The arena a session plays in. Replaced as a whole by each load.
#[derive(Clone, Copy, Debug, PartialEq, Eq, Structural)]
pub struct SimulationContext {
    pub preset: Preset,
    pub gravity: GameVec,
}

/// What a session holds once an arena is loaded.
#[derive(Clone, Copy, Debug, PartialEq, Eq, Structural)]
pub struct Loaded {
    pub context: SimulationContext,
    pub ball: BallState,
}

/// Where a session stands.
#[derive(Clone, Copy, Debug, PartialEq, Eq, Structural)]
pub enum SessionState {
    /// Nothing was loaded yet.
    Uninitialized,
    /// An arena is loaded and no step is under way.
    Ready(Loaded),
    /// A step was begun and the engine's answer is awaited.
    Stepping(Loaded),
    /// An exclusive operation was cut short. Only a load leads out of here.
    Poisoned,
}

/// What the engine is to advance by one tick.
#[derive(Clone, Copy, Debug, PartialEq, Eq, Structural)]
pub struct StepRequest {
    pub context: SimulationContext,
    pub ball: BallState,
    /// Whether the engine is to step by the homing rules.
    pub heatseeker: bool,
    /// The length of the tick, always [`TICK_DT`].
    pub dt: u32,
}

/// How far ahead the engine is to predict.
#[derive(Clone, Copy, Debug, PartialEq, Eq, Structural)]
pub enum Horizon {
    /// As far as the engine predicts when it is given no time.
    Standard,
    /// For this many seconds, a number that is zero or more.
    Seconds(u32),
    /// Not at all: the time asked for was below zero or no number, so the
    /// trajectory has no ball in it and the engine need not be run.
    Empty,
}

impl Horizon {
    /// The horizon for what the caller asked: the standard one where no time
    /// was given, the time given where it is zero or more, else none.
    pub open spec fn of(seconds: Option<u32>) -> Self {
        match seconds {
            None => Horizon::Standard,
            Some(time) => if binary32::at_least(time, 0) {
                Horizon::Seconds(time)
            } else {
                Horizon::Empty
            },
        }
    }

    /// Chooses the horizon for what the caller asked.
    pub fn from_seconds(seconds: Option<u32>) -> (r: Self)
        ensures
            r == Self::of(seconds),
    {
        match seconds {
            None => Horizon::Standard,
            Some(time) => if binary32::ge(time, 0) {
                Horizon::Seconds(time)
            } else {
                Horizon::Empty
            },
        }
    }
}

/// What the engine is to predict a trajectory for.
#[derive(Clone, Copy, Debug, PartialEq, Eq, Structural)]
pub struct PredictionRequest {
    pub context: SimulationContext,
    /// A copy of the ball; the session's own ball is not touched by a prediction.
    pub ball: BallState,
    /// Whether the engine is to predict by the homing rules.
    pub heatseeker: bool,
    pub horizon: Horizon,
}

impl SessionState {
    /// What a call other than a load finds: the loaded state, or the reason
    /// why the call is refused.
    pub open spec fn gate(self) -> Result<Loaded, SessionError> {
        match self {
            SessionState::Uninitialized => Err(SessionError::SessionUninitialized),
            SessionState::Ready(loaded) => Ok(loaded),
            SessionState::Stepping(_) => Err(SessionError::SessionPoisoned),
            SessionState::Poisoned => Err(SessionError::SessionPoisoned),
        }
    }

    /// The state right after a load: ready, with the given arena and ball,
    /// the ball without a goal.
    pub open spec fn after_load(preset: Preset, gravity: GameVec, ball: BallState) -> Self {
        SessionState::Ready(
            Loaded {
                context: SimulationContext { preset, gravity },
                ball: BallState { target: HeatseekerTarget::Neutral, ..ball },
            },
        )
    }

    /// State and answer after a snapshot whose arithmetic gave `numbers`.
    /// A refused snapshot changes nothing.
    pub open spec fn applied(self, packet: PacketView, numbers: TickNumbers) -> (
        Self,
        Result<(), SessionError>,
    ) {
        match self.gate() {
            Err(e) => (self, Err(e)),
            Ok(loaded) => if packet.has_ball() {
                (
                    SessionState::Ready(
                        Loaded {
                            context: packet.context_after(loaded.context),
                            ball: packet.ball_after(
                                loaded.ball,
                                loaded.context.preset.heatseeker(),
                                numbers,
                            ),
                        },
                    ),
                    Ok(()),
                )
            } else {
                (self, Err(SessionError::InvalidTelemetry))
            },
        }
    }

    /// State and answer after a snapshot. A refused snapshot changes nothing.
    pub open spec fn ticked(self, packet: PacketView) -> (Self, Result<(), SessionError>) {
        match self.gate() {
            Err(e) => (self, Err(e)),
            Ok(loaded) => self.applied(packet, packet.numbers_for(loaded.ball.radius)),
        }
    }

    /// What checking a snapshot as it arrived yields. A session that answers
    /// no call refuses the snapshot unread.
    pub open spec fn checked(self, raw: RawPacketView) -> Result<PacketView, SessionError> {
        match self.gate() {
            Err(e) => Err(e),
            Ok(_) => raw.validated(),
        }
    }

    /// State and answer after a snapshot as it arrived: it is checked as a
    /// whole, and only a snapshot that passed is applied.
    pub open spec fn ingested(self, raw: RawPacketView) -> (Self, Result<(), SessionError>) {
        match self.checked(raw) {
            Err(e) => (self, Err(e)),
            Ok(packet) => self.ticked(packet),
        }
    }

    /// State and answer after gravity was set as a whole.
    pub open spec fn with_gravity(self, gravity: GameVec) -> (Self, Result<(), SessionError>) {
        match self.gate() {
            Err(e) => (self, Err(e)),
            Ok(loaded) => (
                SessionState::Ready(
                    Loaded { context: SimulationContext { gravity, ..loaded.context }, ..loaded },
                ),
                Ok(()),
            ),
        }
    }

    /// State and answer after a partial update of the ball.
    pub open spec fn with_ball(self, patch: BallPatch) -> (Self, Result<(), SessionError>) {
        match self.gate() {
            Err(e) => (self, Err(e)),
            Ok(loaded) => (
                SessionState::Ready(Loaded { ball: loaded.ball.patched(patch), ..loaded }),
                Ok(()),
            ),
        }
    }

    /// The request that a step hands to the engine.
    pub open spec fn step_request(loaded: Loaded) -> StepRequest {
        StepRequest {
            context: loaded.context,
            ball: loaded.ball,
            heatseeker: loaded.context.preset.heatseeker(),
            dt: TICK_DT,
        }
    }

    /// State and answer after a step was begun.
    pub open spec fn step_begun(self) -> (Self, Result<StepRequest, SessionError>) {
        match self.gate() {
            Err(e) => (self, Err(e)),
            Ok(loaded) => (SessionState::Stepping(loaded), Ok(Self::step_request(loaded))),
        }
    }

    /// The ball after a step: the engine's, with the clock of the old ball
    /// put forward by one tick.
    pub open spec fn stepped_ball(old: BallState, next: BallState) -> BallState {
        BallState { time: arithmetic::sum(old.time, TICK_DT), ..next }
    }

    /// State and answer after the engine's ball came back. Where no step was
    /// under way the answer is an error, and a session that was ready is
    /// poisoned: somebody lost count of its steps.
    pub open spec fn step_finished(self, next: BallState) -> (Self, Result<BallSlice, SessionError>) {
        match self {
            SessionState::Stepping(loaded) => (
                SessionState::Ready(
                    Loaded { ball: Self::stepped_ball(loaded.ball, next), ..loaded },
                ),
                Ok(BallSlice::of(Self::stepped_ball(loaded.ball, next))),
            ),
            SessionState::Uninitialized => (self, Err(SessionError::SessionUninitialized)),
            SessionState::Ready(_) => (
                SessionState::Poisoned,
                Err(SessionError::SessionPoisoned),
            ),
            SessionState::Poisoned => (self, Err(SessionError::SessionPoisoned)),
        }
    }

    /// The answer to asking for a prediction. The state never changes.
    pub open spec fn prediction_request(self, seconds: Option<u32>) -> Result<
        PredictionRequest,
        SessionError,
    > {
        match self.gate() {
            Err(e) => Err(e),
            Ok(loaded) => Ok(
                PredictionRequest {
                    context: loaded.context,
                    ball: loaded.ball,
                    heatseeker: loaded.context.preset.heatseeker(),
                    horizon: Horizon::of(seconds),
                },
            ),
        }
    }
}

/// A prediction session. It starts out uninitialized.
#[derive(Debug)]
pub struct Session {
    state: SessionState,
}

impl View for Session {
    type V = SessionState;

    closed spec fn view(&self) -> SessionState {
        self.state
    }
}

impl Session {
    /// A session with nothing loaded.
    pub fn new() -> (r: Self)
        ensures
            r@ == SessionState::Uninitialized,
    {
        Session { state: SessionState::Uninitialized }
    }

    /// Where the session stands.
    pub fn state(&self) -> (r: SessionState)
        ensures
            r == self@,
    {
        self.state
    }

    /// Arena and ball, or the reason why the session answers no call but a load.
    pub fn loaded(&self) -> (r: Result<Loaded, SessionError>)
        ensures
            r == self@.gate(),
    {
        match self.state {
            SessionState::Uninitialized => Err(SessionError::SessionUninitialized),
            SessionState::Ready(loaded) => Ok(loaded),
            SessionState::Stepping(_) => Err(SessionError::SessionPoisoned),
            SessionState::Poisoned => Err(SessionError::SessionPoisoned),
        }
    }

    /// Loads an arena. Arena and ball are replaced together, the ball loses
    /// its goal, and whatever state the session was in is forgotten.
    /// `gravity` and `ball` are the engine's defaults for `preset`.
    pub fn load(&mut self, preset: Preset, gravity: GameVec, ball: BallState)
        ensures
            final(self)@ == SessionState::after_load(preset, gravity, ball),
    {
        let mut fresh: BallState = ball;
        fresh.reset_heatseeker_target();
        self.state = SessionState::Ready(
            Loaded { context: SimulationContext { preset, gravity }, ball: fresh },
        );
    }

    /// Marks the session as cut short in the middle of an exclusive operation.
    pub fn poison(&mut self)
        ensures
            final(self)@ == SessionState::Poisoned,
    {
        self.state = SessionState::Poisoned;
    }

    /// Checks a snapshot as it arrived. A session that answers no call refuses
    /// the snapshot unread; otherwise the snapshot is checked as a whole.
    pub fn validate(&self, raw: &RawPacket) -> (r: Result<GamePacket, SessionError>)
        ensures
            shows(r, self@.checked(raw@)),
    {
        match self.loaded() {
            Err(e) => Err(e),
            Ok(_) => raw.validate(),
        }
    }

    /// Applies a snapshot whose arithmetic gave `numbers`. The snapshot is
    /// looked at before anything is written, so a refused snapshot leaves the
    /// session as it was.
    pub fn apply(&mut self, packet: &GamePacket, numbers: &TickNumbers) -> (r: Result<
        (),
        SessionError,
    >)
        ensures
            (final(self)@, r) == old(self)@.applied(packet@, *numbers),
    {
        let loaded: Loaded = self.loaded()?;
        if packet.balls.len() == 0 {
            return Err(SessionError::InvalidTelemetry);
        }
        let mut context: SimulationContext = loaded.context;
        let mut ball: BallState = loaded.ball;
        packet.export_to_game(&mut context);
        packet.export_to_ball(&mut ball, loaded.context.preset.is_heatseeker(), numbers);
        self.state = SessionState::Ready(Loaded { context, ball });
        Ok(())
    }

    /// Takes one snapshot: works out its numbers and applies it.
    pub fn tick(&mut self, packet: &GamePacket) -> (r: Result<(), SessionError>)
        ensures
            (final(self)@, r) == old(self)@.ticked(packet@),
    {
        let loaded: Loaded = self.loaded()?;
        if packet.balls.len() == 0 {
            return Err(SessionError::InvalidTelemetry);
        }
        let numbers: TickNumbers = packet.numbers(loaded.ball.radius);
        self.apply(packet, &numbers)
    }

    /// Takes one snapshot as it arrived: checks it as a whole, then applies
    /// it. Nothing is written before the whole snapshot has passed.
    pub fn ingest(&mut self, raw: &RawPacket) -> (r: Result<(), SessionError>)
        ensures
            (final(self)@, r) == old(self)@.ingested(raw@),
    {
        let packet: GamePacket = self.validate(raw)?;
        self.tick(&packet)
    }

    /// Replaces gravity as a whole.
    pub fn set_gravity(&mut self, gravity: GameVec) -> (r: Result<(), SessionError>)
        ensures
            (final(self)@, r) == old(self)@.with_gravity(gravity),
    {
        let loaded: Loaded = self.loaded()?;
        self.state = SessionState::Ready(
            Loaded {
                context: SimulationContext { preset: loaded.context.preset, gravity },
                ball: loaded.ball,
            },
        );
        Ok(())
    }

    /// Replaces those fields of the ball that `patch` holds.
    pub fn set_ball(&mut self, patch: &BallPatch) -> (r: Result<(), SessionError>)
        ensures
            (final(self)@, r) == old(self)@.with_ball(*patch),
    {
        let loaded: Loaded = self.loaded()?;
        let mut ball: BallState = loaded.ball;
        ball.apply(patch);
        self.state = SessionState::Ready(Loaded { context: loaded.context, ball });
        Ok(())
    }

    /// First half of a step: takes the session exclusively and says what the
    /// engine is to advance, by which rules, and by how much.
    pub fn begin_step(&mut self) -> (r: Result<StepRequest, SessionError>)
        ensures
            (final(self)@, r) == old(self)@.step_begun(),
    {
        let loaded: Loaded = self.loaded()?;
        self.state = SessionState::Stepping(loaded);
        Ok(
            StepRequest {
                context: loaded.context,
                ball: loaded.ball,
                heatseeker: loaded.context.preset.is_heatseeker(),
                dt: TICK_DT,
            },
        )
    }

    /// Second half of a step: stores the ball that the engine returned,
    /// releases the session and shows the new ball. The clock is the
    /// session's own: the new time is the old time plus one tick, whatever
    /// time the engine's ball shows.
    pub fn finish_step(&mut self, next: BallState) -> (r: Result<BallSlice, SessionError>)
        ensures
            (final(self)@, r) == old(self)@.step_finished(next),
    {
        match self.state {
            SessionState::Stepping(loaded) => {
                let mut ball: BallState = next;
                ball.time = arithmetic::add(loaded.ball.time, TICK_DT);
                self.state = SessionState::Ready(Loaded { context: loaded.context, ball });
                Ok(BallSlice::from_rl_ball_sym(ball))
            },
            SessionState::Uninitialized => Err(SessionError::SessionUninitialized),
            SessionState::Ready(_) => {
                self.state = SessionState::Poisoned;
                Err(SessionError::SessionPoisoned)
            },
            SessionState::Poisoned => Err(SessionError::SessionPoisoned),
        }
    }

    /// First half of a prediction: says what the engine is to predict from
    /// and how far, by [`Horizon::of`].
    pub fn prediction_request(&self, seconds: Option<u32>) -> (r: Result<
        PredictionRequest,
        SessionError,
    >)
        ensures
            r == self@.prediction_request(seconds),
    {
        let loaded: Loaded = self.loaded()?;
        Ok(
            PredictionRequest {
                context: loaded.context,
                ball: loaded.ball,
                heatseeker: loaded.context.preset.is_heatseeker(),
                horizon: Horizon::from_seconds(seconds),
            },
        )
    }

    /// Second half of a prediction at half fidelity: every second ball of
    /// the engine's trajectory, the first included, without spin.
    pub fn get_ball_prediction_struct(&self, raw: &Vec<BallState>) -> (r: Result<
        HalfBallPredictionStruct,
        SessionError,
    >)
        ensures
            match self@.gate() {
                Err(e) => r is Err && r->Err_0 == e,
                Ok(_) => r is Ok && r->Ok_0@ == half_slices(raw@),
            },
    {
        match self.loaded() {
            Err(e) => Err(e),
            Ok(_) => Ok(HalfBallPredictionStruct::from_predictions(raw)),
        }
    }

    /// Second half of a prediction at full fidelity: every ball of the
    /// engine's trajectory with all its fields.
    pub fn get_ball_prediction_struct_full(&self, raw: &Vec<BallState>) -> (r: Result<
        BallPredictionStruct,
        SessionError,
    >)
        ensures
            match self@.gate() {
                Err(e) => r is Err && r->Err_0 == e,
                Ok(_) => r is Ok && r->Ok_0@ == full_slices(raw@),
            },
    {
        match self.loaded() {
            Err(e) => Err(e),
            Ok(_) => Ok(BallPredictionStruct::from_predictions(raw)),
        }
    }
}

} // verus!
