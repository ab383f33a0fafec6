//! What holds of a session whatever it is asked, stated over
//! [`SessionState`] and proved.

use vstd::prelude::*;
use crate::arithmetic;
use crate::ball::BallPatch;
use crate::ball::BallState;
use crate::ball::HeatseekerTarget;
use crate::ball::TOUCH_WINDOW;
use crate::binary32;
use crate::error::SessionError;
use crate::prediction::BallSlice;
use crate::prediction::full_slices;
use crate::prediction::half_slices;
use crate::preset::Preset;
use crate::session::Loaded;
use crate::session::SessionState;
use crate::session::TICK_DT;
use crate::snapshot::RawBall;
use crate::snapshot::RawPacketView;
use crate::snapshot::validated_balls;
use crate::telemetry::PacketView;
use crate::telemetry::GameVec;
use crate::telemetry::TickNumbers;

verus! {

/// Before anything is loaded every call fails as uninitialized and the
/// session stays as it is.
pub proof fn lemma_nothing_loaded_refuses_all(
    raw: RawPacketView,
    packet: PacketView,
    numbers: TickNumbers,
    gravity: GameVec,
    patch: BallPatch,
    next: BallState,
    seconds: Option<u32>,
)
    ensures
        SessionState::Uninitialized.gate() == Err::<Loaded, SessionError>(
            SessionError::SessionUninitialized,
        ),
        SessionState::Uninitialized.checked(raw) == Err::<PacketView, SessionError>(
            SessionError::SessionUninitialized,
        ),
        SessionState::Uninitialized.ingested(raw) == (
            SessionState::Uninitialized,
            Err::<(), SessionError>(SessionError::SessionUninitialized),
        ),
        SessionState::Uninitialized.ticked(packet) == (
            SessionState::Uninitialized,
            Err::<(), SessionError>(SessionError::SessionUninitialized),
        ),
        SessionState::Uninitialized.applied(packet, numbers) == (
            SessionState::Uninitialized,
            Err::<(), SessionError>(SessionError::SessionUninitialized),
        ),
        SessionState::Uninitialized.with_gravity(gravity) == (
            SessionState::Uninitialized,
            Err::<(), SessionError>(SessionError::SessionUninitialized),
        ),
        SessionState::Uninitialized.with_ball(patch) == (
            SessionState::Uninitialized,
            Err::<(), SessionError>(SessionError::SessionUninitialized),
        ),
        SessionState::Uninitialized.step_begun().0 == SessionState::Uninitialized,
        SessionState::Uninitialized.step_begun().1 is Err,
        SessionState::Uninitialized.step_begun().1->Err_0 == SessionError::SessionUninitialized,
        SessionState::Uninitialized.step_finished(next).0 == SessionState::Uninitialized,
        SessionState::Uninitialized.step_finished(next).1 is Err,
        SessionState::Uninitialized.step_finished(next).1->Err_0
            == SessionError::SessionUninitialized,
        SessionState::Uninitialized.prediction_request(seconds) is Err,
        SessionState::Uninitialized.prediction_request(seconds)->Err_0
            == SessionError::SessionUninitialized,
{
}

/// A snapshot, a new gravity, a patch of the ball or the start of a step
/// that is refused leaves the session exactly as it was.
pub proof fn lemma_refused_call_changes_nothing(
    state: SessionState,
    raw: RawPacketView,
    packet: PacketView,
    numbers: TickNumbers,
    gravity: GameVec,
    patch: BallPatch,
)
    ensures
        state.ingested(raw).1 is Err ==> state.ingested(raw).0 == state,
        state.ticked(packet).1 is Err ==> state.ticked(packet).0 == state,
        state.applied(packet, numbers).1 is Err ==> state.applied(packet, numbers).0 == state,
        state.with_gravity(gravity).1 is Err ==> state.with_gravity(gravity).0 == state,
        state.with_ball(patch).1 is Err ==> state.with_ball(patch).0 == state,
        state.step_begun().1 is Err ==> state.step_begun().0 == state,
{
}

/// A ready session refuses a snapshot as it arrived exactly when the check
/// of the snapshot finds a fault, with the error of that fault, and is then
/// left as it was. A snapshot without the vertical gravity is such a one,
/// and its fault is invalid telemetry.
pub proof fn lemma_malformed_snapshot_is_refused(loaded: Loaded, raw: RawPacketView)
    ensures
        raw.validated() is Ok ==> SessionState::Ready(loaded).ingested(raw).1 is Ok,
        raw.validated() is Err ==> SessionState::Ready(loaded).ingested(raw) == (
            SessionState::Ready(loaded),
            Err::<(), SessionError>(raw.validated()->Err_0),
        ),
        raw.game_info is Some && raw.game_info->0.world_gravity_z is None ==> raw.validated()
            == Err::<PacketView, SessionError>(SessionError::InvalidTelemetry),
        raw.game_info is None ==> raw.validated() == Err::<PacketView, SessionError>(
            SessionError::InvalidTelemetry,
        ),
{
    if raw.validated() is Ok {
        let packet = raw.validated()->Ok_0;
        assert(packet.balls.len() > 0) by {
            lemma_checked_balls_keep_their_count(raw.given_balls());
        }
    }
}

/// A list of balls that passes the check yields as many balls as it held.
pub proof fn lemma_checked_balls_keep_their_count(balls: Seq<RawBall>)
    ensures
        validated_balls(balls) is Ok ==> validated_balls(balls)->Ok_0.len() == balls.len(),
    decreases balls.len(),
{
    if balls.len() > 0 {
        lemma_checked_balls_keep_their_count(balls.drop_last());
    }
}

/// A ready session refuses a checked snapshot exactly when the snapshot
/// holds no ball, and then as invalid telemetry.
pub proof fn lemma_snapshot_without_ball_is_invalid(
    loaded: Loaded,
    packet: PacketView,
    numbers: TickNumbers,
)
    ensures
        SessionState::Ready(loaded).ticked(packet).1 is Err <==> !packet.has_ball(),
        !packet.has_ball() ==> SessionState::Ready(loaded).ticked(packet) == (
            SessionState::Ready(loaded),
            Err::<(), SessionError>(SessionError::InvalidTelemetry),
        ),
        SessionState::Ready(loaded).applied(packet, numbers).1 is Err <==> !packet.has_ball(),
        !packet.has_ball() ==> SessionState::Ready(loaded).applied(packet, numbers) == (
            SessionState::Ready(loaded),
            Err::<(), SessionError>(SessionError::InvalidTelemetry),
        ),
{
}

/// A load leads to a ready session from wherever the session stood.
pub proof fn lemma_load_makes_ready(preset: Preset, gravity: GameVec, ball: BallState)
    ensures
        SessionState::after_load(preset, gravity, ball).gate() is Ok,
        SessionState::after_load(preset, gravity, ball).gate()->Ok_0.context.preset == preset,
        SessionState::after_load(preset, gravity, ball).gate()->Ok_0.context.gravity == gravity,
        SessionState::after_load(preset, gravity, ball).gate()->Ok_0.ball.target
            == HeatseekerTarget::Neutral,
{
}

/// A step that was begun and is then finished leaves a ready session whose
/// arena is the old one and whose ball is the engine's but for the clock,
/// which stands one tick after the old ball's; and it shows that ball.
/// The engine was asked to advance the old ball by one tick.
pub proof fn lemma_step_replaces_ball(loaded: Loaded, next: BallState)
    ensures
        SessionState::Ready(loaded).step_begun().1 is Ok,
        SessionState::Ready(loaded).step_begun().1->Ok_0.ball == loaded.ball,
        SessionState::Ready(loaded).step_begun().1->Ok_0.dt == TICK_DT,
        SessionState::Ready(loaded).step_begun().1->Ok_0.heatseeker
            == loaded.context.preset.heatseeker(),
        SessionState::Ready(loaded).step_begun().0.step_finished(next) == (
            SessionState::Ready(
                Loaded {
                    ball: BallState { time: arithmetic::sum(loaded.ball.time, TICK_DT), ..next },
                    ..loaded
                },
            ),
            Ok::<BallSlice, SessionError>(
                BallSlice::of(
                    BallState { time: arithmetic::sum(loaded.ball.time, TICK_DT), ..next },
                ),
            ),
        ),
{
}

/// The time `steps` ticks after `time`: one tick added after the other.
pub open spec fn clock_after(time: u32, steps: nat) -> u32
    decreases steps,
{
    if steps == 0 {
        time
    } else {
        arithmetic::sum(clock_after(time, (steps - 1) as nat), TICK_DT)
    }
}

/// The session after one whole step for each ball of `engine`, each step
/// begun and then finished with the ball that the engine returned for it.
pub open spec fn after_steps(state: SessionState, engine: Seq<BallState>) -> SessionState
    decreases engine.len(),
{
    if engine.len() == 0 {
        state
    } else {
        after_steps(state, engine.drop_last()).step_begun().0.step_finished(engine.last()).0
    }
}

/// Steps taken one after the other on a ready session, with no snapshot and
/// no load between them, leave it ready and put its clock forward by one
/// tick each, whatever the engine returned; the arena stays.
pub proof fn lemma_steps_advance_the_clock(loaded: Loaded, engine: Seq<BallState>)
    ensures
        after_steps(SessionState::Ready(loaded), engine).gate() is Ok,
        after_steps(SessionState::Ready(loaded), engine).gate()->Ok_0.ball.time == clock_after(
            loaded.ball.time,
            engine.len(),
        ),
        after_steps(SessionState::Ready(loaded), engine).gate()->Ok_0.context == loaded.context,
    decreases engine.len(),
{
    if engine.len() > 0 {
        lemma_steps_advance_the_clock(loaded, engine.drop_last());
    }
}

/// While a step is begun and not finished, every call but its second half
/// fails as poisoned and changes nothing.
pub proof fn lemma_unfinished_step_poisons(
    loaded: Loaded,
    raw: RawPacketView,
    packet: PacketView,
    numbers: TickNumbers,
    gravity: GameVec,
    patch: BallPatch,
    seconds: Option<u32>,
)
    ensures
        SessionState::Stepping(loaded).ingested(raw) == (
            SessionState::Stepping(loaded),
            Err::<(), SessionError>(SessionError::SessionPoisoned),
        ),
        SessionState::Stepping(loaded).ticked(packet) == (
            SessionState::Stepping(loaded),
            Err::<(), SessionError>(SessionError::SessionPoisoned),
        ),
        SessionState::Stepping(loaded).applied(packet, numbers) == (
            SessionState::Stepping(loaded),
            Err::<(), SessionError>(SessionError::SessionPoisoned),
        ),
        SessionState::Stepping(loaded).with_gravity(gravity) == (
            SessionState::Stepping(loaded),
            Err::<(), SessionError>(SessionError::SessionPoisoned),
        ),
        SessionState::Stepping(loaded).with_ball(patch) == (
            SessionState::Stepping(loaded),
            Err::<(), SessionError>(SessionError::SessionPoisoned),
        ),
        SessionState::Stepping(loaded).step_begun().0 == SessionState::Stepping(loaded),
        SessionState::Stepping(loaded).step_begun().1 is Err,
        SessionState::Stepping(loaded).step_begun().1->Err_0 == SessionError::SessionPoisoned,
        SessionState::Stepping(loaded).prediction_request(seconds) is Err,
        SessionState::Stepping(loaded).prediction_request(seconds)->Err_0
            == SessionError::SessionPoisoned,
{
}

/// A prediction reads the session and writes nothing. What the engine is
/// asked depends on arena, ball and the time asked for alone, and what is
/// shown depends on the engine's trajectory alone. So of two predictions with
/// no snapshot, step or load between them the second asks what the first
/// asked, and where the engine answers the same, shows what the first showed.
pub proof fn lemma_prediction_repeats(
    first: SessionState,
    second: SessionState,
    seconds: Option<u32>,
    first_raw: Seq<BallState>,
    second_raw: Seq<BallState>,
)
    requires
        first == second,
        first_raw == second_raw,
    ensures
        first.prediction_request(seconds) == second.prediction_request(seconds),
        full_slices(first_raw) == full_slices(second_raw),
        half_slices(first_raw) == half_slices(second_raw),
        first.prediction_request(seconds) is Ok ==> {
            &&& first.prediction_request(seconds)->Ok_0.ball == first.gate()->Ok_0.ball
            &&& first.prediction_request(seconds)->Ok_0.context == first.gate()->Ok_0.context
        },
{
}

/// A snapshot that is accepted sets clock, location and velocities of the
/// ball and the vertical gravity to its own, and leaves the arena otherwise.
/// The ball takes the snapshot's radius where the two radii lie further
/// apart than epsilon, and keeps its own where they do not.
pub proof fn lemma_snapshot_is_applied(loaded: Loaded, packet: PacketView)
    requires
        packet.has_ball(),
    ensures
        SessionState::Ready(loaded).ticked(packet).1 is Ok,
        SessionState::Ready(loaded).ticked(packet).0.gate() is Ok,
        ({
            let numbers = packet.numbers_for(loaded.ball.radius);
            let after = SessionState::Ready(loaded).ticked(packet).0.gate()->Ok_0;
            &&& after.context.preset == loaded.context.preset
            &&& after.context.gravity.x == loaded.context.gravity.x
            &&& after.context.gravity.y == loaded.context.gravity.y
            &&& after.context.gravity.z == packet.game_info.world_gravity_z
            &&& after.ball.time == packet.game_info.seconds_elapsed
            &&& after.ball.location == packet.ball().physics.location
            &&& after.ball.velocity == packet.ball().physics.velocity
            &&& after.ball.angular_velocity == packet.ball().physics.angular_velocity
            &&& numbers.radius == packet.ball().shape.item.radius()
            &&& numbers.radius_change == arithmetic::difference(
                loaded.ball.radius,
                numbers.radius,
            )
            &&& after.ball.radius == if binary32::more(
                binary32::magnitude(numbers.radius_change),
                binary32::EPSILON,
            ) {
                numbers.radius
            } else {
                loaded.ball.radius
            }
        }),
{
}

/// Under the homing rules a ball that was never touched has no goal after a
/// snapshot, whatever goal it had.
pub proof fn lemma_untouched_ball_has_no_goal(loaded: Loaded, packet: PacketView)
    requires
        loaded.context.preset.heatseeker(),
        packet.has_ball(),
        binary32::less(packet.ball().latest_touch.game_seconds, binary32::EPSILON),
    ensures
        SessionState::Ready(loaded).ticked(packet).0.gate() is Ok,
        SessionState::Ready(loaded).ticked(packet).0.gate()->Ok_0.ball.target
            == HeatseekerTarget::Neutral,
{
}

/// Under the homing rules a ball that was touched, and whose touch lies less
/// than the window before the snapshot, is sent to the blue goal by a touch
/// of team 1 and to the orange goal by any other.
pub proof fn lemma_fresh_touch_sets_goal(loaded: Loaded, packet: PacketView)
    requires
        loaded.context.preset.heatseeker(),
        packet.has_ball(),
        !binary32::less(packet.ball().latest_touch.game_seconds, binary32::EPSILON),
        binary32::less(
            arithmetic::difference(
                packet.game_info.seconds_elapsed,
                packet.ball().latest_touch.game_seconds,
            ),
            TOUCH_WINDOW,
        ),
    ensures
        SessionState::Ready(loaded).ticked(packet).0.gate() is Ok,
        SessionState::Ready(loaded).ticked(packet).0.gate()->Ok_0.ball.target
            == HeatseekerTarget::toward(packet.ball().latest_touch.team == 1),
{
}

/// Outside the homing rules no snapshot moves the goal.
pub proof fn lemma_goal_moves_only_when_homing(loaded: Loaded, packet: PacketView)
    requires
        !loaded.context.preset.heatseeker(),
        packet.has_ball(),
    ensures
        SessionState::Ready(loaded).ticked(packet).0.gate() is Ok,
        SessionState::Ready(loaded).ticked(packet).0.gate()->Ok_0.ball.target
            == loaded.ball.target,
{
}

} // verus!
