use ball_session::ball::{BallState, HeatseekerTarget};
use ball_session::prediction::{
    BallPredictionStruct, BallSlice, HalfBallPredictionStruct, HalfBallSlice,
};
use ball_session::telemetry::GameVec;

fn vector(x: f32, y: f32, z: f32) -> GameVec {
    GameVec { x: x.to_bits(), y: y.to_bits(), z: z.to_bits() }
}

fn ball_at(index: usize) -> BallState {
    let t = index as f32;
    BallState {
        time: (t / 120.0).to_bits(),
        location: vector(t, 2.0 * t, 100.0 + t),
        velocity: vector(-t, 0.5 * t, 3.0),
        angular_velocity: vector(0.1 * t, 0.0, -t),
        radius: 91.25f32.to_bits(),
        target: HeatseekerTarget::Neutral,
    }
}

fn trajectory(len: usize) -> Vec<BallState> {
    (0..len).map(ball_at).collect()
}

#[test]
fn a_slice_shows_the_ball() {
    let ball = ball_at(7);
    let slice = BallSlice::from_rl_ball_sym(ball);
    assert_eq!(slice.time, (7.0f32 / 120.0).to_bits());
    assert_eq!(slice.location, (7.0f32.to_bits(), 14.0f32.to_bits(), 107.0f32.to_bits()));
    assert_eq!(slice.velocity, ((-7.0f32).to_bits(), 3.5f32.to_bits(), 3.0f32.to_bits()));
    assert_eq!(
        slice.angular_velocity,
        ((0.1f32 * 7.0).to_bits(), 0.0f32.to_bits(), (-7.0f32).to_bits())
    );
}

#[test]
fn a_half_slice_shows_the_ball_without_spin() {
    let ball = ball_at(7);
    let slice = HalfBallSlice::from_rl_ball_sym(ball);
    assert_eq!(
        slice,
        HalfBallSlice {
            time: (7.0f32 / 120.0).to_bits(),
            location: (7.0f32.to_bits(), 14.0f32.to_bits(), 107.0f32.to_bits()),
            velocity: ((-7.0f32).to_bits(), 3.5f32.to_bits(), 3.0f32.to_bits()),
        }
    );
}

#[test]
fn a_vector_hands_out_its_components_in_order() {
    assert_eq!(
        vector(1.0, -2.0, 3.5).to_tuple(),
        (1.0f32.to_bits(), (-2.0f32).to_bits(), 3.5f32.to_bits())
    );
}

#[test]
fn full_fidelity_keeps_every_ball() {
    let raw = trajectory(9);
    let full = BallPredictionStruct::from_predictions(&raw);
    assert_eq!(full.num_slices(), 9);
    assert_eq!(full.slices().len(), 9);
    for (i, slice) in full.slices().iter().enumerate() {
        assert_eq!(*slice, BallSlice::from_rl_ball_sym(raw[i]));
    }
}

#[test]
fn half_fidelity_keeps_every_second_ball_from_the_first() {
    let raw = trajectory(9);
    let half = HalfBallPredictionStruct::from_predictions(&raw);
    assert_eq!(half.num_slices(), 5);
    assert_eq!(half.slices().len(), 5);
    for (i, slice) in half.slices().iter().enumerate() {
        assert_eq!(*slice, HalfBallSlice::from_rl_ball_sym(raw[2 * i]));
    }
    assert_eq!(half.slices()[0].time, raw[0].time);
    assert_eq!(half.slices()[4].time, raw[8].time);
}

#[test]
fn half_count_is_half_the_full_count_rounded_up() {
    for len in [0usize, 1, 2, 3, 4, 5, 10, 11, 719, 720, 721] {
        let raw = trajectory(len);
        let full = BallPredictionStruct::from_predictions(&raw);
        let half = HalfBallPredictionStruct::from_predictions(&raw);
        assert_eq!(full.num_slices(), len);
        assert_eq!(half.num_slices(), (len + 1) / 2);
        assert_eq!(half.num_slices(), half.slices().len());
        for i in 0..half.num_slices() {
            assert_eq!(half.slices()[i].time, full.slices()[2 * i].time);
            assert_eq!(half.slices()[i].location, full.slices()[2 * i].location);
            assert_eq!(half.slices()[i].velocity, full.slices()[2 * i].velocity);
        }
    }
}

#[test]
fn an_empty_trajectory_gives_empty_predictions() {
    let raw = trajectory(0);
    assert_eq!(BallPredictionStruct::from_predictions(&raw).num_slices(), 0);
    assert!(BallPredictionStruct::from_predictions(&raw).slices().is_empty());
    assert_eq!(HalfBallPredictionStruct::from_predictions(&raw).num_slices(), 0);
    assert!(HalfBallPredictionStruct::from_predictions(&raw).slices().is_empty());
}

#[test]
fn a_single_ball_is_kept_at_both_fidelities() {
    let raw = trajectory(1);
    assert_eq!(BallPredictionStruct::from_predictions(&raw).num_slices(), 1);
    let half = HalfBallPredictionStruct::from_predictions(&raw);
    assert_eq!(half.num_slices(), 1);
    assert_eq!(half.slices()[0], HalfBallSlice::from_rl_ball_sym(raw[0]));
}

#[test]
fn the_same_trajectory_gives_the_same_prediction() {
    let raw = trajectory(12);
    assert_eq!(
        BallPredictionStruct::from_predictions(&raw),
        BallPredictionStruct::from_predictions(&raw)
    );
    assert_eq!(
        HalfBallPredictionStruct::from_predictions(&raw),
        HalfBallPredictionStruct::from_predictions(&raw)
    );
}

#[test]
fn a_copy_of_a_prediction_shows_the_same() {
    let raw = trajectory(5);
    let full = BallPredictionStruct::from_predictions(&raw);
    let half = HalfBallPredictionStruct::from_predictions(&raw);
    assert_eq!(full.clone(), full);
    assert_eq!(half.clone(), half);
    assert_eq!(full.clone().num_slices(), 5);
    assert_eq!(half.clone().slices().len(), 3);
}
