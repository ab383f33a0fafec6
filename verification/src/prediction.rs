//! The two shapes in which a predicted trajectory is handed out.
//!
//! The engine yields one ball per simulated tick. The full shape keeps every
//! one of them with all its fields. The half shape keeps every second one,
//! the first included, and leaves the spin out.

use vstd::prelude::*;
use crate::ball::BallState;

verus! {

/// One point of a trajectory, spin included.
#[derive(Clone, Copy, Debug, PartialEq, Eq)]
pub struct BallSlice {
    pub time: u32,
    pub location: (u32, u32, u32),
    pub velocity: (u32, u32, u32),
    pub angular_velocity: (u32, u32, u32),
}

impl BallSlice {
    /// The slice that shows `ball`.
    pub open spec fn of(ball: BallState) -> Self {
        BallSlice {
            time: ball.time,
            location: ball.location.triple(),
            velocity: ball.velocity.triple(),
            angular_velocity: ball.angular_velocity.triple(),
        }
    }

    /// Shows one ball of the engine as a slice.
    pub fn from_rl_ball_sym(raw_ball: BallState) -> (r: Self)
        ensures
            r == Self::of(raw_ball),
    {
        BallSlice {
            time: raw_ball.time,
            location: raw_ball.location.to_tuple(),
            velocity: raw_ball.velocity.to_tuple(),
            angular_velocity: raw_ball.angular_velocity.to_tuple(),
        }
    }
}

/// One point of a trajectory without its spin.
#[derive(Clone, Copy, Debug, PartialEq, Eq)]
pub struct HalfBallSlice {
    pub time: u32,
    pub location: (u32, u32, u32),
    pub velocity: (u32, u32, u32),
}

impl HalfBallSlice {
    /// The slice that shows `ball` without its spin.
    pub open spec fn of(ball: BallState) -> Self {
        HalfBallSlice {
            time: ball.time,
            location: ball.location.triple(),
            velocity: ball.velocity.triple(),
        }
    }

    /// Shows one ball of the engine as a slice without spin.
    pub fn from_rl_ball_sym(raw_ball: BallState) -> (r: Self)
        ensures
            r == Self::of(raw_ball),
    {
        HalfBallSlice {
            time: raw_ball.time,
            location: raw_ball.location.to_tuple(),
            velocity: raw_ball.velocity.to_tuple(),
        }
    }
}

/// The full shape of a trajectory: one slice for each ball, in order.
pub open spec fn full_slices(raw: Seq<BallState>) -> Seq<BallSlice> {
    Seq::new(raw.len(), |i: int| BallSlice::of(raw[i]))
}

/// The half shape of a trajectory: one slice for each ball at an even index, in order.
pub open spec fn half_slices(raw: Seq<BallState>) -> Seq<HalfBallSlice> {
    Seq::new(((raw.len() + 1) / 2) as nat, |i: int| HalfBallSlice::of(raw[2 * i]))
}

/// A trajectory at full fidelity.
#[derive(Debug, PartialEq, Eq)]
pub struct BallPredictionStruct {
    num_slices: usize,
    slices: Vec<BallSlice>,
}

impl View for BallPredictionStruct {
    type V = Seq<BallSlice>;

    closed spec fn view(&self) -> Seq<BallSlice> {
        self.slices@
    }
}

impl Clone for BallPredictionStruct {
    fn clone(&self) -> (r: Self)
        ensures
            r@ == self@,
    {
        proof {
            use_type_invariant(self);
        }
        let slices: Vec<BallSlice> = self.slices.clone();
        assert(slices@ =~= self.slices@);
        BallPredictionStruct { num_slices: self.num_slices, slices }
    }
}

impl BallPredictionStruct {
    #[verifier::type_invariant]
    spec fn counted(self) -> bool {
        self.num_slices == self.slices@.len()
    }

    /// Shows every ball of a raw trajectory.
    pub fn from_predictions(raw: &Vec<BallState>) -> (r: Self)
        ensures
            r@ == full_slices(raw@),
    {
        let mut slices: Vec<BallSlice> = Vec::new();
        let mut i: usize = 0;
        while i < raw.len()
            invariant
                i <= raw.len(),
                slices@ == full_slices(raw@.take(i as int)),
            decreases raw.len() - i,
        {
            slices.push(BallSlice::from_rl_ball_sym(raw[i]));
            i = i + 1;
            assert(slices@ =~= full_slices(raw@.take(i as int)));
        }
        assert(raw@.take(i as int) =~= raw@);
        BallPredictionStruct { num_slices: slices.len(), slices }
    }

    /// How many slices the trajectory has.
    pub fn num_slices(&self) -> (r: usize)
        ensures
            r == self@.len(),
    {
        proof {
            use_type_invariant(self);
        }
        self.num_slices
    }

    /// The slices in order of time.
    pub fn slices(&self) -> (r: &Vec<BallSlice>)
        ensures
            r@ == self@,
    {
        &self.slices
    }
}

/// A trajectory at half fidelity.
#[derive(Debug, PartialEq, Eq)]
pub struct HalfBallPredictionStruct {
    num_slices: usize,
    slices: Vec<HalfBallSlice>,
}

impl View for HalfBallPredictionStruct {
    type V = Seq<HalfBallSlice>;

    closed spec fn view(&self) -> Seq<HalfBallSlice> {
        self.slices@
    }
}

impl Clone for HalfBallPredictionStruct {
    fn clone(&self) -> (r: Self)
        ensures
            r@ == self@,
    {
        proof {
            use_type_invariant(self);
        }
        let slices: Vec<HalfBallSlice> = self.slices.clone();
        assert(slices@ =~= self.slices@);
        HalfBallPredictionStruct { num_slices: self.num_slices, slices }
    }
}

impl HalfBallPredictionStruct {
    #[verifier::type_invariant]
    spec fn counted(self) -> bool {
        self.num_slices == self.slices@.len()
    }

    /// Shows every second ball of a raw trajectory, starting with the first.
    pub fn from_predictions(raw: &Vec<BallState>) -> (r: Self)
        ensures
            r@ == half_slices(raw@),
    {
        let count: usize = raw.len() - raw.len() / 2;
        let mut slices: Vec<HalfBallSlice> = Vec::new();
        let mut k: usize = 0;
        while k < count
            invariant
                k <= count,
                count == (raw@.len() + 1) / 2,
                raw@.len() <= usize::MAX,
                slices@.len() == k,
                forall|i: int| 0 <= i < k ==> slices@[i] == HalfBallSlice::of(raw@[2 * i]),
            decreases count - k,
        {
            slices.push(HalfBallSlice::from_rl_ball_sym(raw[2 * k]));
            k = k + 1;
        }
        assert(slices@ =~= half_slices(raw@));
        HalfBallPredictionStruct { num_slices: slices.len(), slices }
    }

    /// How many slices the trajectory has.
    pub fn num_slices(&self) -> (r: usize)
        ensures
            r == self@.len(),
    {
        proof {
            use_type_invariant(self);
        }
        self.num_slices
    }

    /// The slices in order of time.
    pub fn slices(&self) -> (r: &Vec<HalfBallSlice>)
        ensures
            r@ == self@,
    {
        &self.slices
    }
}

/// The half shape has half as many slices as the full one, rounded up, and its
/// slice `i` agrees with slice `2 * i` of the full shape in time, location
/// and velocity.
pub proof fn lemma_half_samples_full(raw: Seq<BallState>)
    ensures
        half_slices(raw).len() == (full_slices(raw).len() + 1) / 2,
        forall|i: int|
            #![trigger half_slices(raw)[i]]
            0 <= i < half_slices(raw).len() ==> {
                &&& half_slices(raw)[i].time == full_slices(raw)[2 * i].time
                &&& half_slices(raw)[i].location == full_slices(raw)[2 * i].location
                &&& half_slices(raw)[i].velocity == full_slices(raw)[2 * i].velocity
            },
{
}

} // verus!
