//! What a workout consists of, given how intense it is meant to be.

use vstd::prelude::*;

verus! {

/// The parts of one day's workout.
#[derive(Debug, PartialEq, Eq, Structural)]
pub enum Plan {
    /// Push-ups first, then sets on the bench.
    Strength { pushups: u32, bench_sets: u32 },
    /// A day off.
    Rest,
    /// A run, in minutes.
    Cardio { minutes: u32 },
}

/// The plan for a day: strength below an intensity of 25; otherwise a day off when the random
/// number is 3, and a run when it is not. Every number in the plan is the intensity itself.
pub open spec fn spec_workout(intensity: u32, random_number: u32) -> Plan {
    if intensity < 25 {
        Plan::Strength { pushups: intensity, bench_sets: intensity }
    } else if random_number == 3 {
        Plan::Rest
    } else {
        Plan::Cardio { minutes: intensity }
    }
}

/// Chooses the day's plan.
pub fn workout(intensity: u32, random_number: u32) -> (plan: Plan)
    ensures
        plan == spec_workout(intensity, random_number),
{
    if intensity < 25 {
        Plan::Strength { pushups: intensity, bench_sets: intensity }
    } else if random_number == 3 {
        Plan::Rest
    } else {
        Plan::Cardio { minutes: intensity }
    }
}

/// The number after `x`, for every `x` that has one in `u32`.
pub fn add_one_v1(x: u32) -> (y: u32)
    requires
        x < u32::MAX,
    ensures
        y == x + 1,
{
    x + 1
}

} // verus!
