//! `POST /v1/cleaning/start` and `POST /v1/cleaning/stop`.
use vstd::prelude::*;
use crate::hal::RobotState;
use crate::server::handlers::Reply;

verus! {

/// Cleaning may only start when the robot is `Idle` or `Provisioning`.
pub fn cleaning_start_allowed(state: &RobotState) -> (r: bool)
    ensures
        r == (*state is Idle || *state is Provisioning),
{
    match state {
        RobotState::Idle | RobotState::Provisioning => true,
        _ => false,
    }
}

/// The reply that refuses `POST /v1/cleaning/start` before the HAL is asked,
/// or `None` when the HAL is to be asked.
pub fn cleaning_start_gate(state: &RobotState) -> (r: Option<Reply>)
    ensures
        r is None <==> (*state is Idle || *state is Provisioning),
        r matches Some(reply) ==> reply is CleaningConflict,
{
    if cleaning_start_allowed(state) {
        None
    } else {
        Some(Reply::CleaningConflict)
    }
}

} // verus!
