use vstd::prelude::*;

use crate::choices::{defeat_verb, index_of, Choice};

verus! {

/// How a round between a challenger and an opponent ends.
#[derive(PartialEq, Eq, Clone, Debug)]
pub enum Conclusion {
    /// The challenger wins; the verb is the action it performed on the opponent.
    Player(String),
    /// The opponent wins; the verb is the action it performed on the challenger.
    Robot(String),
    /// Neither defeats the other.
    Tie,
}

/// `c` is the conclusion of a round of `user` against `robot`: the challenger
/// wins when it defeats the opponent, else the opponent wins when it defeats
/// the challenger, else the round is a tie.
pub open spec fn concludes(c: Conclusion, user: Choice, robot: Choice) -> bool {
    match c {
        Conclusion::Player(v) => defeat_verb(user, robot) == Some(v@),
        Conclusion::Robot(v) => defeat_verb(user, robot) is None && defeat_verb(robot, user)
            == Some(v@),
        Conclusion::Tie => defeat_verb(user, robot) is None && defeat_verb(robot, user) is None,
    }
}

/// Resolves a round of the challenger `user` against the opponent `robot`.
pub fn fight(user: &Choice, robot: &Choice) -> (r: Conclusion)
    ensures
        concludes(r, *user, *robot),
        *user == *robot ==> r is Tie,
{
    if let Some(action) = user.wins_against(robot) {
        Conclusion::Player(action)
    } else if let Some(action) = robot.wins_against(user) {
        Conclusion::Robot(action)
    } else {
        Conclusion::Tie
    }
}

/// Why a round could not be played.
#[derive(PartialEq, Eq, Structural, Clone, Copy, Debug)]
pub enum RoundError {
    /// The challenger's index names no choice.
    InvalidChoiceIndex,
    /// The opponent's drawn index names no choice.
    RandomSourceInvalid,
}

/// A resolved round: both choices and how the round ended.
#[derive(PartialEq, Eq, Clone, Debug)]
pub struct Round {
    pub user: Choice,
    pub robot: Choice,
    pub conclusion: Conclusion,
}

/// Plays a round of the challenger's choice index `user_index` against the
/// opponent's choice index `robot_index`.
pub fn play_round(user_index: u32, robot_index: u32) -> (r: Result<Round, RoundError>)
    ensures
        r is Ok <==> user_index < 5 && robot_index < 5,
        r matches Err(e) ==> (e == RoundError::InvalidChoiceIndex <==> user_index >= 5),
        r matches Ok(round) ==> {
            &&& index_of(round.user) == user_index
            &&& index_of(round.robot) == robot_index
            &&& concludes(round.conclusion, round.user, round.robot)
        },
{
    let user = match Choice::from_u32(user_index) {
        Some(c) => c,
        None => return Err(RoundError::InvalidChoiceIndex),
    };
    let robot = match Choice::from_u32(robot_index) {
        Some(c) => c,
        None => return Err(RoundError::RandomSourceInvalid),
    };
    let conclusion = fight(&user, &robot);
    Ok(Round { user, robot, conclusion })
}

/// The least index the opponent draws. The draw starts at Paper, so the
/// opponent never plays Rock; the bound is kept here, in one place.
pub const ROBOT_INDEX_LOW: u32 = 1;

/// One past the greatest index the opponent draws.
pub const ROBOT_INDEX_HIGH: u32 = 5;

/// Relies on rand's `thread_rng` and `Rng::gen_range(low, high)`, which returns
/// a value in `[low, high)` and panics when `low >= high`.
#[verifier::external_body]
fn gen_index(low: u32, high: u32) -> (r: u32)
    requires
        low < high,
    ensures
        low <= r < high,
{
    rand::Rng::gen_range(&mut rand::thread_rng(), low, high)
}

/// Draws the opponent's choice index at random from
/// `[ROBOT_INDEX_LOW, ROBOT_INDEX_HIGH)`.
pub fn draw_robot_index() -> (r: u32)
    ensures
        ROBOT_INDEX_LOW <= r < ROBOT_INDEX_HIGH,
{
    gen_index(ROBOT_INDEX_LOW, ROBOT_INDEX_HIGH)
}

} // verus!
