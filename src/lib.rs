//! One round of Rock-Paper-Scissors-Lizard-Spock: the five choices, the
//! relation that says which choice defeats which and with what verb, and the
//! resolution of a round between a challenger and an opponent.
pub mod choices;
pub mod round;

pub use choices::Choice;
pub use round::{draw_robot_index, fight, play_round, Conclusion, Round, RoundError};
