//! Players' scores.

use vstd::prelude::*;

use crate::constraint::Username;

verus! {

/// The best scores: each a user and its score.
pub type Highscores = Vec<(Username, u32)>;

/// Keeper of the players' statistics.
pub struct StatisticsManager {}

impl StatisticsManager {
    pub fn new() -> (m: StatisticsManager)
        ensures
            m == (StatisticsManager {}),
    {
        StatisticsManager {}
    }
}

} // verus!
