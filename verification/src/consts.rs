use vstd::prelude::*;

verus! {

/// Namespace for the fixed structural constants of the game.
pub struct Consts;

impl Consts {
    /// Innings in a regulation game.
    pub const COUNT_INNINGS: u8 = 9;
    /// Outs that end a half inning.
    pub const OUTS_PER_HALF_INNING: u8 = 3;

    /// Balls that complete a walk.
    pub const BALLS_PER_WALK: u8 = 4;
    /// Strikes that complete a strikeout.
    pub const STRIKES_PER_STRIKEOUT: u8 = 3;

    /// Index of first base in a base state.
    pub const FIRST: usize = 0;
    /// Index of second base in a base state.
    pub const SECOND: usize = 1;
    /// Index of third base in a base state.
    pub const THIRD: usize = 2;
    /// One past third base: home plate, as a target of a play.
    pub const HOME: usize = 3;

    /// Batters in a lineup.
    pub const PLAYERS_PER_LINEUP: u8 = 9;
}

} // verus!
