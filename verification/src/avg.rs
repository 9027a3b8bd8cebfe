//! Running tallies over many simulated games, for consumers that aggregate
//! results.

use vstd::prelude::*;

verus! {

/// Counters summed over a batch of games. Sums are commutative and
/// associative, so partial tallies may be merged in any order.
#[derive(Clone, Copy, Debug, PartialEq, Eq, Structural, Default)]
pub struct Avg {
    pub home_wins: u64,
    pub runs: u64,
    pub hits: u64,

    pub double_plays: u64,
    pub triple_plays: u64,

    pub strikeouts: u64,
    pub walks: u64,
    pub singles: u64,
    pub doubles: u64,
    pub triples: u64,
    pub inside_the_park: u64,
    pub home_runs: u64,

    pub balls: u64,
    pub strikes: u64,
    pub fouls: u64,

    pub total_games: u64,
    pub total_at_bats: u64,
}

impl Avg {
    /// True when every counter of the sum fits its width.
    pub open spec fn can_add(self, rhs: Avg) -> bool {
        &&& self.home_wins + rhs.home_wins <= u64::MAX
        &&& self.runs + rhs.runs <= u64::MAX
        &&& self.hits + rhs.hits <= u64::MAX
        &&& self.double_plays + rhs.double_plays <= u64::MAX
        &&& self.triple_plays + rhs.triple_plays <= u64::MAX
        &&& self.strikeouts + rhs.strikeouts <= u64::MAX
        &&& self.walks + rhs.walks <= u64::MAX
        &&& self.singles + rhs.singles <= u64::MAX
        &&& self.doubles + rhs.doubles <= u64::MAX
        &&& self.triples + rhs.triples <= u64::MAX
        &&& self.inside_the_park + rhs.inside_the_park <= u64::MAX
        &&& self.home_runs + rhs.home_runs <= u64::MAX
        &&& self.balls + rhs.balls <= u64::MAX
        &&& self.strikes + rhs.strikes <= u64::MAX
        &&& self.fouls + rhs.fouls <= u64::MAX
        &&& self.total_games + rhs.total_games <= u64::MAX
        &&& self.total_at_bats + rhs.total_at_bats <= u64::MAX
    }

    /// The tally whose every counter is the sum of both sides'.
    pub fn add(self, rhs: Avg) -> (r: Avg)
        requires
            self.can_add(rhs),
        ensures
            r.runs == self.runs + rhs.runs,
            r.hits == self.hits + rhs.hits,
            r.home_wins == self.home_wins + rhs.home_wins,
            r.double_plays == self.double_plays + rhs.double_plays,
            r.triple_plays == self.triple_plays + rhs.triple_plays,
            r.strikeouts == self.strikeouts + rhs.strikeouts,
            r.walks == self.walks + rhs.walks,
            r.singles == self.singles + rhs.singles,
            r.doubles == self.doubles + rhs.doubles,
            r.triples == self.triples + rhs.triples,
            r.inside_the_park == self.inside_the_park + rhs.inside_the_park,
            r.home_runs == self.home_runs + rhs.home_runs,
            r.balls == self.balls + rhs.balls,
            r.strikes == self.strikes + rhs.strikes,
            r.fouls == self.fouls + rhs.fouls,
            r.total_games == self.total_games + rhs.total_games,
            r.total_at_bats == self.total_at_bats + rhs.total_at_bats,
    {
        Avg {
            home_wins: self.home_wins + rhs.home_wins,
            runs: self.runs + rhs.runs,
            hits: self.hits + rhs.hits,

            double_plays: self.double_plays + rhs.double_plays,
            triple_plays: self.triple_plays + rhs.triple_plays,

            strikeouts: self.strikeouts + rhs.strikeouts,
            walks: self.walks + rhs.walks,
            singles: self.singles + rhs.singles,
            doubles: self.doubles + rhs.doubles,
            triples: self.triples + rhs.triples,
            inside_the_park: self.inside_the_park + rhs.inside_the_park,
            home_runs: self.home_runs + rhs.home_runs,

            balls: self.balls + rhs.balls,
            strikes: self.strikes + rhs.strikes,
            fouls: self.fouls + rhs.fouls,

            total_games: self.total_games + rhs.total_games,
            total_at_bats: self.total_at_bats + rhs.total_at_bats,
        }
    }

    /// Adds a tally into this one.
    pub fn add_assign(&mut self, rhs: Avg)
        requires
            old(self).can_add(rhs),
        ensures
            *final(self) == old(self).add_spec(rhs),
    {
        let sum = self.add(rhs);
        *self = sum;
    }

    /// The sum of two tallies, counter by counter.
    pub open spec fn add_spec(self, rhs: Avg) -> Avg {
        Avg {
            home_wins: (self.home_wins + rhs.home_wins) as u64,
            runs: (self.runs + rhs.runs) as u64,
            hits: (self.hits + rhs.hits) as u64,

            double_plays: (self.double_plays + rhs.double_plays) as u64,
            triple_plays: (self.triple_plays + rhs.triple_plays) as u64,

            strikeouts: (self.strikeouts + rhs.strikeouts) as u64,
            walks: (self.walks + rhs.walks) as u64,
            singles: (self.singles + rhs.singles) as u64,
            doubles: (self.doubles + rhs.doubles) as u64,
            triples: (self.triples + rhs.triples) as u64,
            inside_the_park: (self.inside_the_park + rhs.inside_the_park) as u64,
            home_runs: (self.home_runs + rhs.home_runs) as u64,

            balls: (self.balls + rhs.balls) as u64,
            strikes: (self.strikes + rhs.strikes) as u64,
            fouls: (self.fouls + rhs.fouls) as u64,

            total_games: (self.total_games + rhs.total_games) as u64,
            total_at_bats: (self.total_at_bats + rhs.total_at_bats) as u64,
        }
    }
}

} // verus!
