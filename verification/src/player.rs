use vstd::prelude::*;

use crate::fielding::Fielder;

verus! {

/// The difference of two biases, saturating at the bounds of `i8` so extreme
/// opponents never wrap around.
pub fn bias_sub(a: i8, b: i8) -> (r: i8)
    ensures
        r == if a - b < -128 {
            -128int
        } else if a - b > 127 {
            127int
        } else {
            a - b
        },
{
    let wide: i16 = a as i16 - b as i16;
    if wide < -128 {
        -128
    } else if wide > 127 {
        127
    } else {
        wide as i8
    }
}

/// Two players carry the same biases: everything the engine's draws read of
/// a player, leaving aside name and number.
pub open spec fn same_biases(a: Player, b: Player) -> bool {
    &&& a.pitch_height_bias == b.pitch_height_bias && a.pitch_width_bias == b.pitch_width_bias
        && a.pitch_strike_bias == b.pitch_strike_bias
    &&& a.pitcher_swing_on_ball_bias == b.pitcher_swing_on_ball_bias
        && a.pitcher_contact_on_ball_bias == b.pitcher_contact_on_ball_bias
        && a.pitcher_foul_on_ball_contact_bias == b.pitcher_foul_on_ball_contact_bias
    &&& a.pitcher_swing_on_strike_bias == b.pitcher_swing_on_strike_bias
        && a.pitcher_contact_on_strike_bias == b.pitcher_contact_on_strike_bias
        && a.pitcher_foul_on_strike_contact_bias == b.pitcher_foul_on_strike_contact_bias
    &&& a.pitcher_hit_direction_bias == b.pitcher_hit_direction_bias
        && a.pitcher_launch_angle_bias == b.pitcher_launch_angle_bias
        && a.pitcher_hit_speed_bias == b.pitcher_hit_speed_bias
    &&& a.hitter_swing_on_ball_bias == b.hitter_swing_on_ball_bias
        && a.hitter_contact_on_ball_bias == b.hitter_contact_on_ball_bias
        && a.hitter_foul_on_ball_contact_bias == b.hitter_foul_on_ball_contact_bias
    &&& a.hitter_swing_on_strike_bias == b.hitter_swing_on_strike_bias
        && a.hitter_contact_on_strike_bias == b.hitter_contact_on_strike_bias
        && a.hitter_foul_on_strike_contact_bias == b.hitter_foul_on_strike_contact_bias
    &&& a.hitter_hit_direction_bias == b.hitter_hit_direction_bias
        && a.hitter_launch_angle_bias == b.hitter_launch_angle_bias
        && a.hitter_hit_speed_bias == b.hitter_hit_speed_bias
    &&& a.fielder_run_speed_bias == b.fielder_run_speed_bias && a.fielder_reaction_time_bias
        == b.fielder_reaction_time_bias && a.fielder_throw_speed_bias == b.fielder_throw_speed_bias
        && a.fielder_transfer_time_bias == b.fielder_transfer_time_bias
    &&& a.baserunner_run_speed_bias == b.baserunner_run_speed_bias
        && a.baserunner_rounding_time_bias == b.baserunner_rounding_time_bias
        && a.baserunner_box_exit_time_bias == b.baserunner_box_exit_time_bias
        && a.baserunner_takeoff_delay_bias == b.baserunner_takeoff_delay_bias
}

/// A player's identity and the thirty-odd biases that tilt every decision
/// draw they take part in. Biases combine by saturating arithmetic and shift
/// league-average rates by up to `bias / 128`.
#[derive(Clone, Debug, PartialEq)]
pub struct Player {
    pub name: Option<String>,
    pub jersey_number: String,

    pub pitch_height_bias: i8,
    pub pitch_width_bias: i8,
    pub pitch_strike_bias: i8,

    pub pitcher_swing_on_ball_bias: i8,
    pub pitcher_contact_on_ball_bias: i8,
    pub pitcher_foul_on_ball_contact_bias: i8,

    pub pitcher_swing_on_strike_bias: i8,
    pub pitcher_contact_on_strike_bias: i8,
    pub pitcher_foul_on_strike_contact_bias: i8,

    pub pitcher_hit_direction_bias: i8,
    pub pitcher_launch_angle_bias: i8,
    pub pitcher_hit_speed_bias: i8,

    pub hitter_swing_on_ball_bias: i8,
    pub hitter_contact_on_ball_bias: i8,
    pub hitter_foul_on_ball_contact_bias: i8,

    pub hitter_swing_on_strike_bias: i8,
    pub hitter_contact_on_strike_bias: i8,
    pub hitter_foul_on_strike_contact_bias: i8,

    pub hitter_hit_direction_bias: i8,
    pub hitter_launch_angle_bias: i8,
    pub hitter_hit_speed_bias: i8,

    pub fielder_run_speed_bias: i8,
    pub fielder_reaction_time_bias: i8,
    pub fielder_throw_speed_bias: i8,
    pub fielder_transfer_time_bias: i8,

    pub baserunner_run_speed_bias: i8,
    pub baserunner_rounding_time_bias: i8,
    pub baserunner_box_exit_time_bias: i8,
    pub baserunner_takeoff_delay_bias: i8,
}

impl Player {
    /// True when every bias field is zero.
    pub open spec fn is_neutral(self) -> bool {
        &&& self.pitch_height_bias == 0 && self.pitch_width_bias == 0 && self.pitch_strike_bias
            == 0
        &&& self.pitcher_swing_on_ball_bias == 0 && self.pitcher_contact_on_ball_bias == 0
            && self.pitcher_foul_on_ball_contact_bias == 0
        &&& self.pitcher_swing_on_strike_bias == 0 && self.pitcher_contact_on_strike_bias == 0
            && self.pitcher_foul_on_strike_contact_bias == 0
        &&& self.pitcher_hit_direction_bias == 0 && self.pitcher_launch_angle_bias == 0
            && self.pitcher_hit_speed_bias == 0
        &&& self.hitter_swing_on_ball_bias == 0 && self.hitter_contact_on_ball_bias == 0
            && self.hitter_foul_on_ball_contact_bias == 0
        &&& self.hitter_swing_on_strike_bias == 0 && self.hitter_contact_on_strike_bias == 0
            && self.hitter_foul_on_strike_contact_bias == 0
        &&& self.hitter_hit_direction_bias == 0 && self.hitter_launch_angle_bias == 0
            && self.hitter_hit_speed_bias == 0
        &&& self.fielder_run_speed_bias == 0 && self.fielder_reaction_time_bias == 0
            && self.fielder_throw_speed_bias == 0 && self.fielder_transfer_time_bias == 0
        &&& self.baserunner_run_speed_bias == 0 && self.baserunner_rounding_time_bias == 0
            && self.baserunner_box_exit_time_bias == 0 && self.baserunner_takeoff_delay_bias == 0
    }

    /// An unnamed player with every bias at the league average and the given
    /// jersey number.
    pub fn neutral(jersey_number: String) -> (r: Player)
        ensures
            r.is_neutral(),
            r.name is None,
            r.jersey_number == jersey_number,
    {
        Player {
            name: None,
            jersey_number,

            pitch_height_bias: 0,
            pitch_width_bias: 0,
            pitch_strike_bias: 0,

            pitcher_swing_on_ball_bias: 0,
            pitcher_contact_on_ball_bias: 0,
            pitcher_foul_on_ball_contact_bias: 0,

            pitcher_swing_on_strike_bias: 0,
            pitcher_contact_on_strike_bias: 0,
            pitcher_foul_on_strike_contact_bias: 0,

            pitcher_hit_direction_bias: 0,
            pitcher_launch_angle_bias: 0,
            pitcher_hit_speed_bias: 0,

            hitter_swing_on_ball_bias: 0,
            hitter_contact_on_ball_bias: 0,
            hitter_foul_on_ball_contact_bias: 0,

            hitter_swing_on_strike_bias: 0,
            hitter_contact_on_strike_bias: 0,
            hitter_foul_on_strike_contact_bias: 0,

            hitter_hit_direction_bias: 0,
            hitter_launch_angle_bias: 0,
            hitter_hit_speed_bias: 0,

            fielder_run_speed_bias: 0,
            fielder_reaction_time_bias: 0,
            fielder_throw_speed_bias: 0,
            fielder_transfer_time_bias: 0,

            baserunner_run_speed_bias: 0,
            baserunner_rounding_time_bias: 0,
            baserunner_box_exit_time_bias: 0,
            baserunner_takeoff_delay_bias: 0,
        }
    }
}

impl Player {
    /// A copy of the player, carrying the same biases.
    pub fn duplicate(&self) -> (r: Player)
        ensures
            same_biases(*self, r),
    {
        Player {
            name: self.name.clone(),
            jersey_number: self.jersey_number.clone(),

            pitch_height_bias: self.pitch_height_bias,
            pitch_width_bias: self.pitch_width_bias,
            pitch_strike_bias: self.pitch_strike_bias,

            pitcher_swing_on_ball_bias: self.pitcher_swing_on_ball_bias,
            pitcher_contact_on_ball_bias: self.pitcher_contact_on_ball_bias,
            pitcher_foul_on_ball_contact_bias: self.pitcher_foul_on_ball_contact_bias,

            pitcher_swing_on_strike_bias: self.pitcher_swing_on_strike_bias,
            pitcher_contact_on_strike_bias: self.pitcher_contact_on_strike_bias,
            pitcher_foul_on_strike_contact_bias: self.pitcher_foul_on_strike_contact_bias,

            pitcher_hit_direction_bias: self.pitcher_hit_direction_bias,
            pitcher_launch_angle_bias: self.pitcher_launch_angle_bias,
            pitcher_hit_speed_bias: self.pitcher_hit_speed_bias,

            hitter_swing_on_ball_bias: self.hitter_swing_on_ball_bias,
            hitter_contact_on_ball_bias: self.hitter_contact_on_ball_bias,
            hitter_foul_on_ball_contact_bias: self.hitter_foul_on_ball_contact_bias,

            hitter_swing_on_strike_bias: self.hitter_swing_on_strike_bias,
            hitter_contact_on_strike_bias: self.hitter_contact_on_strike_bias,
            hitter_foul_on_strike_contact_bias: self.hitter_foul_on_strike_contact_bias,

            hitter_hit_direction_bias: self.hitter_hit_direction_bias,
            hitter_launch_angle_bias: self.hitter_launch_angle_bias,
            hitter_hit_speed_bias: self.hitter_hit_speed_bias,

            fielder_run_speed_bias: self.fielder_run_speed_bias,
            fielder_reaction_time_bias: self.fielder_reaction_time_bias,
            fielder_throw_speed_bias: self.fielder_throw_speed_bias,
            fielder_transfer_time_bias: self.fielder_transfer_time_bias,

            baserunner_run_speed_bias: self.baserunner_run_speed_bias,
            baserunner_rounding_time_bias: self.baserunner_rounding_time_bias,
            baserunner_box_exit_time_bias: self.baserunner_box_exit_time_bias,
            baserunner_takeoff_delay_bias: self.baserunner_takeoff_delay_bias,
        }
    }
}

impl Default for Player {
    /// An unnamed, league-average player wearing number zero.
    fn default() -> (r: Player)
        ensures
            r.is_neutral(),
    {
        Player::neutral("0".to_string())
    }
}

/// Nine players, one per position, and a batting order that visits each
/// position exactly once.
#[derive(Clone, Debug)]
pub struct Team {
    pub fielders: Vec<Player>,
    pub batting_order: Vec<Fielder>,
}

impl Team {
    /// A team is well formed when it fields nine players and its batting
    /// order is a permutation of the nine positions.
    pub open spec fn wf(self) -> bool {
        &&& self.fielders.len() == 9
        &&& self.batting_order.len() == 9
        &&& forall|i: int, j: int|
            0 <= i < 9 && 0 <= j < 9 && i != j ==> self.batting_order[i] != self.batting_order[j]
    }

    /// The player batting at a lineup slot.
    pub fn player_at_batting_index(&self, index: u8) -> (r: &Player)
        requires
            self.wf(),
            index < 9,
        ensures
            r == self.fielders@[self.batting_order@[index as int].spec_index()],
    {
        let position = self.batting_order[index as usize];
        &self.fielders[position.index()]
    }

    /// The player covering a position.
    pub fn player_at_position(&self, position: &Fielder) -> (r: &Player)
        requires
            self.wf(),
        ensures
            r == self.fielders@[position.spec_index()],
    {
        &self.fielders[position.index()]
    }

    /// The pitcher.
    pub fn pitcher(&self) -> (r: &Player)
        requires
            self.wf(),
        ensures
            r == self.fielders@[Fielder::Pitcher.spec_index()],
    {
        &self.fielders[1]
    }
}

impl Default for Team {
    /// Nine league-average players, batting in the conventional order:
    /// catcher, pitcher, then around the infield and across the outfield.
    fn default() -> (r: Team)
        ensures
            r.wf(),
            forall|i: int| 0 <= i < 9 ==> (#[trigger] r.fielders@[i]).is_neutral(),
            r.batting_order@ == seq![
                Fielder::Catcher,
                Fielder::Pitcher,
                Fielder::FirstBase,
                Fielder::SecondBase,
                Fielder::ThirdBase,
                Fielder::Shortstop,
                Fielder::LeftFielder,
                Fielder::CenterFielder,
                Fielder::RightFielder,
            ],
    {
        let mut fielders: Vec<Player> = Vec::new();
        fielders.push(Player::neutral("0".to_string()));
        fielders.push(Player::neutral("1".to_string()));
        fielders.push(Player::neutral("2".to_string()));
        fielders.push(Player::neutral("3".to_string()));
        fielders.push(Player::neutral("4".to_string()));
        fielders.push(Player::neutral("5".to_string()));
        fielders.push(Player::neutral("6".to_string()));
        fielders.push(Player::neutral("7".to_string()));
        fielders.push(Player::neutral("8".to_string()));

        let mut batting_order: Vec<Fielder> = Vec::new();
        batting_order.push(Fielder::Catcher);
        batting_order.push(Fielder::Pitcher);
        batting_order.push(Fielder::FirstBase);
        batting_order.push(Fielder::SecondBase);
        batting_order.push(Fielder::ThirdBase);
        batting_order.push(Fielder::Shortstop);
        batting_order.push(Fielder::LeftFielder);
        batting_order.push(Fielder::CenterFielder);
        batting_order.push(Fielder::RightFielder);

        proof {
            assert(batting_order@ =~= seq![
                Fielder::Catcher,
                Fielder::Pitcher,
                Fielder::FirstBase,
                Fielder::SecondBase,
                Fielder::ThirdBase,
                Fielder::Shortstop,
                Fielder::LeftFielder,
                Fielder::CenterFielder,
                Fielder::RightFielder,
            ]);
        }
        Team { fielders, batting_order }
    }
}

} // verus!
