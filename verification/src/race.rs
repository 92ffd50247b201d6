use vstd::prelude::*;
use std::collections::HashMap;

verus! {

/// Running phase of a horse during a race.
#[derive(Clone, Copy, Debug, PartialEq, Eq, Structural)]
pub enum HorsePhase {
    RunUp,
    Start,
    MiddleRun,
    End,
    Last,
    Finished,
}

impl HorsePhase {
    pub open spec fn spec_value(self) -> int {
        match self {
            HorsePhase::RunUp => -1,
            HorsePhase::Start => 0,
            HorsePhase::MiddleRun => 1,
            HorsePhase::End => 2,
            HorsePhase::Last => 3,
            HorsePhase::Finished => 4,
        }
    }

    /// The integer the game uses for this phase.
    pub fn value(self) -> (v: i32)
        ensures v == self.spec_value(),
    {
        match self {
            HorsePhase::RunUp => -1,
            HorsePhase::Start => 0,
            HorsePhase::MiddleRun => 1,
            HorsePhase::End => 2,
            HorsePhase::Last => 3,
            HorsePhase::Finished => 4,
        }
    }
}

/// Picks the horse the player controls: the game's index when it lies inside the
/// horse list, otherwise the first horse.
pub fn player_horse_index(player_idx: i32, count: usize) -> (r: usize)
    ensures
        (0 <= player_idx && (player_idx as int) < count as int) ==> r == player_idx as usize,
        !(0 <= player_idx && (player_idx as int) < count as int) ==> r == 0,
{
    if player_idx >= 0 && (player_idx as usize) < count {
        player_idx as usize
    } else {
        0
    }
}

/// Condition of a horse on race day.
#[derive(Clone, Copy, Debug, PartialEq, Eq, Structural)]
pub enum Motivation {
    NoMotivation,
    Min,
    Low,
    Middle,
    High,
    Max,
}

impl Motivation {
    pub open spec fn spec_value(self) -> int {
        match self {
            Motivation::NoMotivation => 0,
            Motivation::Min => 1,
            Motivation::Low => 2,
            Motivation::Middle => 3,
            Motivation::High => 4,
            Motivation::Max => 5,
        }
    }

    /// The integer the game uses for this condition.
    pub fn value(self) -> (v: i32)
        ensures v == self.spec_value(),
    {
        match self {
            Motivation::NoMotivation => 0,
            Motivation::Min => 1,
            Motivation::Low => 2,
            Motivation::Middle => 3,
            Motivation::High => 4,
            Motivation::Max => 5,
        }
    }

    /// The condition the game's integer stands for, if any.
    pub fn from_value(v: i32) -> (r: Option<Motivation>)
        ensures forall|m: Motivation| r == Some(m) <==> m.spec_value() == v,
    {
        match v {
            0 => Some(Motivation::NoMotivation),
            1 => Some(Motivation::Min),
            2 => Some(Motivation::Low),
            3 => Some(Motivation::Middle),
            4 => Some(Motivation::High),
            5 => Some(Motivation::Max),
            _ => None,
        }
    }
}

/// Lane a horse runs in, from the inside out.
#[derive(Clone, Copy, Debug, PartialEq, Eq, Structural)]
pub enum LaneType {
    Uti,
    Naka,
    Soto,
    Oosoto,
}

impl LaneType {
    pub open spec fn spec_value(self) -> int {
        match self {
            LaneType::Uti => 0,
            LaneType::Naka => 1,
            LaneType::Soto => 2,
            LaneType::Oosoto => 3,
        }
    }

    /// The integer the game uses for this lane.
    pub fn value(self) -> (v: i32)
        ensures v == self.spec_value(),
    {
        match self {
            LaneType::Uti => 0,
            LaneType::Naka => 1,
            LaneType::Soto => 2,
            LaneType::Oosoto => 3,
        }
    }

    /// The lane the game's integer stands for, if any.
    pub fn from_value(v: i32) -> (r: Option<LaneType>)
        ensures forall|l: LaneType| r == Some(l) <==> l.spec_value() == v,
    {
        match v {
            0 => Some(LaneType::Uti),
            1 => Some(LaneType::Naka),
            2 => Some(LaneType::Soto),
            3 => Some(LaneType::Oosoto),
            _ => None,
        }
    }
}

impl HorsePhase {
    /// The phase the game's integer stands for, if any.
    pub fn from_value(v: i32) -> (r: Option<HorsePhase>)
        ensures forall|p: HorsePhase| r == Some(p) <==> p.spec_value() == v,
    {
        match v {
            -1 => Some(HorsePhase::RunUp),
            0 => Some(HorsePhase::Start),
            1 => Some(HorsePhase::MiddleRun),
            2 => Some(HorsePhase::End),
            3 => Some(HorsePhase::Last),
            4 => Some(HorsePhase::Finished),
            _ => None,
        }
    }
}

/// Reading back a phase from the integer the game stores gives the same phase.
pub proof fn law_horse_phase_round_trip(p: HorsePhase, q: HorsePhase)
    ensures p.spec_value() == q.spec_value() ==> p == q,
{
}

/// A flag of the player's horse, as the game answers it: `false` when there is no race
/// manager, no horse manager or no player horse to ask.
pub fn player_horse_flag(race_manager_present: bool, horse_manager_present: bool, player_flag: Option<bool>) -> (r: bool)
    ensures r == (race_manager_present && horse_manager_present && player_flag == Some(true)),
{
    if !race_manager_present {
        return false;
    }
    if !horse_manager_present {
        return false;
    }
    match player_flag {
        Some(f) => f,
        None => false,
    }
}

/// Whether the player's horse is in its start dash in the given race.
pub fn is_start_dash_instance(race_manager_present: bool, horse_manager_present: bool, player_start_dash: Option<bool>) -> (r: bool)
    ensures r == (race_manager_present && horse_manager_present && player_start_dash == Some(true)),
{
    player_horse_flag(race_manager_present, horse_manager_present, player_start_dash)
}

/// Whether the player's horse has finished the race.
pub fn is_finished(race_manager_present: bool, horse_manager_present: bool, player_finished: Option<bool>) -> (r: bool)
    ensures r == (race_manager_present && horse_manager_present && player_finished == Some(true)),
{
    player_horse_flag(race_manager_present, horse_manager_present, player_finished)
}

/// Whether replay playback may not be paused or resumed now: during a start dash or a
/// cut-in.
pub fn playback_gated(start_dash: bool, playing_cut_in: bool, start_dash_instance: bool) -> (r: bool)
    ensures r == (start_dash || playing_cut_in || start_dash_instance),
{
    start_dash || playing_cut_in || start_dash_instance
}

/// A command for a race replay.
#[derive(Clone, Copy, Debug, PartialEq, Eq, Structural)]
pub enum PlaybackCommand {
    Pause,
    Resume,
}

/// Flags and caches kept while races and concerts run.
pub struct RaceSession {
    pub race_active: bool,
    pub live_paused: bool,
    /// Starting gate (counted from zero) of each replayed horse, by the horse's address.
    pub gate_numbers: HashMap<usize, i32>,
}

impl RaceSession {
    /// No race, no paused concert, no gate known.
    pub fn new() -> (r: Self)
        ensures !r.race_active, !r.live_paused, r.gate_numbers@ == Map::<usize, i32>::empty(),
    {
        RaceSession { race_active: false, live_paused: false, gate_numbers: HashMap::new() }
    }

    /// A race began.
    pub fn on_race_init(&mut self)
        ensures
            final(self).race_active,
            final(self).live_paused == old(self).live_paused,
            final(self).gate_numbers@ == old(self).gate_numbers@,
    {
        self.race_active = true;
    }

    /// The race ended.
    pub fn on_race_release(&mut self)
        ensures
            !final(self).race_active,
            final(self).live_paused == old(self).live_paused,
            final(self).gate_numbers@ == old(self).gate_numbers@,
    {
        self.race_active = false;
    }

    /// Whether a race runs.
    pub fn is_race_active(&self) -> (r: bool)
        ensures r == self.race_active,
    {
        self.race_active
    }

    /// The concert was paused or resumed.
    pub fn on_pause_live(&mut self, is_pause: bool)
        ensures
            final(self).live_paused == is_pause,
            final(self).race_active == old(self).race_active,
            final(self).gate_numbers@ == old(self).gate_numbers@,
    {
        self.live_paused = is_pause;
    }

    /// Whether the concert is paused.
    pub fn is_live_paused(&self) -> (r: bool)
        ensures r == self.live_paused,
    {
        self.live_paused
    }

    /// Remembers the starting gate that the game numbers `gate_no` (from one) for the
    /// replayed horse at `horse`.
    pub fn record_gate_no(&mut self, horse: usize, gate_no: i32)
        requires gate_no > i32::MIN,
        ensures
            final(self).gate_numbers@ == old(self).gate_numbers@.insert(horse, (gate_no - 1) as i32),
            final(self).race_active == old(self).race_active,
            final(self).live_paused == old(self).live_paused,
    {
        broadcast use vstd::std_specs::hash::group_hash_axioms;
        self.gate_numbers.insert(horse, gate_no - 1);
    }

    /// The starting gate (from zero) of the replayed horse at `horse`, or -1 when unknown.
    pub fn gate_no(&self, horse: usize) -> (r: i32)
        ensures
            r == (if self.gate_numbers@.contains_key(horse) { self.gate_numbers@[horse] } else { -1i32 }),
    {
        broadcast use vstd::std_specs::hash::group_hash_axioms;
        match self.gate_numbers.get(&horse) {
            Some(g) => *g,
            None => -1,
        }
    }

    /// Forgets every starting gate.
    pub fn clear_gate_no_cache(&mut self)
        ensures
            final(self).gate_numbers@ == Map::<usize, i32>::empty(),
            final(self).race_active == old(self).race_active,
            final(self).live_paused == old(self).live_paused,
    {
        broadcast use vstd::std_specs::hash::group_hash_axioms;
        self.gate_numbers.clear();
    }

    /// Pause or resume for the replay toggle: nothing outside a race, without a race
    /// manager, or while playback is gated; otherwise resume a paused replay and pause a
    /// running one.
    pub fn toggle_playback(&self, race_manager_present: bool, gated: bool, paused: bool) -> (r: Option<PlaybackCommand>)
        ensures
            r == (if !self.race_active || !race_manager_present || gated {
                None
            } else if paused {
                Some(PlaybackCommand::Resume)
            } else {
                Some(PlaybackCommand::Pause)
            }),
    {
        if !self.is_race_active() {
            return None;
        }
        if !race_manager_present {
            return None;
        }
        if gated {
            return None;
        }
        if paused {
            Some(PlaybackCommand::Resume)
        } else {
            Some(PlaybackCommand::Pause)
        }
    }
}

/// Looking up a horse's gate after storing it gives the stored gate counted from zero,
/// and storing a gate leaves other horses' gates as they were; after clearing, no gate is
/// known.
pub proof fn law_gate_read_after_write(m: Map<usize, i32>, horse: usize, other: usize, gate_no: i32)
    requires gate_no > i32::MIN,
    ensures
        m.insert(horse, (gate_no - 1) as i32).contains_key(horse),
        m.insert(horse, (gate_no - 1) as i32)[horse] == gate_no - 1,
        other != horse ==> (m.insert(horse, (gate_no - 1) as i32).contains_key(other) == m.contains_key(other)
            && (m.contains_key(other) ==> m.insert(horse, (gate_no - 1) as i32)[other] == m[other])),
        !Map::<usize, i32>::empty().contains_key(horse),
{
}

} // verus!
