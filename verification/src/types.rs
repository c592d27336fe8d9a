//! Identifier aliases, cardinal directions, view modes, cover levels, and the
//! elapsed game-time counter shared by every other module.

use vstd::prelude::*;

verus! {

/// Unique identifier of a world-map location.
pub type LocationId = u32;
/// Unique identifier of a tactical map.
pub type MapId = u32;
/// Unique identifier of a character.
pub type CharacterId = u32;
/// Unique identifier of a quest.
pub type QuestId = u32;

/// Cardinal directions for party facing.
#[derive(Debug, Clone, Copy, PartialEq, Eq, Structural)]
pub enum Direction {
    North,
    South,
    East,
    West,
}

/// Current view mode — drives which renderer is active.
#[derive(Debug, Clone, Copy, PartialEq, Eq, Structural)]
pub enum ViewMode {
    WorldMap,
    TacticalExploration,
    TacticalCombat,
    Menu,
}

/// Cover levels for tactical combat.
#[derive(Debug, Clone, Copy, PartialEq, Eq, Structural)]
pub enum CoverType {
    NoCover,
    Lesser,
    Standard,
    Greater,
}

/// Elapsed game time, counted in minutes since the start of play.
#[derive(Debug, Clone, Copy, PartialEq, Eq, Structural)]
pub struct GameTime {
    /// Total minutes elapsed since game start.
    pub total_minutes: u64,
}

impl GameTime {
    /// A counter starting at minute zero.
    pub fn new() -> (t: GameTime)
        ensures
            t.total_minutes == 0,
    {
        GameTime { total_minutes: 0 }
    }

    /// Hour of the day, `0..=23`.
    pub fn hour(&self) -> (h: u64)
        ensures
            h == (self.total_minutes / 60) % 24,
            h < 24,
    {
        (self.total_minutes / 60) % 24
    }

    /// Whole days elapsed since the start of play.
    pub fn day(&self) -> (d: u64)
        ensures
            d == self.total_minutes / 1440,
    {
        self.total_minutes / (60 * 24)
    }

    /// Advance the counter; time never runs backwards.
    pub fn advance_minutes(&mut self, minutes: u64)
        requires
            old(self).total_minutes + minutes <= u64::MAX,
        ensures
            final(self).total_minutes == old(self).total_minutes + minutes,
    {
        self.total_minutes = self.total_minutes + minutes;
    }

    /// Whether it is night, defined as hour `>= 20` or `< 6`.
    pub fn is_night(&self) -> (b: bool)
        ensures
            b == ((self.total_minutes / 60) % 24 >= 20 || (self.total_minutes / 60) % 24 < 6),
    {
        let hour = self.hour();
        hour >= 20 || hour < 6
    }
}

impl Default for GameTime {
    /// Play starts at 8:00 AM on day zero.
    fn default() -> (t: GameTime)
        ensures
            t.total_minutes == 480,
    {
        GameTime { total_minutes: 8 * 60 }
    }
}

} // verus!
