use vstd::prelude::*;

use crate::crop::Crop;
use crate::season::Season;

verus! {

/// Commands that the game engine executes.
#[derive(Debug, Clone)]
pub enum GameCommand {
    Sleep,
    PlantCrop { crop_index: usize },
    WaterCrops,
    HarvestCrops,
    AdvanceDay,
    BuySeed { seed_name: String },
}

/// Why a command was refused. The engine's state is the one before the
/// command, except where `InsufficientEnergy` stops watering part way.
#[derive(Debug, Clone, Copy, PartialEq, Eq, Structural)]
pub enum GameError {
    InvalidSelection,
    InsufficientEnergy,
    NoCropsToWater,
    NothingReady,
    SeedUnavailable,
    InsufficientFunds,
    MoneyOverflow,
    CalendarExhausted,
}

/// The text shown for each error.
pub open spec fn error_message(e: GameError) -> Seq<char> {
    match e {
        GameError::InvalidSelection => "Invalid crop selection"@,
        GameError::InsufficientEnergy => "Not enough energy"@,
        GameError::NoCropsToWater => "No crops to water"@,
        GameError::NothingReady => "No crops are ready for harvest"@,
        GameError::SeedUnavailable => "Seed not available this season"@,
        GameError::InsufficientFunds => "Not enough money"@,
        GameError::MoneyOverflow => "Money would exceed the largest amount"@,
        GameError::CalendarExhausted => "No more days can be counted"@,
    }
}

impl GameError {
    pub fn message(&self) -> (r: &'static str)
        ensures
            r@ == error_message(*self),
    {
        match self {
            GameError::InvalidSelection => "Invalid crop selection",
            GameError::InsufficientEnergy => "Not enough energy",
            GameError::NoCropsToWater => "No crops to water",
            GameError::NothingReady => "No crops are ready for harvest",
            GameError::SeedUnavailable => "Seed not available this season",
            GameError::InsufficientFunds => "Not enough money",
            GameError::MoneyOverflow => "Money would exceed the largest amount",
            GameError::CalendarExhausted => "No more days can be counted",
        }
    }
}

/// Result of executing a command.
#[derive(Debug, Clone)]
pub enum GameResult {
    Success(GameEvent),
    Error(GameError),
}

/// Events that come of commands or of the passing of days.
#[derive(Debug, Clone)]
pub enum GameEvent {
    DayAdvanced { new_day: u32, season_change: Option<SeasonChangeEvent> },
    Slept { old_day: u32, new_day: u32, season_change: Option<SeasonChangeEvent> },
    CropPlanted { crop_name: String, remaining_energy: u8 },
    CropsWatered { remaining_energy: u8 },
    CropsHarvested { earnings: u32, total_money: u32 },
    EnergyRestored,
    SeedPurchased { seed_name: String, cost: u32, remaining_money: u32 },
}

#[derive(Debug, Clone)]
pub struct SeasonChangeEvent {
    pub old_season: Season,
    pub new_season: Season,
    pub day: u32,
    pub crops_died: Vec<String>,
}

/// Read-only copy of the game state.
#[derive(Debug, Clone)]
pub struct GameInfo {
    pub day: u32,
    pub player_name: String,
    pub player_money: u32,
    pub player_energy: u8,
    pub max_energy: u8,
    pub current_season: Season,
    pub year: u32,
    pub day_in_season: u32,
    pub inventory: Vec<Crop>,
    pub fields: Vec<Crop>,
}

/// Automatic day progression: a new day every `auto_day_change_minutes`,
/// counted from `last_day_change` (milliseconds since the Unix epoch).
#[derive(Debug, Clone, Copy, PartialEq, Eq, Structural)]
pub struct TimeConfig {
    pub auto_day_change_minutes: i64,
    pub last_day_change: Option<i64>,
}

/// Minutes between two automatic day changes in a new game.
pub const DEFAULT_DAY_CHANGE_MINUTES: i64 = 2;

/// Relies on chrono::Utc::now, read as milliseconds since the Unix epoch with
/// DateTime::timestamp_millis. Nothing is promised of the clock.
#[verifier::external_body]
pub(crate) fn now_millis() -> (r: i64) {
    chrono::Utc::now().timestamp_millis()
}

impl TimeConfig {
    pub fn starting_at(now: i64) -> (r: TimeConfig)
        ensures
            r.auto_day_change_minutes == DEFAULT_DAY_CHANGE_MINUTES,
            r.last_day_change == Some(now),
    {
        TimeConfig { auto_day_change_minutes: DEFAULT_DAY_CHANGE_MINUTES, last_day_change: Some(now) }
    }
}

impl Default for TimeConfig {
    fn default() -> (r: TimeConfig)
        ensures
            r.auto_day_change_minutes == DEFAULT_DAY_CHANGE_MINUTES,
            r.last_day_change.is_some(),
    {
        TimeConfig::starting_at(now_millis())
    }
}

} // verus!
