use vstd::prelude::*;

use crate::crop::{crop_wf, crops_wf, duplicate_crops, get_seasonal_crops, is_fresh_of_kind, same_crops, seasonal_kinds, Crop, CropKind};
use crate::player::{fields_watered, ready_total, unready, water_cost, water_stop, Player};
use crate::season::{season_of, Season};
use crate::types::{now_millis, GameCommand, GameError, GameEvent, GameInfo, GameResult, SeasonChangeEvent, TimeConfig};

verus! {

/// The day a new game starts on.
pub const STARTING_DAY: u32 = 1;

/// Owns the player, the day counter and the time configuration; changed only
/// through `execute`.
#[derive(Debug, Clone)]
pub struct GameEngine {
    player: Player,
    day: u32,
    time_config: TimeConfig,
}

/// The crops of `s` that can grow in `season`, in order.
pub open spec fn survivors(s: Seq<Crop>, season: Season) -> Seq<Crop>
    decreases s.len(),
{
    if s.len() == 0 {
        s
    } else if s.last().seasons@.contains(season) {
        survivors(s.drop_last(), season).push(s.last())
    } else {
        survivors(s.drop_last(), season)
    }
}

/// Names of the crops of `s` that cannot grow in `season`, in order.
pub open spec fn died_names(s: Seq<Crop>, season: Season) -> Seq<Seq<char>>
    decreases s.len(),
{
    if s.len() == 0 {
        Seq::empty()
    } else if s.last().seasons@.contains(season) {
        died_names(s.drop_last(), season)
    } else {
        died_names(s.drop_last(), season).push(s.last().name@)
    }
}

pub open spec fn names_view(v: Seq<String>) -> Seq<Seq<char>> {
    v.map_values(|s: String| s@)
}

/// Whether the day after `day` starts a new season.
pub open spec fn season_turns(day: u32) -> bool {
    season_of(day as int) != season_of(day as int + 1)
}

/// The fields after the night that ends `day`.
pub open spec fn fields_after_day(fields: Seq<Crop>, day: u32) -> Seq<Crop> {
    if season_turns(day) {
        survivors(fields, season_of(day as int + 1))
    } else {
        fields
    }
}

/// The report of the night that ends `day`, with `fields` planted.
pub open spec fn season_change_matches(ev: Option<SeasonChangeEvent>, day: u32, fields: Seq<Crop>) -> bool {
    if season_turns(day) {
        &&& ev is Some
        &&& ev.unwrap().old_season == season_of(day as int)
        &&& ev.unwrap().new_season == season_of(day as int + 1)
        &&& ev.unwrap().day == day + 1
        &&& names_view(ev.unwrap().crops_died@) == died_names(fields, season_of(day as int + 1))
    } else {
        ev is None
    }
}

/// The engine `new` is `old` one night later, at time `now`.
pub open spec fn advanced(old: GameEngine, new: GameEngine, now: i64) -> bool {
    &&& new.day_view() == old.day_view() + 1
    &&& new.player_view().energy == Player::MAX_ENERGY
    &&& new.player_view().money == old.player_view().money
    &&& new.player_view().inventory == old.player_view().inventory
    &&& new.player_view().name == old.player_view().name
    &&& new.player_view().id == old.player_view().id
    &&& new.player_view().fields@ == fields_after_day(old.player_view().fields@, old.day_view())
    &&& new.time_view() == (TimeConfig { last_day_change: Some(now), ..old.time_view() })
}

/// Only the player's data changed, and none of its identity.
pub open spec fn same_day_and_time(old: GameEngine, new: GameEngine) -> bool {
    &&& new.day_view() == old.day_view()
    &&& new.time_view() == old.time_view()
    &&& new.player_view().name == old.player_view().name
    &&& new.player_view().id == old.player_view().id
}

pub open spec fn day_outcome(old: GameEngine, new: GameEngine, r: GameResult, now: i64, slept: bool) -> bool {
    if old.day_view() == u32::MAX {
        r == GameResult::Error(GameError::CalendarExhausted) && new == old
    } else {
        &&& advanced(old, new, now)
        &&& match r {
            GameResult::Success(GameEvent::DayAdvanced { new_day, season_change }) => {
                &&& !slept
                &&& new_day == new.day_view()
                &&& season_change_matches(season_change, old.day_view(), old.player_view().fields@)
            },
            GameResult::Success(GameEvent::Slept { old_day, new_day, season_change }) => {
                &&& slept
                &&& old_day == old.day_view()
                &&& new_day == new.day_view()
                &&& season_change_matches(season_change, old.day_view(), old.player_view().fields@)
            },
            _ => false,
        }
    }
}

pub open spec fn plant_outcome(old: GameEngine, new: GameEngine, index: usize, r: GameResult) -> bool {
    let p = old.player_view();
    if index >= p.inventory@.len() {
        r == GameResult::Error(GameError::InvalidSelection) && new == old
    } else if p.energy < p.inventory@[index as int].energy_cost {
        r == GameResult::Error(GameError::InsufficientEnergy) && new == old
    } else {
        &&& same_day_and_time(old, new)
        &&& new.player_view().inventory@ == p.inventory@.remove(index as int)
        &&& new.player_view().fields@ == p.fields@.push(p.inventory@[index as int])
        &&& new.player_view().energy == p.energy - p.inventory@[index as int].energy_cost
        &&& new.player_view().money == p.money
        &&& match r {
            GameResult::Success(GameEvent::CropPlanted { crop_name, remaining_energy }) => {
                crop_name@ == p.inventory@[index as int].name@ && remaining_energy == new.player_view().energy
            },
            _ => false,
        }
    }
}

pub open spec fn water_outcome(old: GameEngine, new: GameEngine, r: GameResult) -> bool {
    let p = old.player_view();
    let day = old.day_view();
    if p.fields@.len() == 0 {
        r == GameResult::Error(GameError::NoCropsToWater) && new == old
    } else {
        let stop = water_stop(p.fields@, p.energy as int, day, 0);
        &&& same_day_and_time(old, new)
        &&& fields_watered(p.fields@, new.player_view().fields@, day, stop)
        &&& new.player_view().energy == p.energy - water_cost(p.fields@.take(stop), day)
        &&& new.player_view().inventory == p.inventory
        &&& new.player_view().money == p.money
        &&& r == if stop == p.fields@.len() {
            GameResult::Success(GameEvent::CropsWatered { remaining_energy: new.player_view().energy })
        } else {
            GameResult::Error(GameError::InsufficientEnergy)
        }
    }
}

pub open spec fn harvest_outcome(old: GameEngine, new: GameEngine, r: GameResult) -> bool {
    let p = old.player_view();
    let total = ready_total(p.fields@);
    if p.fields@.len() == 0 || total == 0 {
        r == GameResult::Error(GameError::NothingReady) && new == old
    } else if p.money + total > u32::MAX {
        r == GameResult::Error(GameError::MoneyOverflow) && new == old
    } else {
        &&& same_day_and_time(old, new)
        &&& new.player_view().fields@ == unready(p.fields@)
        &&& new.player_view().money == p.money + total
        &&& new.player_view().energy == p.energy
        &&& new.player_view().inventory == p.inventory
        &&& r == GameResult::Success(GameEvent::CropsHarvested { earnings: total as u32, total_money: new.player_view().money })
    }
}

/// Index of the first kind named `name` in `kinds`, from `i` on; the length
/// of `kinds` where there is none.
pub open spec fn kind_index(kinds: Seq<CropKind>, name: Seq<char>, i: int) -> int
    decreases kinds.len() - i,
{
    if i < 0 || i >= kinds.len() {
        kinds.len() as int
    } else if kinds[i].0 == name {
        i
    } else {
        kind_index(kinds, name, i + 1)
    }
}

/// Price of a seed: half the sell price of its crop, rounded down.
pub open spec fn seed_cost(sell_price: u32) -> u32 {
    sell_price / 2
}

pub open spec fn buy_outcome(old: GameEngine, new: GameEngine, name: Seq<char>, r: GameResult) -> bool {
    let p = old.player_view();
    let kinds = seasonal_kinds(season_of(old.day_view() as int));
    let i = kind_index(kinds, name, 0);
    if i == kinds.len() {
        r == GameResult::Error(GameError::SeedUnavailable) && new == old
    } else if p.money < seed_cost(kinds[i].2) {
        r == GameResult::Error(GameError::InsufficientFunds) && new == old
    } else {
        &&& same_day_and_time(old, new)
        &&& new.player_view().money == p.money - seed_cost(kinds[i].2)
        &&& new.player_view().inventory@.len() == p.inventory@.len() + 1
        &&& new.player_view().inventory@.drop_last() == p.inventory@
        &&& is_fresh_of_kind(new.player_view().inventory@.last(), kinds[i])
        &&& new.player_view().fields == p.fields
        &&& new.player_view().energy == p.energy
        &&& match r {
            GameResult::Success(GameEvent::SeedPurchased { seed_name, cost, remaining_money }) => {
                &&& seed_name@ == kinds[i].0
                &&& cost == seed_cost(kinds[i].2)
                &&& remaining_money == new.player_view().money
            },
            _ => false,
        }
    }
}

/// What executing `command` at time `now` does to `old`, giving `new` and `r`.
pub open spec fn command_outcome(old: GameEngine, new: GameEngine, command: GameCommand, r: GameResult, now: i64) -> bool {
    match command {
        GameCommand::Sleep => day_outcome(old, new, r, now, true),
        GameCommand::AdvanceDay => day_outcome(old, new, r, now, false),
        GameCommand::PlantCrop { crop_index } => plant_outcome(old, new, crop_index, r),
        GameCommand::WaterCrops => water_outcome(old, new, r),
        GameCommand::HarvestCrops => harvest_outcome(old, new, r),
        GameCommand::BuySeed { seed_name } => buy_outcome(old, new, seed_name@, r),
    }
}

impl GameEngine {
    pub closed spec fn player_view(&self) -> Player {
        self.player
    }

    pub closed spec fn day_view(&self) -> u32 {
        self.day
    }

    pub closed spec fn time_view(&self) -> TimeConfig {
        self.time_config
    }

    pub open spec fn wf(&self) -> bool {
        &&& self.player_view().wf()
        &&& self.day_view() >= 1
    }
}

impl GameEngine {
    pub fn new(player: Player) -> (r: GameEngine)
        requires
            player.wf(),
        ensures
            r.wf(),
            r.player_view() == player,
            r.day_view() == STARTING_DAY,
            r.time_view().auto_day_change_minutes == crate::types::DEFAULT_DAY_CHANGE_MINUTES,
            r.time_view().last_day_change.is_some(),
    {
        GameEngine { player, day: STARTING_DAY, time_config: TimeConfig::default() }
    }

    /// Removes the field crops that cannot grow in `new_season` and returns
    /// their names.
    fn handle_season_change(&mut self, new_season: Season) -> (died: Vec<String>)
        requires
            old(self).wf(),
        ensures
            final(self).wf(),
            final(self).player.fields@ == survivors(old(self).player.fields@, new_season),
            names_view(died@) == died_names(old(self).player.fields@, new_season),
            final(self).player.energy == old(self).player.energy,
            final(self).player.money == old(self).player.money,
            final(self).player.inventory == old(self).player.inventory,
            final(self).player.name == old(self).player.name,
            final(self).player.id == old(self).player.id,
            final(self).day == old(self).day,
            final(self).time_config == old(self).time_config,
    {
        let ghost orig = self.player.fields@;
        let n: usize = self.player.fields.len();
        let mut died: Vec<String> = Vec::new();
        let mut rest: Vec<Crop> = Vec::new();
        std::mem::swap(&mut self.player.fields, &mut rest);
        let mut k: usize = 0;
        while rest.len() > 0
            invariant
                k <= orig.len(),
                orig.len() == n,
                old(self).wf(),
                orig == old(self).player.fields@,
                rest@ == orig.subrange(k as int, orig.len() as int),
                self.player.fields@ == survivors(orig.take(k as int), new_season),
                names_view(died@) == died_names(orig.take(k as int), new_season),
                crops_wf(self.player.fields@),
                self.player.energy == old(self).player.energy,
                self.player.money == old(self).player.money,
                self.player.inventory == old(self).player.inventory,
                self.player.name == old(self).player.name,
                self.player.id == old(self).player.id,
                self.day == old(self).day,
                self.time_config == old(self).time_config,
            decreases rest@.len(),
        {
            assert(orig.take(k as int + 1).drop_last() =~= orig.take(k as int));
            let c = rest.remove(0);
            assert(crop_wf(orig[k as int]));
            if c.can_grow_in_season(new_season) {
                self.player.fields.push(c);
            } else {
                died.push(c.name);
                assert(names_view(died@) =~= names_view(died@.drop_last()).push(died@.last()@));
            }
            k += 1;
            assert(rest@ =~= orig.subrange(k as int, orig.len() as int));
        }
        assert(orig.take(orig.len() as int) =~= orig);
        died
    }

    /// Moves to the next day at time `now`, restoring the player's energy and
    /// clearing the fields of crops that the new season kills.
    fn advance_day(&mut self, now: i64) -> (change: Option<SeasonChangeEvent>)
        requires
            old(self).wf(),
            old(self).day < u32::MAX,
        ensures
            final(self).wf(),
            advanced(*old(self), *final(self), now),
            season_change_matches(change, old(self).day, old(self).player.fields@),
    {
        let old_season = Season::from_day(self.day);
        self.player.sleep();
        self.day = self.day + 1;
        self.time_config.last_day_change = Some(now);
        let new_season = Season::from_day(self.day);
        if old_season != new_season {
            let crops_died = self.handle_season_change(new_season);
            Some(SeasonChangeEvent { old_season, new_season, day: self.day, crops_died })
        } else {
            None
        }
    }
}

impl GameEngine {
    pub fn new_game(player_name: &str) -> (r: GameEngine)
        ensures
            r.wf(),
            r.player_view().name@ == player_name@,
            r.player_view().money == crate::player::STARTING_MONEY,
            r.player_view().energy == Player::MAX_ENERGY,
            crate::crop::fresh_of_kinds(r.player_view().inventory@, crate::crop::starter_kinds()),
            r.player_view().fields@.len() == 0,
            r.day_view() == STARTING_DAY,
    {
        GameEngine::new(Player::new(player_name))
    }

    /// Executes `command` at the current time.
    pub fn execute(&mut self, command: GameCommand) -> (r: GameResult)
        requires
            old(self).wf(),
        ensures
            final(self).wf(),
            exists|now: i64| command_outcome(*old(self), *final(self), command, r, now),
    {
        let now = now_millis();
        self.execute_at(command, now)
    }

    /// Executes `command` as at time `now` (milliseconds since the Unix epoch).
    pub fn execute_at(&mut self, command: GameCommand, now: i64) -> (r: GameResult)
        requires
            old(self).wf(),
        ensures
            final(self).wf(),
            command_outcome(*old(self), *final(self), command, r, now),
    {
        match command {
            GameCommand::Sleep => self.handle_day(now, true),
            GameCommand::AdvanceDay => self.handle_day(now, false),
            GameCommand::PlantCrop { crop_index } => self.handle_plant_crop(crop_index),
            GameCommand::WaterCrops => self.handle_water_crops(),
            GameCommand::HarvestCrops => self.handle_harvest_crops(),
            GameCommand::BuySeed { seed_name } => self.handle_buy_seed(seed_name),
        }
    }

    fn handle_day(&mut self, now: i64, slept: bool) -> (r: GameResult)
        requires
            old(self).wf(),
        ensures
            final(self).wf(),
            day_outcome(*old(self), *final(self), r, now, slept),
    {
        if self.day == u32::MAX {
            return GameResult::Error(GameError::CalendarExhausted);
        }
        let old_day = self.day;
        let season_change = self.advance_day(now);
        if slept {
            GameResult::Success(GameEvent::Slept { old_day, new_day: self.day, season_change })
        } else {
            GameResult::Success(GameEvent::DayAdvanced { new_day: self.day, season_change })
        }
    }

    fn handle_plant_crop(&mut self, crop_index: usize) -> (r: GameResult)
        requires
            old(self).wf(),
        ensures
            final(self).wf(),
            plant_outcome(*old(self), *final(self), crop_index, r),
    {
        if crop_index >= self.player.inventory.len() {
            return GameResult::Error(GameError::InvalidSelection);
        }
        let crop_name = self.player.inventory[crop_index].name.clone();
        match self.player.plant_crop(crop_index) {
            Ok(()) => GameResult::Success(GameEvent::CropPlanted { crop_name, remaining_energy: self.player.energy }),
            Err(e) => GameResult::Error(e),
        }
    }

    fn handle_water_crops(&mut self) -> (r: GameResult)
        requires
            old(self).wf(),
        ensures
            final(self).wf(),
            water_outcome(*old(self), *final(self), r),
    {
        match self.player.water_crops(self.day) {
            Ok(()) => GameResult::Success(GameEvent::CropsWatered { remaining_energy: self.player.energy }),
            Err(e) => GameResult::Error(e),
        }
    }

    fn handle_harvest_crops(&mut self) -> (r: GameResult)
        requires
            old(self).wf(),
        ensures
            final(self).wf(),
            harvest_outcome(*old(self), *final(self), r),
    {
        match self.player.harvest_crops() {
            Ok(earnings) => GameResult::Success(GameEvent::CropsHarvested { earnings, total_money: self.player.money }),
            Err(e) => GameResult::Error(e),
        }
    }

    fn handle_buy_seed(&mut self, seed_name: String) -> (r: GameResult)
        requires
            old(self).wf(),
        ensures
            final(self).wf(),
            buy_outcome(*old(self), *final(self), seed_name@, r),
    {
        let current_season = Season::from_day(self.day);
        let mut available = get_seasonal_crops(current_season);
        let ghost kinds = seasonal_kinds(current_season);
        let mut i: usize = 0;
        while i < available.len() && !(available[i].name == seed_name)
            invariant
                i <= available@.len(),
                crate::crop::fresh_of_kinds(available@, kinds),
                kind_index(kinds, seed_name@, 0) == kind_index(kinds, seed_name@, i as int),
            decreases available@.len() - i,
        {
            i += 1;
        }
        if i == available.len() {
            return GameResult::Error(GameError::SeedUnavailable);
        }
        assert(is_fresh_of_kind(available@[i as int], kinds[i as int]));
        let cost: u32 = available[i].sell_price / 2;
        if self.player.money < cost {
            return GameResult::Error(GameError::InsufficientFunds);
        }
        let crop = available.remove(i);
        let bought_name = crop.name.clone();
        self.player.money = self.player.money - cost;
        self.player.inventory.push(crop);
        proof {
            assert(self.player.inventory@.drop_last() =~= old(self).player.inventory@);
            assert forall|j: int| 0 <= j < self.player.inventory@.len() implies #[trigger] crop_wf(self.player.inventory@[j]) by {
                if j < old(self).player.inventory@.len() {
                    assert(crop_wf(old(self).player.inventory@[j]));
                }
            }
        }
        GameResult::Success(GameEvent::SeedPurchased { seed_name: bought_name, cost, remaining_money: self.player.money })
    }

    /// A read-only copy of the game state.
    pub fn get_info(&self) -> (r: GameInfo)
        requires
            self.wf(),
        ensures
            r.day == self.day_view(),
            r.player_name@ == self.player_view().name@,
            r.player_money == self.player_view().money,
            r.player_energy == self.player_view().energy,
            r.max_energy == Player::MAX_ENERGY,
            r.current_season == season_of(self.day_view() as int),
            r.year == crate::season::year_of(self.day_view() as int),
            r.day_in_season == crate::season::day_in_season_of(self.day_view() as int),
            same_crops(r.inventory@, self.player_view().inventory@),
            same_crops(r.fields@, self.player_view().fields@),
    {
        GameInfo {
            day: self.day,
            player_name: self.player.name.clone(),
            player_money: self.player.money,
            player_energy: self.player.energy,
            max_energy: Player::MAX_ENERGY,
            current_season: Season::from_day(self.day),
            year: Season::year(self.day),
            day_in_season: Season::day_in_season(self.day),
            inventory: duplicate_crops(&self.player.inventory),
            fields: duplicate_crops(&self.player.fields),
        }
    }

    pub fn get_time_config(&self) -> (r: &TimeConfig)
        ensures
            *r == self.time_view(),
    {
        &self.time_config
    }

    pub fn set_time_config(&mut self, config: TimeConfig)
        ensures
            final(self).time_view() == config,
            final(self).player_view() == old(self).player_view(),
            final(self).day_view() == old(self).day_view(),
    {
        self.time_config = config;
    }

    pub fn get_player(&self) -> (r: &Player)
        ensures
            *r == self.player_view(),
    {
        &self.player
    }

    pub fn get_day(&self) -> (r: u32)
        ensures
            r == self.day_view(),
    {
        self.day
    }

    pub fn get_current_season(&self) -> (r: Season)
        requires
            self.wf(),
        ensures
            r == season_of(self.day_view() as int),
    {
        Season::from_day(self.day)
    }
}

/// Index of the first crop of `s` with identity `id`, from `i` on; the length
/// of `s` where there is none.
pub open spec fn first_with_id(s: Seq<Crop>, id: u128, i: int) -> int
    decreases s.len() - i,
{
    if i < 0 || i >= s.len() {
        s.len() as int
    } else if s[i].id == id {
        i
    } else {
        first_with_id(s, id, i + 1)
    }
}

/// `new` differs from `old` at most in the player's money and inventory.
pub open spec fn only_purse_changed(old: GameEngine, new: GameEngine) -> bool {
    &&& same_day_and_time(old, new)
    &&& new.player_view().energy == old.player_view().energy
    &&& new.player_view().fields == old.player_view().fields
}

/// The engine `e` taken apart and put together again: `r` holds the engine
/// with exactly these parts where they are consistent, and nothing otherwise.
pub open spec fn restored(player: Player, day: u32, time_config: TimeConfig, r: Option<GameEngine>) -> bool {
    if player.wf() && day >= 1 {
        &&& r is Some
        &&& r.unwrap().player_view() == player
        &&& r.unwrap().day_view() == day
        &&& r.unwrap().time_view() == time_config
    } else {
        r is None
    }
}

fn check_crops(s: &Vec<Crop>) -> (r: bool)
    ensures
        r == crops_wf(s@),
{
    let mut i: usize = 0;
    while i < s.len()
        invariant
            i <= s@.len(),
            forall|j: int| 0 <= j < i ==> #[trigger] crop_wf(s@[j]),
        decreases s@.len() - i,
    {
        if !crate::crop::check_crop(&s[i]) {
            return false;
        }
        i += 1;
    }
    true
}

impl GameEngine {
    /// Rebuilds an engine from its parts (as read back from storage),
    /// provided they are consistent.
    pub fn restore(player: Player, day: u32, time_config: TimeConfig) -> (r: Option<GameEngine>)
        ensures
            restored(player, day, time_config, r),
            r matches Some(e) ==> e.wf(),
    {
        if day >= 1 && player.energy <= Player::MAX_ENERGY && check_crops(&player.inventory) && check_crops(&player.fields) {
            Some(GameEngine { player, day, time_config })
        } else {
            None
        }
    }

    pub fn get_player_mut(&mut self) -> (r: &mut Player)
        ensures
            *r == old(self).player_view(),
            final(self).player_view() == *final(r),
            final(self).day_view() == old(self).day_view(),
            final(self).time_view() == old(self).time_view(),
    {
        &mut self.player
    }

    /// Adds `amount` to the player's money.
    pub fn credit_money(&mut self, amount: u32) -> (r: Result<(), GameError>)
        requires
            old(self).wf(),
        ensures
            final(self).wf(),
            only_purse_changed(*old(self), *final(self)),
            final(self).player_view().inventory == old(self).player_view().inventory,
            old(self).player_view().money + amount > u32::MAX ==> r == Err::<(), GameError>(GameError::MoneyOverflow)
                && *final(self) == *old(self),
            old(self).player_view().money + amount <= u32::MAX ==> r == Ok::<(), GameError>(())
                && final(self).player_view().money == old(self).player_view().money + amount,
    {
        if self.player.money > u32::MAX - amount {
            return Err(GameError::MoneyOverflow);
        }
        self.player.money = self.player.money + amount;
        Ok(())
    }

    /// Takes `amount` from the player's money.
    pub fn debit_money(&mut self, amount: u32) -> (r: Result<(), GameError>)
        requires
            old(self).wf(),
        ensures
            final(self).wf(),
            only_purse_changed(*old(self), *final(self)),
            final(self).player_view().inventory == old(self).player_view().inventory,
            old(self).player_view().money < amount ==> r == Err::<(), GameError>(GameError::InsufficientFunds)
                && *final(self) == *old(self),
            old(self).player_view().money >= amount ==> r == Ok::<(), GameError>(())
                && final(self).player_view().money == old(self).player_view().money - amount,
    {
        if self.player.money < amount {
            return Err(GameError::InsufficientFunds);
        }
        self.player.money = self.player.money - amount;
        Ok(())
    }

    /// Appends `crop` to the player's inventory.
    pub fn add_to_inventory(&mut self, crop: Crop)
        requires
            old(self).wf(),
            crop_wf(crop),
        ensures
            final(self).wf(),
            only_purse_changed(*old(self), *final(self)),
            final(self).player_view().money == old(self).player_view().money,
            final(self).player_view().inventory@ == old(self).player_view().inventory@.push(crop),
    {
        self.player.inventory.push(crop);
        proof {
            assert forall|j: int| 0 <= j < self.player.inventory@.len() implies #[trigger] crop_wf(self.player.inventory@[j]) by {
                if j < old(self).player.inventory@.len() {
                    assert(crop_wf(old(self).player.inventory@[j]));
                }
            }
        }
    }

    /// Takes the first inventory crop with identity `id` out of the inventory.
    pub fn remove_from_inventory(&mut self, id: u128) -> (r: Option<Crop>)
        requires
            old(self).wf(),
        ensures
            final(self).wf(),
            only_purse_changed(*old(self), *final(self)),
            final(self).player_view().money == old(self).player_view().money,
            ({
                let inv = old(self).player_view().inventory@;
                let i = first_with_id(inv, id, 0);
                if i == inv.len() {
                    r is None && *final(self) == *old(self)
                } else {
                    r == Some(inv[i]) && final(self).player_view().inventory@ == inv.remove(i)
                }
            }),
    {
        let mut i: usize = 0;
        while i < self.player.inventory.len() && self.player.inventory[i].id != id
            invariant
                i <= self.player.inventory@.len(),
                first_with_id(self.player.inventory@, id, 0) == first_with_id(self.player.inventory@, id, i as int),
            decreases self.player.inventory@.len() - i,
        {
            i += 1;
        }
        if i == self.player.inventory.len() {
            return None;
        }
        let crop = self.player.inventory.remove(i);
        proof {
            assert forall|j: int| 0 <= j < self.player.inventory@.len() implies #[trigger] crop_wf(self.player.inventory@[j]) by {
                if j < i {
                    assert(crop_wf(old(self).player.inventory@[j]));
                } else {
                    assert(crop_wf(old(self).player.inventory@[j + 1]));
                }
            }
        }
        Some(crop)
    }
}

proof fn lemma_survivors_wf(s: Seq<Crop>, season: Season)
    requires
        crops_wf(s),
    ensures
        crops_wf(survivors(s, season)),
    decreases s.len(),
{
    if s.len() > 0 {
        assert(crops_wf(s.drop_last())) by {
            assert forall|i: int| 0 <= i < s.drop_last().len() implies #[trigger] crop_wf(s.drop_last()[i]) by {
                assert(crop_wf(s[i]));
            }
        }
        lemma_survivors_wf(s.drop_last(), season);
        assert(crop_wf(s[s.len() - 1]));
    }
}

proof fn lemma_water_cost_nonneg(s: Seq<Crop>, day: u32)
    ensures
        water_cost(s, day) >= 0,
    decreases s.len(),
{
    if s.len() > 0 {
        lemma_water_cost_nonneg(s.drop_last(), day);
    }
}

/// Every command keeps the engine consistent: energy stays within its bounds
/// and no field crop has more watering days than it needs to grow.
pub proof fn lemma_command_keeps_invariant(
    old: GameEngine,
    new: GameEngine,
    command: GameCommand,
    r: GameResult,
    now: i64,
)
    requires
        old.wf(),
        command_outcome(old, new, command, r, now),
    ensures
        new.wf(),
        new.player_view().energy <= Player::MAX_ENERGY,
        forall|i: int|
            0 <= i < new.player_view().fields@.len() ==> (#[trigger] new.player_view().fields@[i]).watered_days@.len()
                <= new.player_view().fields@[i].growth_days,
{
    let p = old.player_view();
    match command {
        GameCommand::Sleep | GameCommand::AdvanceDay => {
            if old.day_view() < u32::MAX {
                if season_turns(old.day_view()) {
                    lemma_survivors_wf(p.fields@, season_of(old.day_view() as int + 1));
                }
            }
        },
        GameCommand::PlantCrop { crop_index } => {
            if crop_index < p.inventory@.len() && p.energy >= p.inventory@[crop_index as int].energy_cost {
                let q = new.player_view();
                assert forall|i: int| 0 <= i < q.inventory@.len() implies #[trigger] crop_wf(q.inventory@[i]) by {
                    if i < crop_index {
                        assert(crop_wf(p.inventory@[i]));
                    } else {
                        assert(crop_wf(p.inventory@[i + 1]));
                    }
                }
                assert forall|i: int| 0 <= i < q.fields@.len() implies #[trigger] crop_wf(q.fields@[i]) by {
                    if i < p.fields@.len() {
                        assert(crop_wf(p.fields@[i]));
                    } else {
                        assert(crop_wf(p.inventory@[crop_index as int]));
                    }
                }
            }
        },
        GameCommand::WaterCrops => {
            if p.fields@.len() > 0 {
                let q = new.player_view();
                let stop = water_stop(p.fields@, p.energy as int, old.day_view(), 0);
                lemma_water_cost_nonneg(p.fields@.take(stop), old.day_view());
                assert forall|i: int| 0 <= i < q.fields@.len() implies #[trigger] crop_wf(q.fields@[i]) by {
                    assert(crop_wf(p.fields@[i]));
                    if i < stop && crate::player::needs_water(p.fields@[i], old.day_view()) {
                        assert(crate::player::watered_on(p.fields@[i], q.fields@[i], old.day_view()));
                    }
                }
            }
        },
        GameCommand::HarvestCrops => {
            crate::player::lemma_unready_wf(p.fields@);
        },
        GameCommand::BuySeed { seed_name } => {
            let q = new.player_view();
            let kinds = seasonal_kinds(season_of(old.day_view() as int));
            let k = kind_index(kinds, seed_name@, 0);
            if k != kinds.len() && p.money >= seed_cost(kinds[k].2) {
                assert(q.inventory@.last().watered_days@.no_duplicates());
                assert forall|i: int| 0 <= i < q.inventory@.len() implies #[trigger] crop_wf(q.inventory@[i]) by {
                    if i < p.inventory@.len() {
                        assert(q.inventory@[i] == q.inventory@.drop_last()[i]);
                        assert(crop_wf(p.inventory@[i]));
                    }
                }
            }
        },
    }
    let q = new.player_view();
    assert forall|i: int| 0 <= i < q.fields@.len() implies (#[trigger] q.fields@[i]).watered_days@.len()
        <= q.fields@[i].growth_days by {
        assert(crop_wf(q.fields@[i]));
    }
}

/// A crop planted the day before a new season in which it cannot grow is gone
/// from the fields after the night: the fields are what they would have been
/// without it, and its name closes the list of crops that died.
pub proof fn lemma_planted_out_of_season_dies(
    e0: GameEngine,
    e1: GameEngine,
    e2: GameEngine,
    index: usize,
    r1: GameResult,
    r2: GameResult,
    now: i64,
)
    requires
        e0.wf(),
        e0.day_view() < u32::MAX,
        index < e0.player_view().inventory@.len(),
        e0.player_view().energy >= e0.player_view().inventory@[index as int].energy_cost,
        season_turns(e0.day_view()),
        !e0.player_view().inventory@[index as int].seasons@.contains(season_of(e0.day_view() as int + 1)),
        plant_outcome(e0, e1, index, r1),
        day_outcome(e1, e2, r2, now, false),
    ensures
        e2.player_view().fields@ == survivors(e0.player_view().fields@, season_of(e0.day_view() as int + 1)),
        match r2 {
            GameResult::Success(GameEvent::DayAdvanced { season_change: Some(change), .. }) => names_view(
                change.crops_died@,
            ) == died_names(e0.player_view().fields@, season_of(e0.day_view() as int + 1)).push(
                e0.player_view().inventory@[index as int].name@,
            ),
            _ => false,
        },
{
    let s = e0.player_view().fields@;
    let c = e0.player_view().inventory@[index as int];
    assert(s.push(c).drop_last() =~= s);
}

/// Harvesting with k ready crops earns the sum of their sell prices, adds it
/// to the money, and leaves the fields k crops shorter, none of them ready.
pub proof fn lemma_harvest_accounting(old: GameEngine, new: GameEngine, r: GameResult)
    requires
        old.wf(),
        harvest_outcome(old, new, r),
        r is Success,
    ensures
        ({
            let k = crate::player::ready_count(old.player_view().fields@);
            let earnings = ready_total(old.player_view().fields@);
            &&& r == GameResult::Success(GameEvent::CropsHarvested {
                earnings: earnings as u32,
                total_money: new.player_view().money,
            })
            &&& new.player_view().money == old.player_view().money + earnings
            &&& new.player_view().fields@.len() == old.player_view().fields@.len() - k
            &&& forall|i: int| 0 <= i < new.player_view().fields@.len()
                ==> !(#[trigger] new.player_view().fields@[i]).ready_harvest
        }),
{
    crate::player::lemma_unready_len(old.player_view().fields@);
}

/// Taking a consistent engine apart and restoring it from its parts gives the
/// same engine back.
pub proof fn lemma_restore_round_trip(e: GameEngine, r: Option<GameEngine>)
    requires
        e.wf(),
        restored(e.player_view(), e.day_view(), e.time_view(), r),
    ensures
        r == Some(e),
{
    assert(r.unwrap() == e);
}

} // verus!
