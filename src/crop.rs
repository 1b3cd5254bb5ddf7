use vstd::prelude::*;

use crate::season::Season;

verus! {

/// Energy that planting or watering one crop costs.
pub const CROP_ENERGY_COST: u8 = 15;

/// Relies on uuid::Uuid::new_v4 for a random identity, read back as its
/// 128-bit value with Uuid::as_u128. Nothing is promised of the value.
#[verifier::external_body]
pub(crate) fn fresh_id() -> (r: u128) {
    uuid::Uuid::new_v4().as_u128()
}

#[derive(Debug, Clone)]
pub struct Crop {
    pub id: u128,
    pub name: String,
    pub growth_days: u8,
    pub sell_price: u32,
    pub watered_days: Vec<u32>,
    pub ready_harvest: bool,
    pub energy_cost: u8,
    pub seasons: Vec<Season>,
    pub icon: String,
}

/// A crop's growth record is consistent: each watering day counted once, never
/// more waterings than it needs, and ready exactly when it had them all.
pub open spec fn crop_wf(c: Crop) -> bool {
    &&& c.watered_days@.no_duplicates()
    &&& c.watered_days@.len() <= c.growth_days as int
    &&& c.ready_harvest == (c.watered_days@.len() == c.growth_days as int)
}

pub open spec fn crops_wf(s: Seq<Crop>) -> bool {
    forall|i: int| 0 <= i < s.len() ==> #[trigger] crop_wf(s[i])
}

/// What a freshly made crop of the given kind looks like.
pub open spec fn is_fresh_crop(
    c: Crop,
    name: Seq<char>,
    growth_days: u8,
    sell_price: u32,
    seasons: Seq<Season>,
    icon: Seq<char>,
) -> bool {
    &&& c.name@ == name
    &&& c.growth_days == growth_days
    &&& c.sell_price == sell_price
    &&& c.watered_days@.len() == 0
    &&& c.ready_harvest == (growth_days == 0)
    &&& c.energy_cost == CROP_ENERGY_COST
    &&& c.seasons@ == seasons
    &&& c.icon@ == icon
}

/// The seasons that most crops grow in.
pub open spec fn default_season_list() -> Seq<Season> {
    seq![Season::Spring, Season::Summer, Season::Autumn]
}

pub fn default_seasons() -> (r: Vec<Season>)
    ensures
        r@ == default_season_list(),
{
    let r = vec![Season::Spring, Season::Summer, Season::Autumn];
    assert(r@ =~= default_season_list());
    r
}

fn day_listed_before(v: &Vec<u32>, k: usize) -> (r: bool)
    requires
        k < v@.len(),
    ensures
        r == exists|j: int| 0 <= j < k && v@[j] == v@[k as int],
{
    let mut j: usize = 0;
    while j < k
        invariant
            j <= k,
            k < v@.len(),
            forall|m: int| 0 <= m < j ==> v@[m] != v@[k as int],
        decreases k - j,
    {
        if v[j] == v[k] {
            return true;
        }
        j += 1;
    }
    false
}

/// Tells whether a crop's growth record is consistent.
pub fn check_crop(c: &Crop) -> (r: bool)
    ensures
        r == crop_wf(*c),
{
    let n = c.watered_days.len();
    if n > c.growth_days as usize || c.ready_harvest != (n == c.growth_days as usize) {
        return false;
    }
    let mut k: usize = 0;
    while k < n
        invariant
            n == c.watered_days@.len(),
            k <= n,
            forall|a: int, b: int| 0 <= a < b < k ==> c.watered_days@[a] != c.watered_days@[b],
        decreases n - k,
    {
        if day_listed_before(&c.watered_days, k) {
            return false;
        }
        k += 1;
    }
    true
}

impl Crop {
    pub fn new(name: &str, growth_days: u8, sell_price: u32, seasons: Vec<Season>, icon: &str) -> (r: Crop)
        ensures
            is_fresh_crop(r, name@, growth_days, sell_price, seasons@, icon@),
            crop_wf(r),
    {
        Crop {
            id: fresh_id(),
            name: name.to_owned(),
            growth_days,
            sell_price,
            watered_days: Vec::new(),
            ready_harvest: growth_days == 0,
            energy_cost: CROP_ENERGY_COST,
            seasons,
            icon: icon.to_owned(),
        }
    }

    pub fn can_grow_in_season(&self, season: Season) -> (r: bool)
        ensures
            r == self.seasons@.contains(season),
    {
        let mut i: usize = 0;
        while i < self.seasons.len()
            invariant
                i <= self.seasons@.len(),
                forall|j: int| 0 <= j < i ==> self.seasons@[j] != season,
            decreases self.seasons@.len() - i,
        {
            if self.seasons[i] == season {
                return true;
            }
            i += 1;
        }
        false
    }

    pub fn dies_in_season(&self, new_season: Season) -> (r: bool)
        ensures
            r == !self.seasons@.contains(new_season),
    {
        !self.can_grow_in_season(new_season)
    }

    /// A copy of this crop, identity included.
    pub fn duplicate(&self) -> (r: Crop)
        ensures
            r.id == self.id,
            r.name@ == self.name@,
            r.growth_days == self.growth_days,
            r.sell_price == self.sell_price,
            r.watered_days@ == self.watered_days@,
            r.ready_harvest == self.ready_harvest,
            r.energy_cost == self.energy_cost,
            r.seasons@ == self.seasons@,
            r.icon@ == self.icon@,
    {
        let watered_days = self.watered_days.clone();
        assert(watered_days@ =~= self.watered_days@);
        let seasons = self.seasons.clone();
        assert(seasons@ =~= self.seasons@);
        Crop {
            id: self.id,
            name: self.name.clone(),
            growth_days: self.growth_days,
            sell_price: self.sell_price,
            watered_days,
            ready_harvest: self.ready_harvest,
            energy_cost: self.energy_cost,
            seasons,
            icon: self.icon.clone(),
        }
    }
}

/// Two crops that agree on every field but storage.
pub open spec fn same_crop(a: Crop, b: Crop) -> bool {
    &&& a.id == b.id
    &&& a.name@ == b.name@
    &&& a.growth_days == b.growth_days
    &&& a.sell_price == b.sell_price
    &&& a.watered_days@ == b.watered_days@
    &&& a.ready_harvest == b.ready_harvest
    &&& a.energy_cost == b.energy_cost
    &&& a.seasons@ == b.seasons@
    &&& a.icon@ == b.icon@
}

pub open spec fn same_crops(a: Seq<Crop>, b: Seq<Crop>) -> bool {
    &&& a.len() == b.len()
    &&& forall|i: int| 0 <= i < a.len() ==> same_crop(#[trigger] a[i], b[i])
}

/// Copies a list of crops one by one.
pub fn duplicate_crops(v: &Vec<Crop>) -> (r: Vec<Crop>)
    ensures
        same_crops(r@, v@),
{
    let mut r: Vec<Crop> = Vec::new();
    let mut i: usize = 0;
    while i < v.len()
        invariant
            i <= v@.len(),
            r@.len() == i,
            forall|j: int| 0 <= j < i ==> same_crop(#[trigger] r@[j], v@[j]),
        decreases v@.len() - i,
    {
        r.push(v[i].duplicate());
        i += 1;
    }
    r
}

/// A kind of crop: name, growth days, sell price, allowed seasons, icon.
pub type CropKind = (Seq<char>, u8, u32, Seq<Season>, Seq<char>);

pub open spec fn is_fresh_of_kind(c: Crop, k: CropKind) -> bool {
    is_fresh_crop(c, k.0, k.1, k.2, k.3, k.4)
}

pub open spec fn all_season_list() -> Seq<Season> {
    seq![Season::Spring, Season::Summer, Season::Autumn, Season::Winter]
}

/// The crops a new player starts with, in inventory order.
pub open spec fn starter_kinds() -> Seq<CropKind> {
    seq![
        ("Carrot"@, 3u8, 50u32, default_season_list(), "🥕"@),
        ("Tomato"@, 5u8, 80u32, seq![Season::Summer], "🍅"@),
        ("Potato"@, 4u8, 60u32, seq![Season::Spring, Season::Autumn], "🥔"@),
        ("Wheat"@, 7u8, 100u32, all_season_list(), "🌾"@),
    ]
}

/// The seeds on sale in each season.
pub open spec fn seasonal_kinds(season: Season) -> Seq<CropKind> {
    match season {
        Season::Spring => seq![
            ("Carrot"@, 3u8, 50u32, default_season_list(), "🥕"@),
            ("Potato"@, 4u8, 60u32, seq![Season::Spring, Season::Autumn], "🍅"@),
            ("Parsnip"@, 4u8, 35u32, seq![Season::Spring], "🥔"@),
        ],
        Season::Summer => seq![
            ("Tomato"@, 5u8, 80u32, seq![Season::Summer], "🍅"@),
            ("Corn"@, 14u8, 150u32, seq![Season::Summer, Season::Autumn], "🌽"@),
            ("Melon"@, 12u8, 250u32, seq![Season::Summer], "🍈"@),
        ],
        Season::Autumn => seq![
            ("Pumpkin"@, 13u8, 320u32, seq![Season::Autumn], "🎃"@),
            ("Corn"@, 14u8, 150u32, seq![Season::Summer, Season::Autumn], "🌽"@),
            ("Yam"@, 10u8, 160u32, seq![Season::Autumn], "🍠"@),
        ],
        Season::Winter => seq![
            ("Wheat"@, 7u8, 100u32, all_season_list(), "🌾"@),
            ("Winter Seeds"@, 7u8, 80u32, seq![Season::Winter], "❄️"@),
        ],
    }
}

pub open spec fn fresh_of_kinds(r: Seq<Crop>, kinds: Seq<CropKind>) -> bool {
    &&& r.len() == kinds.len()
    &&& forall|i: int| 0 <= i < r.len() ==> is_fresh_of_kind(#[trigger] r[i], kinds[i])
}

fn three_crops(a: Crop, b: Crop, c: Crop) -> (r: Vec<Crop>)
    ensures
        r@ == seq![a, b, c],
{
    let r = vec![a, b, c];
    assert(r@ =~= seq![a, b, c]);
    r
}

fn all_seasons() -> (r: Vec<Season>)
    ensures
        r@ == all_season_list(),
{
    let r = vec![Season::Spring, Season::Summer, Season::Autumn, Season::Winter];
    assert(r@ =~= all_season_list());
    r
}

fn one_season(s: Season) -> (r: Vec<Season>)
    ensures
        r@ == seq![s],
{
    let r = vec![s];
    assert(r@ =~= seq![s]);
    r
}

fn two_seasons(s: Season, t: Season) -> (r: Vec<Season>)
    ensures
        r@ == seq![s, t],
{
    let r = vec![s, t];
    assert(r@ =~= seq![s, t]);
    r
}

pub fn initiate_starter_crops() -> (r: Vec<Crop>)
    ensures
        fresh_of_kinds(r@, starter_kinds()),
        crops_wf(r@),
{
    let carrot = Crop::new("Carrot", 3, 50, default_seasons(), "🥕");
    let tomato = Crop::new("Tomato", 5, 80, one_season(Season::Summer), "🍅");
    let potato = Crop::new("Potato", 4, 60, two_seasons(Season::Spring, Season::Autumn), "🥔");
    let wheat = Crop::new("Wheat", 7, 100, all_seasons(), "🌾");
    let r = vec![carrot, tomato, potato, wheat];
    assert(r@ =~= seq![carrot, tomato, potato, wheat]);
    r
}

pub fn get_seasonal_crops(season: Season) -> (r: Vec<Crop>)
    ensures
        fresh_of_kinds(r@, seasonal_kinds(season)),
        crops_wf(r@),
{
    match season {
        Season::Spring => three_crops(
            Crop::new("Carrot", 3, 50, default_seasons(), "🥕"),
            Crop::new("Potato", 4, 60, two_seasons(Season::Spring, Season::Autumn), "🍅"),
            Crop::new("Parsnip", 4, 35, one_season(Season::Spring), "🥔"),
        ),
        Season::Summer => three_crops(
            Crop::new("Tomato", 5, 80, one_season(Season::Summer), "🍅"),
            Crop::new("Corn", 14, 150, two_seasons(Season::Summer, Season::Autumn), "🌽"),
            Crop::new("Melon", 12, 250, one_season(Season::Summer), "🍈"),
        ),
        Season::Autumn => three_crops(
            Crop::new("Pumpkin", 13, 320, one_season(Season::Autumn), "🎃"),
            Crop::new("Corn", 14, 150, two_seasons(Season::Summer, Season::Autumn), "🌽"),
            Crop::new("Yam", 10, 160, one_season(Season::Autumn), "🍠"),
        ),
        Season::Winter => {
            let wheat = Crop::new("Wheat", 7, 100, all_seasons(), "🌾");
            let seeds = Crop::new("Winter Seeds", 7, 80, one_season(Season::Winter), "❄️");
            let r = vec![wheat, seeds];
            assert(r@ =~= seq![wheat, seeds]);
            r
        },
    }
}

} // verus!
