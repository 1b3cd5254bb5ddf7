use vstd::prelude::*;

use crate::crop::{crop_wf, crops_wf, fresh_id, fresh_of_kinds, initiate_starter_crops, starter_kinds, Crop};
use crate::types::GameError;

verus! {

/// Money a new player starts with.
pub const STARTING_MONEY: u32 = 1000;

#[derive(Debug, Clone)]
pub struct Player {
    pub id: u128,
    pub name: String,
    pub money: u32,
    pub energy: u8,
    pub inventory: Vec<Crop>,
    pub fields: Vec<Crop>,
}

/// A crop that watering on `day` would water.
pub open spec fn needs_water(c: Crop, day: u32) -> bool {
    !c.ready_harvest && !c.watered_days@.contains(day)
}

/// Energy that watering every crop of `s` that needs it on `day` costs.
pub open spec fn water_cost(s: Seq<Crop>, day: u32) -> int
    decreases s.len(),
{
    if s.len() == 0 {
        0
    } else {
        water_cost(s.drop_last(), day) + if needs_water(s.last(), day) {
            s.last().energy_cost as int
        } else {
            0
        }
    }
}

/// Index of the first crop, from `i` on, that watering cannot pay for, given
/// `energy` at the start; the length of `s` where every one is paid for.
pub open spec fn water_stop(s: Seq<Crop>, energy: int, day: u32, i: int) -> int
    decreases s.len() - i,
{
    if i < 0 || i >= s.len() {
        s.len() as int
    } else if needs_water(s[i], day) && energy - water_cost(s.take(i), day) < s[i].energy_cost {
        i
    } else {
        water_stop(s, energy, day, i + 1)
    }
}

/// `after` is `before` watered on `day`.
pub open spec fn watered_on(before: Crop, after: Crop, day: u32) -> bool {
    &&& after.id == before.id
    &&& after.name == before.name
    &&& after.growth_days == before.growth_days
    &&& after.sell_price == before.sell_price
    &&& after.energy_cost == before.energy_cost
    &&& after.seasons == before.seasons
    &&& after.icon == before.icon
    &&& after.watered_days@ == before.watered_days@.push(day)
    &&& after.ready_harvest == (before.watered_days@.len() + 1 == before.growth_days as int)
}

/// The field `after` is `before` after a watering on `day` that handled the
/// crops before index `stop` and left the rest alone.
pub open spec fn fields_watered(before: Seq<Crop>, after: Seq<Crop>, day: u32, stop: int) -> bool {
    &&& after.len() == before.len()
    &&& forall|i: int|
        0 <= i < before.len() ==> if i < stop && needs_water(#[trigger] before[i], day) {
            watered_on(before[i], after[i], day)
        } else {
            after[i] == before[i]
        }
}

/// Total sell price of the crops of `s` that are ready.
pub open spec fn ready_total(s: Seq<Crop>) -> int
    decreases s.len(),
{
    if s.len() == 0 {
        0
    } else {
        ready_total(s.drop_last()) + if s.last().ready_harvest {
            s.last().sell_price as int
        } else {
            0
        }
    }
}

/// Number of crops of `s` that are ready.
pub open spec fn ready_count(s: Seq<Crop>) -> int
    decreases s.len(),
{
    if s.len() == 0 {
        0
    } else {
        ready_count(s.drop_last()) + if s.last().ready_harvest {
            1int
        } else {
            0
        }
    }
}

/// The crops of `s` that are not ready, in order.
pub open spec fn unready(s: Seq<Crop>) -> Seq<Crop>
    decreases s.len(),
{
    if s.len() == 0 {
        s
    } else if s.last().ready_harvest {
        unready(s.drop_last())
    } else {
        unready(s.drop_last()).push(s.last())
    }
}


fn contains_day(v: &Vec<u32>, day: u32) -> (r: bool)
    ensures
        r == v@.contains(day),
{
    let mut i: usize = 0;
    while i < v.len()
        invariant
            i <= v@.len(),
            forall|j: int| 0 <= j < i ==> v@[j] != day,
        decreases v@.len() - i,
    {
        if v[i] == day {
            return true;
        }
        i += 1;
    }
    false
}

proof fn lemma_ready_total_prefix(s: Seq<Crop>, k: int)
    requires
        0 <= k <= s.len(),
    ensures
        ready_total(s.take(k)) <= ready_total(s),
        ready_total(s) >= 0,
    decreases s.len(),
{
    if s.len() > 0 {
        if k == s.len() {
            assert(s.take(k) =~= s);
            lemma_ready_total_prefix(s.drop_last(), k - 1);
        } else {
            lemma_ready_total_prefix(s.drop_last(), k);
            assert(s.drop_last().take(k) =~= s.take(k));
        }
    }
}

/// Harvesting removes exactly the ready crops: what stays is the field less
/// as many crops as were ready.
pub proof fn lemma_unready_len(s: Seq<Crop>)
    ensures
        unready(s).len() == s.len() - ready_count(s),
        0 <= ready_count(s) <= s.len(),
        forall|i: int| 0 <= i < unready(s).len() ==> !(#[trigger] unready(s)[i]).ready_harvest,
    decreases s.len(),
{
    if s.len() > 0 {
        lemma_unready_len(s.drop_last());
    }
}

pub(crate) proof fn lemma_unready_wf(s: Seq<Crop>)
    requires
        crops_wf(s),
    ensures
        crops_wf(unready(s)),
    decreases s.len(),
{
    if s.len() > 0 {
        assert(crops_wf(s.drop_last())) by {
            assert forall|i: int| 0 <= i < s.drop_last().len() implies #[trigger] crop_wf(s.drop_last()[i]) by {
                assert(crop_wf(s[i]));
            }
        }
        lemma_unready_wf(s.drop_last());
        assert(crop_wf(s[s.len() - 1]));
    }
}

impl Player {
    pub const MAX_ENERGY: u8 = 100;

    pub open spec fn wf(&self) -> bool {
        &&& self.energy <= Player::MAX_ENERGY
        &&& crops_wf(self.inventory@)
        &&& crops_wf(self.fields@)
    }

    pub fn new(name: &str) -> (r: Player)
        ensures
            r.wf(),
            r.name@ == name@,
            r.money == STARTING_MONEY,
            r.energy == Player::MAX_ENERGY,
            fresh_of_kinds(r.inventory@, starter_kinds()),
            r.fields@.len() == 0,
    {
        Player {
            id: fresh_id(),
            name: name.to_owned(),
            money: STARTING_MONEY,
            energy: Player::MAX_ENERGY,
            inventory: initiate_starter_crops(),
            fields: Vec::new(),
        }
    }

    pub fn sleep(&mut self)
        ensures
            *final(self) == (Player { energy: Player::MAX_ENERGY, ..*old(self) }),
    {
        self.energy = Player::MAX_ENERGY;
    }

    /// Waters every field crop that is not ready and not yet watered on `day`,
    /// in order, until one of them costs more energy than is left.
    pub fn water_crops(&mut self, day: u32) -> (r: Result<(), GameError>)
        requires
            old(self).wf(),
        ensures
            final(self).wf(),
            old(self).fields@.len() == 0 ==> r == Err::<(), GameError>(GameError::NoCropsToWater)
                && *final(self) == *old(self),
            old(self).fields@.len() > 0 ==> {
                let stop = water_stop(old(self).fields@, old(self).energy as int, day, 0);
                &&& r == if stop == old(self).fields@.len() {
                    Ok::<(), GameError>(())
                } else {
                    Err::<(), GameError>(GameError::InsufficientEnergy)
                }
                &&& fields_watered(old(self).fields@, final(self).fields@, day, stop)
                &&& final(self).energy == old(self).energy - water_cost(old(self).fields@.take(stop), day)
                &&& final(self).inventory == old(self).inventory
                &&& final(self).money == old(self).money
                &&& final(self).name == old(self).name
                &&& final(self).id == old(self).id
            },
    {
        if self.fields.len() == 0 {
            return Err(GameError::NoCropsToWater);
        }
        let ghost orig = self.fields@;
        let ghost e0 = self.energy as int;
        let mut i: usize = 0;
        while i < self.fields.len()
            invariant
                self.fields@.len() == orig.len(),
                orig.len() > 0,
                i <= orig.len(),
                orig == old(self).fields@,
                old(self).wf(),
                e0 == old(self).energy as int,
                water_stop(orig, e0, day, 0) == water_stop(orig, e0, day, i as int),
                self.energy as int == e0 - water_cost(orig.take(i as int), day),
                fields_watered(orig, self.fields@, day, i as int),
                crops_wf(self.fields@),
                crops_wf(orig),
                self.energy <= Player::MAX_ENERGY,
                self.inventory == old(self).inventory,
                self.money == old(self).money,
                self.name == old(self).name,
                self.id == old(self).id,
            decreases orig.len() - i,
        {
            assert(orig.take(i as int + 1).drop_last() =~= orig.take(i as int));
            assert(self.fields@[i as int] == orig[i as int]);
            let ready = self.fields[i].ready_harvest;
            let watered = contains_day(&self.fields[i].watered_days, day);
            if ready || watered {
                i += 1;
                continue;
            }
            if self.energy < self.fields[i].energy_cost {
                assert(water_stop(orig, e0, day, i as int) == i as int);
                return Err(GameError::InsufficientEnergy);
            }
            let mut crop = self.fields.remove(i);
            proof {
                assert(crop_wf(crop));
            }
            crop.watered_days.push(day);
            self.energy = self.energy - crop.energy_cost;
            crop.ready_harvest = crop.watered_days.len() == crop.growth_days as usize;
            self.fields.insert(i, crop);
            proof {
                assert(crop_wf(crop)) by {
                    assert(crop.watered_days@.no_duplicates());
                }
            }
            i += 1;
        }
        assert(orig.take(orig.len() as int) =~= orig);
        Ok(())
    }

    /// Sells every ready field crop at once.
    pub fn harvest_crops(&mut self) -> (r: Result<u32, GameError>)
        requires
            old(self).wf(),
        ensures
            final(self).wf(),
            old(self).fields@.len() == 0 || ready_total(old(self).fields@) == 0
                ==> r == Err::<u32, GameError>(GameError::NothingReady),
            old(self).fields@.len() > 0 && ready_total(old(self).fields@) > 0
                && old(self).money + ready_total(old(self).fields@) > u32::MAX
                ==> r == Err::<u32, GameError>(GameError::MoneyOverflow),
            ready_total(old(self).fields@) >= 0,
            r.is_err() ==> *final(self) == *old(self),
            r.is_ok() <==> (old(self).fields@.len() > 0 && ready_total(old(self).fields@) > 0
                && old(self).money + ready_total(old(self).fields@) <= u32::MAX),
            r.is_ok() ==> {
                &&& r == Ok::<u32, GameError>(ready_total(old(self).fields@) as u32)
                &&& final(self).money == old(self).money + ready_total(old(self).fields@)
                &&& final(self).fields@ == unready(old(self).fields@)
                &&& final(self).energy == old(self).energy
                &&& final(self).inventory == old(self).inventory
                &&& final(self).name == old(self).name
                &&& final(self).id == old(self).id
            },
    {
        proof {
            lemma_ready_total_prefix(self.fields@, 0);
        }
        if self.fields.len() == 0 {
            return Err(GameError::NothingReady);
        }
        let ghost orig = self.fields@;
        let limit: u64 = (u32::MAX - self.money) as u64;
        let mut total: u64 = 0;
        let mut i: usize = 0;
        while i < self.fields.len()
            invariant
                *self == *old(self),
                old(self).wf(),
                self.fields@ == orig,
                orig == old(self).fields@,
                i <= orig.len(),
                total == ready_total(orig.take(i as int)),
                total <= limit,
                limit == u32::MAX - self.money,
            decreases orig.len() - i,
        {
            assert(orig.take(i as int + 1).drop_last() =~= orig.take(i as int));
            if self.fields[i].ready_harvest {
                total = total + self.fields[i].sell_price as u64;
                if total > limit {
                    proof {
                        lemma_ready_total_prefix(orig, i as int + 1);
                    }
                    return Err(GameError::MoneyOverflow);
                }
            }
            i += 1;
        }
        assert(orig.take(orig.len() as int) =~= orig);
        if total == 0 {
            return Err(GameError::NothingReady);
        }
        let n: usize = self.fields.len();
        let mut rest: Vec<Crop> = Vec::new();
        std::mem::swap(&mut self.fields, &mut rest);
        let mut k: usize = 0;
        while rest.len() > 0
            invariant
                k <= orig.len(),
                orig.len() == n,
                old(self).wf(),
                orig == old(self).fields@,
                total == ready_total(orig),
                total <= limit,
                limit == u32::MAX - old(self).money,
                self.money == old(self).money,
                self.energy == old(self).energy,
                self.inventory == old(self).inventory,
                self.name == old(self).name,
                self.id == old(self).id,
                rest@ == orig.subrange(k as int, orig.len() as int),
                self.fields@ == unready(orig.take(k as int)),
            decreases rest@.len(),
        {
            assert(orig.take(k as int + 1).drop_last() =~= orig.take(k as int));
            let c = rest.remove(0);
            if !c.ready_harvest {
                self.fields.push(c);
            }
            k += 1;
            assert(rest@ =~= orig.subrange(k as int, orig.len() as int));
        }
        assert(orig.take(orig.len() as int) =~= orig);
        proof {
            lemma_unready_wf(orig);
        }
        self.money = self.money + total as u32;
        Ok(total as u32)
    }

    /// Moves inventory crop `index` to the end of the fields.
    pub fn plant_crop(&mut self, index: usize) -> (r: Result<(), GameError>)
        requires
            old(self).wf(),
        ensures
            final(self).wf(),
            index >= old(self).inventory@.len() ==> r == Err::<(), GameError>(GameError::InvalidSelection),
            index < old(self).inventory@.len() && old(self).energy < old(self).inventory@[index as int].energy_cost
                ==> r == Err::<(), GameError>(GameError::InsufficientEnergy),
                        r.is_err() ==> *final(self) == *old(self),
            r.is_ok() <==> (index < old(self).inventory@.len() && old(self).energy
                >= old(self).inventory@[index as int].energy_cost),
            r.is_ok() ==> {
                &&& final(self).inventory@ == old(self).inventory@.remove(index as int)
                &&& final(self).fields@ == old(self).fields@.push(old(self).inventory@[index as int])
                &&& final(self).energy == old(self).energy - old(self).inventory@[index as int].energy_cost
                &&& final(self).money == old(self).money
                &&& final(self).name == old(self).name
                &&& final(self).id == old(self).id
            },
    {
        if index >= self.inventory.len() {
            return Err(GameError::InvalidSelection);
        }
        if self.energy < self.inventory[index].energy_cost {
            return Err(GameError::InsufficientEnergy);
        }
        let crop = self.inventory.remove(index);
        self.energy = self.energy - crop.energy_cost;
        self.fields.push(crop);
        proof {
            assert forall|i: int| 0 <= i < self.inventory@.len() implies #[trigger] crop_wf(self.inventory@[i]) by {
                if i < index {
                    assert(crop_wf(old(self).inventory@[i]));
                } else {
                    assert(crop_wf(old(self).inventory@[i + 1]));
                }
            }
            assert forall|i: int| 0 <= i < self.fields@.len() implies #[trigger] crop_wf(self.fields@[i]) by {
                if i < old(self).fields@.len() {
                    assert(crop_wf(old(self).fields@[i]));
                } else {
                    assert(crop_wf(old(self).inventory@[index as int]));
                }
            }
        }
        Ok(())
    }
}

} // verus!
