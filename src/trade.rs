use vstd::prelude::*;

use crate::crop::{crop_wf, same_crop, Crop};
use crate::engine::{first_with_id, GameEngine};

verus! {

/// Status that a responder writes in its acknowledgment of a trade.
pub const TRADE_ACCEPTED: &'static str = "trade_accepted";

#[derive(Debug, Clone, Copy, PartialEq, Eq, Structural)]
pub enum TradeItemType {
    Crop,
    Money,
}

/// What one peer hands to another: an amount of money or one crop.
#[derive(Debug, Clone)]
pub struct TradeItem {
    pub item_type: TradeItemType,
    pub amount: Option<u32>,
    pub crop: Option<Crop>,
}

/// The payload matches the tag, and nothing else is filled in.
pub open spec fn item_wf(item: TradeItem) -> bool {
    match item.item_type {
        TradeItemType::Money => item.amount is Some && item.crop is None,
        TradeItemType::Crop => item.amount is None && item.crop is Some && crop_wf(item.crop.unwrap()),
    }
}

/// Why a trade did not go through on this side.
#[derive(Debug, Clone, Copy, PartialEq, Eq, Structural)]
pub enum TradeError {
    NoResponse,
    TradeRejected,
    InsufficientFunds,
    CropNotFound,
    MoneyOverflow,
    MalformedItem,
}

/// The responder's answer: a status and the item it received.
#[derive(Debug, Clone)]
pub struct TradeAck {
    pub status: String,
    pub item: TradeItem,
}

impl TradeItem {
    pub fn money(amount: u32) -> (r: TradeItem)
        ensures
            item_wf(r),
            r.item_type == TradeItemType::Money,
            r.amount == Some(amount),
    {
        TradeItem { item_type: TradeItemType::Money, amount: Some(amount), crop: None }
    }

    pub fn crop(crop: Crop) -> (r: TradeItem)
        ensures
            r.item_type == TradeItemType::Crop,
            r.amount is None,
            r.crop == Some(crop),
            crop_wf(crop) ==> item_wf(r),
    {
        TradeItem { item_type: TradeItemType::Crop, amount: None, crop: Some(crop) }
    }

    /// Tells whether the payload matches the tag.
    pub fn is_well_formed(&self) -> (r: bool)
        ensures
            r == item_wf(*self),
    {
        match self.item_type {
            TradeItemType::Money => self.amount.is_some() && self.crop.is_none(),
            TradeItemType::Crop => match &self.crop {
                Some(c) => self.amount.is_none() && crate::crop::check_crop(c),
                None => false,
            },
        }
    }

    /// A copy of this item, crop identity included.
    pub fn duplicate(&self) -> (r: TradeItem)
        ensures
            same_item(r, *self),
    {
        let crop = match &self.crop {
            Some(c) => Some(c.duplicate()),
            None => None,
        };
        TradeItem { item_type: self.item_type, amount: self.amount, crop }
    }
}

pub open spec fn same_item(a: TradeItem, b: TradeItem) -> bool {
    &&& a.item_type == b.item_type
    &&& a.amount == b.amount
    &&& a.crop is Some <==> b.crop is Some
    &&& a.crop is Some ==> same_crop(a.crop.unwrap(), b.crop.unwrap())
}

/// What the responder does with a received `item`, seen on its engine.
pub open spec fn received(old: GameEngine, new: GameEngine, item: TradeItem, r: Result<TradeAck, TradeError>) -> bool {
    if !item_wf(item) {
        r == Err::<TradeAck, TradeError>(TradeError::MalformedItem) && new == old
    } else if item.item_type == TradeItemType::Money && old.player_view().money + item.amount.unwrap() > u32::MAX {
        r == Err::<TradeAck, TradeError>(TradeError::MoneyOverflow) && new == old
    } else {
        &&& r is Ok
        &&& r.unwrap().status@ == TRADE_ACCEPTED@
        &&& same_item(r.unwrap().item, item)
        &&& crate::engine::only_purse_changed(old, new)
        &&& match item.item_type {
            TradeItemType::Money => {
                &&& new.player_view().money == old.player_view().money + item.amount.unwrap()
                &&& new.player_view().inventory == old.player_view().inventory
            },
            TradeItemType::Crop => {
                &&& new.player_view().money == old.player_view().money
                &&& new.player_view().inventory@ == old.player_view().inventory@.push(item.crop.unwrap())
            },
        }
    }
}

/// What the initiator does once the exchange is over, seen on its engine.
/// `status` is the acknowledgment's status, `None` where none came back.
pub open spec fn settled(old: GameEngine, new: GameEngine, item: TradeItem, status: Option<Seq<char>>, r: Result<(), TradeError>) -> bool {
    let inv = old.player_view().inventory@;
    if status is None {
        r == Err::<(), TradeError>(TradeError::NoResponse) && new == old
    } else if status.unwrap() != TRADE_ACCEPTED@ {
        r == Err::<(), TradeError>(TradeError::TradeRejected) && new == old
    } else if !item_wf(item) {
        r == Err::<(), TradeError>(TradeError::MalformedItem) && new == old
    } else {
        match item.item_type {
            TradeItemType::Money => if old.player_view().money < item.amount.unwrap() {
                r == Err::<(), TradeError>(TradeError::InsufficientFunds) && new == old
            } else {
                &&& r == Ok::<(), TradeError>(())
                &&& crate::engine::only_purse_changed(old, new)
                &&& new.player_view().money == old.player_view().money - item.amount.unwrap()
                &&& new.player_view().inventory == old.player_view().inventory
            },
            TradeItemType::Crop => {
                let i = first_with_id(inv, item.crop.unwrap().id, 0);
                if i == inv.len() {
                    r == Err::<(), TradeError>(TradeError::CropNotFound) && new == old
                } else {
                    &&& r == Ok::<(), TradeError>(())
                    &&& crate::engine::only_purse_changed(old, new)
                    &&& new.player_view().money == old.player_view().money
                    &&& new.player_view().inventory@ == inv.remove(i)
                }
            },
        }
    }
}

/// Responder side: applies the received `item` to the engine at once, then
/// answers with an acceptance that echoes it.
pub fn accept_trade(engine: &mut GameEngine, item: TradeItem) -> (r: Result<TradeAck, TradeError>)
    requires
        old(engine).wf(),
    ensures
        final(engine).wf(),
        received(*old(engine), *final(engine), item, r),
{
    if !item.is_well_formed() {
        return Err(TradeError::MalformedItem);
    }
    let echo = item.duplicate();
    match item.item_type {
        TradeItemType::Money => {
            let amount = item.amount.unwrap();
            match engine.credit_money(amount) {
                Ok(()) => {},
                Err(_) => {
                    return Err(TradeError::MoneyOverflow);
                },
            }
        },
        TradeItemType::Crop => {
            let crop = item.crop.unwrap();
            engine.add_to_inventory(crop);
        },
    }
    Ok(TradeAck { status: TRADE_ACCEPTED.to_owned(), item: echo })
}

/// Initiator side: once the exchange is over, takes the traded item from the
/// engine if the peer accepted it. `status` is the acknowledgment's status,
/// `None` where the acknowledgment was missing or empty.
pub fn settle_trade(engine: &mut GameEngine, item: &TradeItem, status: Option<String>) -> (r: Result<(), TradeError>)
    requires
        old(engine).wf(),
    ensures
        final(engine).wf(),
        settled(*old(engine), *final(engine), *item, match status {
            Some(s) => Some(s@),
            None => None,
        }, r),
{
    let status = match status {
        Some(s) => s,
        None => {
            return Err(TradeError::NoResponse);
        },
    };
    let accepted = TRADE_ACCEPTED.to_owned();
    if !(status == accepted) {
        return Err(TradeError::TradeRejected);
    }
    if !item.is_well_formed() {
        return Err(TradeError::MalformedItem);
    }
    match item.item_type {
        TradeItemType::Money => {
            let amount = item.amount.unwrap();
            match engine.debit_money(amount) {
                Ok(()) => Ok(()),
                Err(_) => Err(TradeError::InsufficientFunds),
            }
        },
        TradeItemType::Crop => {
            let id = match &item.crop {
                Some(c) => c.id,
                None => {
                    return Err(TradeError::MalformedItem);
                },
            };
            match engine.remove_from_inventory(id) {
                Some(_) => Ok(()),
                None => Err(TradeError::CropNotFound),
            }
        },
    }
}

/// A money trade that both sides complete moves the amount from the
/// initiator to the responder: the two purses together hold what they held.
pub proof fn lemma_completed_money_trade_conserves(
    responder_before: GameEngine,
    responder_after: GameEngine,
    initiator_before: GameEngine,
    initiator_after: GameEngine,
    item: TradeItem,
    ack: TradeAck,
)
    requires
        item.item_type == TradeItemType::Money,
        received(responder_before, responder_after, item, Ok(ack)),
        settled(initiator_before, initiator_after, item, Some(ack.status@), Ok(())),
    ensures
        responder_after.player_view().money == responder_before.player_view().money + item.amount.unwrap(),
        initiator_after.player_view().money == initiator_before.player_view().money - item.amount.unwrap(),
        responder_after.player_view().money + initiator_after.player_view().money
            == responder_before.player_view().money + initiator_before.player_view().money,
{
}

/// Where the acknowledgment is lost after the responder applied a money
/// trade, the initiator keeps its money while the responder has been paid:
/// the two purses together hold the amount more than before.
pub proof fn lemma_lost_acknowledgment_inflates(
    responder_before: GameEngine,
    responder_after: GameEngine,
    initiator_before: GameEngine,
    initiator_after: GameEngine,
    item: TradeItem,
    ack: TradeAck,
    r: Result<(), TradeError>,
)
    requires
        item.item_type == TradeItemType::Money,
        received(responder_before, responder_after, item, Ok(ack)),
        settled(initiator_before, initiator_after, item, None, r),
    ensures
        r == Err::<(), TradeError>(TradeError::NoResponse),
        initiator_after == initiator_before,
        responder_after.player_view().money + initiator_after.player_view().money
            == responder_before.player_view().money + initiator_before.player_view().money + item.amount.unwrap(),
{
}

} // verus!
