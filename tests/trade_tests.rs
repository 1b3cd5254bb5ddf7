use p2p_harvest_game::crop::Crop;
use p2p_harvest_game::monitor::days_due;
use p2p_harvest_game::trade::{accept_trade, settle_trade, TradeError, TradeItem, TradeItemType, TRADE_ACCEPTED};
use p2p_harvest_game::types::{GameEvent, TimeConfig};
use p2p_harvest_game::{GameEngine, Player, Season};

fn accepted() -> Option<String> {
    Some(TRADE_ACCEPTED.to_string())
}

#[test]
fn money_trade_round_trip() {
    let mut initiator = GameEngine::new_game("Ini");
    let mut responder = GameEngine::new_game("Res");
    let item = TradeItem::money(200);
    let ack = accept_trade(&mut responder, item.clone()).unwrap();
    assert_eq!(ack.status, "trade_accepted");
    assert_eq!(ack.item.item_type, TradeItemType::Money);
    assert_eq!(ack.item.amount, Some(200));
    assert!(ack.item.crop.is_none());
    assert_eq!(responder.get_player().money, 1200);
    settle_trade(&mut initiator, &item, Some(ack.status)).unwrap();
    assert_eq!(initiator.get_player().money, 800);
    assert_eq!(initiator.get_player().money + responder.get_player().money, 2000);
}

#[test]
fn dropped_acknowledgment_inflates_money() {
    let mut initiator = GameEngine::new_game("Ini");
    let mut responder = GameEngine::new_game("Res");
    let item = TradeItem::money(200);
    accept_trade(&mut responder, item.clone()).unwrap();
    assert_eq!(settle_trade(&mut initiator, &item, None), Err(TradeError::NoResponse));
    assert_eq!(initiator.get_player().money, 1000);
    assert_eq!(responder.get_player().money, 1200);
    // the optimistic responder leaves more money in the world than before
    assert_eq!(initiator.get_player().money + responder.get_player().money, 2200);
}

#[test]
fn crop_trade_moves_the_crop() {
    let mut initiator = GameEngine::new_game("Ini");
    let mut responder = GameEngine::new_game("Res");
    let sent = initiator.get_player().inventory[2].clone();
    let item = TradeItem::crop(sent.clone());
    let ack = accept_trade(&mut responder, item.clone()).unwrap();
    assert_eq!(ack.item.crop.as_ref().unwrap().id, sent.id);
    assert_eq!(responder.get_player().inventory.len(), 5);
    assert_eq!(responder.get_player().inventory[4].id, sent.id);
    settle_trade(&mut initiator, &item, accepted()).unwrap();
    let names: Vec<&str> = initiator.get_player().inventory.iter().map(|c| c.name.as_str()).collect();
    assert_eq!(names, vec!["Carrot", "Tomato", "Wheat"]);
    assert_eq!(settle_trade(&mut initiator, &item, accepted()), Err(TradeError::CropNotFound));
}

#[test]
fn rejected_and_unaffordable_trades_change_nothing() {
    let mut initiator = GameEngine::new_game("Ini");
    let item = TradeItem::money(200);
    assert_eq!(settle_trade(&mut initiator, &item, Some("trade_declined".to_string())), Err(TradeError::TradeRejected));
    assert_eq!(settle_trade(&mut initiator, &item, Some(String::new())), Err(TradeError::TradeRejected));
    assert_eq!(settle_trade(&mut initiator, &TradeItem::money(1001), accepted()), Err(TradeError::InsufficientFunds));
    assert_eq!(initiator.get_player().money, 1000);
}

#[test]
fn malformed_items_are_refused() {
    let mut engine = GameEngine::new_game("Res");
    let empty = TradeItem { item_type: TradeItemType::Money, amount: None, crop: None };
    assert!(!empty.is_well_formed());
    assert_eq!(accept_trade(&mut engine, empty.clone()).unwrap_err(), TradeError::MalformedItem);
    assert_eq!(settle_trade(&mut engine, &empty, accepted()), Err(TradeError::MalformedItem));
    let mut bad = Crop::new("Bad", 2, 1, vec![Season::Spring], "b");
    bad.watered_days = vec![1, 2, 3];
    let item = TradeItem::crop(bad);
    assert!(!item.is_well_formed());
    assert_eq!(accept_trade(&mut engine, item).unwrap_err(), TradeError::MalformedItem);
    assert_eq!(engine.get_player().inventory.len(), 4);
    assert_eq!(engine.get_player().money, 1000);
}

#[test]
fn incoming_money_that_overflows_is_refused() {
    let mut player = Player::new("Res");
    player.money = u32::MAX - 10;
    let mut engine = GameEngine::restore(player, 1, TimeConfig::default()).unwrap();
    assert_eq!(accept_trade(&mut engine, TradeItem::money(11)).unwrap_err(), TradeError::MoneyOverflow);
    assert_eq!(engine.get_player().money, u32::MAX - 10);
    accept_trade(&mut engine, TradeItem::money(10)).unwrap();
    assert_eq!(engine.get_player().money, u32::MAX);
}

#[test]
fn days_due_counts_whole_intervals() {
    let config = TimeConfig { auto_day_change_minutes: 2, last_day_change: Some(1_000) };
    assert_eq!(days_due(&config, 1_000), 0);
    assert_eq!(days_due(&config, 1_000 + 119_999), 0);
    assert_eq!(days_due(&config, 1_000 + 120_000), 1);
    assert_eq!(days_due(&config, 1_000 + 5 * 60_000), 2);
    assert_eq!(days_due(&config, 1_000 + 6 * 60_000), 3);
    assert_eq!(days_due(&config, 0), 0);
    let never = TimeConfig { auto_day_change_minutes: 2, last_day_change: None };
    assert_eq!(days_due(&never, i64::MAX), 0);
    let off = TimeConfig { auto_day_change_minutes: 0, last_day_change: Some(0) };
    assert_eq!(days_due(&off, 1_000_000), 0);
    let wide = TimeConfig { auto_day_change_minutes: 1, last_day_change: Some(i64::MIN) };
    assert_eq!(days_due(&wide, i64::MAX), (u64::MAX / 60_000));
}

#[test]
fn catch_up_replays_each_due_day() {
    let mut player = Player::new("Bo");
    let carrot = player.inventory.remove(0);
    let tomato = player.inventory.remove(0);
    player.fields.push(tomato);
    player.fields.push(carrot);
    let config = TimeConfig { auto_day_change_minutes: 2, last_day_change: Some(0) };
    let mut engine = GameEngine::restore(player, 9, config).unwrap();
    let events = engine.catch_up(7 * 60_000);
    assert_eq!(events.len(), 3);
    assert_eq!(engine.get_day(), 12);
    let mut died = Vec::new();
    for (i, ev) in events.iter().enumerate() {
        match ev {
            GameEvent::DayAdvanced { new_day, season_change } => {
                assert_eq!(*new_day, 10 + i as u32);
                if let Some(change) = season_change {
                    assert_eq!(*new_day, 11);
                    died.extend(change.crops_died.clone());
                }
            }
            other => panic!("unexpected event {:?}", other),
        }
    }
    assert!(died.is_empty());
    assert_eq!(engine.get_player().fields.len(), 2);
    assert_eq!(engine.get_time_config().last_day_change, Some(7 * 60_000));
    assert!(engine.catch_up(7 * 60_000).is_empty());
    assert_eq!(engine.get_day(), 12);
}

#[test]
fn catch_up_stops_at_the_last_day() {
    let config = TimeConfig { auto_day_change_minutes: 1, last_day_change: Some(0) };
    let mut engine = GameEngine::restore(Player::new("Bo"), u32::MAX - 2, config).unwrap();
    let events = engine.catch_up(10 * 60_000);
    assert_eq!(events.len(), 2);
    assert_eq!(engine.get_day(), u32::MAX);
}
