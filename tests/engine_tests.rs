use p2p_harvest_game::crop::{get_seasonal_crops, initiate_starter_crops, Crop};
use p2p_harvest_game::types::{GameCommand, GameError, GameEvent, GameResult, TimeConfig};
use p2p_harvest_game::{GameEngine, Player, Season};

fn expect_success(r: GameResult) -> GameEvent {
    match r {
        GameResult::Success(ev) => ev,
        GameResult::Error(e) => panic!("unexpected error {:?}", e),
    }
}

fn expect_error(r: GameResult) -> GameError {
    match r {
        GameResult::Success(ev) => panic!("unexpected success {:?}", ev),
        GameResult::Error(e) => e,
    }
}

fn engine_at(player: Player, day: u32) -> GameEngine {
    GameEngine::restore(player, day, TimeConfig { auto_day_change_minutes: 2, last_day_change: Some(0) }).unwrap()
}

#[test]
fn new_game_starts_on_day_one() {
    let engine = GameEngine::new_game("Ada");
    let info = engine.get_info();
    assert_eq!(info.day, 1);
    assert_eq!(info.player_name, "Ada");
    assert_eq!(info.player_money, 1000);
    assert_eq!(info.player_energy, 100);
    assert_eq!(info.max_energy, 100);
    assert_eq!(info.current_season, Season::Spring);
    assert_eq!(info.year, 1);
    assert_eq!(info.day_in_season, 1);
    let names: Vec<&str> = info.inventory.iter().map(|c| c.name.as_str()).collect();
    assert_eq!(names, vec!["Carrot", "Tomato", "Potato", "Wheat"]);
    assert!(info.fields.is_empty());
    assert!(engine.get_time_config().last_day_change.is_some());
    assert_eq!(engine.get_time_config().auto_day_change_minutes, 2);
}

#[test]
fn scenario_plant_water_grow_harvest() {
    let mut engine = GameEngine::new_game("Ada");
    assert_eq!(engine.get_day(), 1);
    assert_eq!(engine.get_current_season(), Season::Spring);
    let carrot = &engine.get_player().inventory[0];
    assert_eq!(carrot.name, "Carrot");
    assert_eq!(carrot.growth_days, 3);
    assert_eq!(carrot.energy_cost, 15);

    match expect_success(engine.execute(GameCommand::PlantCrop { crop_index: 0 })) {
        GameEvent::CropPlanted { crop_name, remaining_energy } => {
            assert_eq!(crop_name, "Carrot");
            assert_eq!(remaining_energy, 85);
        }
        other => panic!("unexpected event {:?}", other),
    }
    assert_eq!(engine.get_player().energy, 85);
    assert_eq!(engine.get_player().fields.len(), 1);
    assert!(engine.get_player().fields[0].watered_days.is_empty());
    assert_eq!(engine.get_player().inventory.len(), 3);

    expect_success(engine.execute(GameCommand::WaterCrops));
    assert_eq!(engine.get_player().fields[0].watered_days, vec![1]);
    assert!(!engine.get_player().fields[0].ready_harvest);

    for day in 2..=3u32 {
        expect_success(engine.execute(GameCommand::Sleep));
        assert_eq!(engine.get_day(), day);
        assert_eq!(engine.get_player().energy, 100);
        expect_success(engine.execute(GameCommand::WaterCrops));
    }
    assert_eq!(engine.get_player().fields[0].watered_days, vec![1, 2, 3]);
    assert!(engine.get_player().fields[0].ready_harvest);

    match expect_success(engine.execute(GameCommand::HarvestCrops)) {
        GameEvent::CropsHarvested { earnings, total_money } => {
            assert_eq!(earnings, 50);
            assert_eq!(total_money, 1050);
        }
        other => panic!("unexpected event {:?}", other),
    }
    assert_eq!(engine.get_player().money, 1050);
    assert!(engine.get_player().fields.is_empty());
}

#[test]
fn watering_twice_on_one_day_costs_nothing_more() {
    let mut engine = GameEngine::new_game("Ada");
    expect_success(engine.execute_at(GameCommand::PlantCrop { crop_index: 0 }, 5));
    expect_success(engine.execute_at(GameCommand::WaterCrops, 5));
    assert_eq!(engine.get_player().energy, 70);
    match expect_success(engine.execute_at(GameCommand::WaterCrops, 5)) {
        GameEvent::CropsWatered { remaining_energy } => assert_eq!(remaining_energy, 70),
        other => panic!("unexpected event {:?}", other),
    }
    assert_eq!(engine.get_player().fields[0].watered_days, vec![1]);
}

#[test]
fn plant_errors() {
    let mut engine = GameEngine::new_game("Ada");
    assert_eq!(expect_error(engine.execute(GameCommand::PlantCrop { crop_index: 4 })), GameError::InvalidSelection);
    let mut player = Player::new("Bo");
    player.energy = 14;
    let mut engine = engine_at(player, 1);
    assert_eq!(expect_error(engine.execute(GameCommand::PlantCrop { crop_index: 0 })), GameError::InsufficientEnergy);
    assert_eq!(engine.get_player().inventory.len(), 4);
    assert_eq!(engine.get_player().energy, 14);
}

#[test]
fn water_errors_and_partial_watering() {
    let mut engine = GameEngine::new_game("Ada");
    assert_eq!(expect_error(engine.execute(GameCommand::WaterCrops)), GameError::NoCropsToWater);

    let mut player = Player::new("Bo");
    let a = player.inventory.remove(0);
    let b = player.inventory.remove(0);
    player.fields.push(a);
    player.fields.push(b);
    player.energy = 20;
    let mut engine = engine_at(player, 4);
    assert_eq!(expect_error(engine.execute(GameCommand::WaterCrops)), GameError::InsufficientEnergy);
    // the first crop stays watered, the second is untouched
    assert_eq!(engine.get_player().fields[0].watered_days, vec![4]);
    assert!(engine.get_player().fields[1].watered_days.is_empty());
    assert_eq!(engine.get_player().energy, 5);
}

#[test]
fn harvest_errors() {
    let mut engine = GameEngine::new_game("Ada");
    assert_eq!(expect_error(engine.execute(GameCommand::HarvestCrops)), GameError::NothingReady);
    expect_success(engine.execute(GameCommand::PlantCrop { crop_index: 0 }));
    assert_eq!(expect_error(engine.execute(GameCommand::HarvestCrops)), GameError::NothingReady);

    let mut player = Player::new("Bo");
    let mut crop = Crop::new("Gold", 1, 100, vec![Season::Spring], "*");
    crop.watered_days.push(1);
    crop.ready_harvest = true;
    player.fields.push(crop);
    player.money = u32::MAX - 50;
    let mut engine = engine_at(player, 2);
    assert_eq!(expect_error(engine.execute(GameCommand::HarvestCrops)), GameError::MoneyOverflow);
    assert_eq!(engine.get_player().fields.len(), 1);
    assert_eq!(engine.get_player().money, u32::MAX - 50);
}

#[test]
fn harvest_takes_only_ready_crops() {
    let mut player = Player::new("Bo");
    for (price, ready) in [(10u32, true), (20, false), (30, true), (40, false)] {
        let mut crop = Crop::new("C", 1, price, vec![Season::Spring], "*");
        if ready {
            crop.watered_days.push(1);
            crop.ready_harvest = true;
        }
        player.fields.push(crop);
    }
    let mut engine = engine_at(player, 2);
    match expect_success(engine.execute(GameCommand::HarvestCrops)) {
        GameEvent::CropsHarvested { earnings, total_money } => {
            assert_eq!(earnings, 40);
            assert_eq!(total_money, 1040);
        }
        other => panic!("unexpected event {:?}", other),
    }
    let left: Vec<u32> = engine.get_player().fields.iter().map(|c| c.sell_price).collect();
    assert_eq!(left, vec![20, 40]);
}

#[test]
fn season_change_kills_out_of_season_crops() {
    let mut player = Player::new("Bo");
    // Tomato grows in summer only, Carrot in spring to autumn.
    let carrot = player.inventory.remove(0);
    let tomato = player.inventory.remove(0);
    player.fields.push(tomato);
    player.fields.push(carrot);
    let mut engine = engine_at(player, 20);
    assert_eq!(engine.get_current_season(), Season::Summer);
    match expect_success(engine.execute(GameCommand::AdvanceDay)) {
        GameEvent::DayAdvanced { new_day, season_change } => {
            assert_eq!(new_day, 21);
            let change = season_change.unwrap();
            assert_eq!(change.old_season, Season::Summer);
            assert_eq!(change.new_season, Season::Autumn);
            assert_eq!(change.day, 21);
            assert_eq!(change.crops_died, vec!["Tomato".to_string()]);
        }
        other => panic!("unexpected event {:?}", other),
    }
    let names: Vec<&str> = engine.get_player().fields.iter().map(|c| c.name.as_str()).collect();
    assert_eq!(names, vec!["Carrot"]);
}

#[test]
fn planting_then_season_turn_removes_the_crop_once() {
    let mut engine = engine_at(Player::new("Bo"), 10);
    // Tomato (summer only) is planted on the last day of spring and lives on.
    expect_success(engine.execute(GameCommand::PlantCrop { crop_index: 1 }));
    // Potato (spring and autumn) dies when summer comes.
    expect_success(engine.execute(GameCommand::PlantCrop { crop_index: 1 }));
    match expect_success(engine.execute(GameCommand::Sleep)) {
        GameEvent::Slept { old_day, new_day, season_change } => {
            assert_eq!(old_day, 10);
            assert_eq!(new_day, 11);
            assert_eq!(season_change.unwrap().crops_died, vec!["Potato".to_string()]);
        }
        other => panic!("unexpected event {:?}", other),
    }
    let names: Vec<&str> = engine.get_player().fields.iter().map(|c| c.name.as_str()).collect();
    assert_eq!(names, vec!["Tomato"]);
    match expect_success(engine.execute(GameCommand::AdvanceDay)) {
        GameEvent::DayAdvanced { season_change, .. } => assert!(season_change.is_none()),
        other => panic!("unexpected event {:?}", other),
    }
    assert_eq!(engine.get_player().fields.len(), 1);
}

#[test]
fn advancing_records_time_and_restores_energy() {
    let mut player = Player::new("Bo");
    player.energy = 3;
    let mut engine = engine_at(player, 5);
    expect_success(engine.execute_at(GameCommand::AdvanceDay, 123_456));
    assert_eq!(engine.get_player().energy, 100);
    assert_eq!(engine.get_time_config().last_day_change, Some(123_456));
    expect_success(engine.execute(GameCommand::AdvanceDay));
    assert!(engine.get_time_config().last_day_change.unwrap() > 123_456);
}

#[test]
fn calendar_end_is_an_error() {
    let mut engine = engine_at(Player::new("Bo"), u32::MAX);
    assert_eq!(expect_error(engine.execute(GameCommand::Sleep)), GameError::CalendarExhausted);
    assert_eq!(engine.get_day(), u32::MAX);
}

#[test]
fn buying_seeds() {
    let mut engine = GameEngine::new_game("Ada");
    match expect_success(engine.execute(GameCommand::BuySeed { seed_name: "Parsnip".to_string() })) {
        GameEvent::SeedPurchased { seed_name, cost, remaining_money } => {
            assert_eq!(seed_name, "Parsnip");
            assert_eq!(cost, 17);
            assert_eq!(remaining_money, 983);
        }
        other => panic!("unexpected event {:?}", other),
    }
    assert_eq!(engine.get_player().inventory.len(), 5);
    assert_eq!(engine.get_player().inventory[4].name, "Parsnip");
    assert_eq!(
        expect_error(engine.execute(GameCommand::BuySeed { seed_name: "Melon".to_string() })),
        GameError::SeedUnavailable
    );
    let mut player = Player::new("Bo");
    player.money = 24;
    let mut engine = engine_at(player, 1);
    assert_eq!(
        expect_error(engine.execute(GameCommand::BuySeed { seed_name: "Carrot".to_string() })),
        GameError::InsufficientFunds
    );
    assert_eq!(engine.get_player().money, 24);
    let mut engine = engine_at(Player::new("Bo"), 15);
    expect_success(engine.execute(GameCommand::BuySeed { seed_name: "Melon".to_string() }));
    assert_eq!(engine.get_player().money, 875);
}

#[test]
fn restore_checks_consistency_and_round_trips() {
    let engine = GameEngine::new_game("Ada");
    let copy = GameEngine::restore(engine.get_player().clone(), engine.get_day(), *engine.get_time_config()).unwrap();
    assert_eq!(format!("{:?}", copy), format!("{:?}", engine));

    assert!(GameEngine::restore(Player::new("Bo"), 0, TimeConfig::default()).is_none());
    let mut tired = Player::new("Bo");
    tired.energy = 101;
    assert!(GameEngine::restore(tired, 1, TimeConfig::default()).is_none());
    let mut bad = Player::new("Bo");
    bad.fields.push(initiate_starter_crops().remove(0));
    bad.fields[0].watered_days = vec![1, 1];
    assert!(GameEngine::restore(bad, 1, TimeConfig::default()).is_none());
    let mut lying = Player::new("Bo");
    lying.inventory[0].ready_harvest = true;
    assert!(GameEngine::restore(lying, 1, TimeConfig::default()).is_none());
}

#[test]
fn player_mut_gives_access() {
    let mut engine = GameEngine::new_game("Ada");
    engine.get_player_mut().money = 7;
    assert_eq!(engine.get_player().money, 7);
    engine.set_time_config(TimeConfig { auto_day_change_minutes: 9, last_day_change: None });
    assert_eq!(engine.get_time_config().auto_day_change_minutes, 9);
}

#[test]
fn seasonal_catalogue() {
    let spring: Vec<(String, u8, u32)> =
        get_seasonal_crops(Season::Spring).into_iter().map(|c| (c.name, c.growth_days, c.sell_price)).collect();
    assert_eq!(
        spring,
        vec![("Carrot".to_string(), 3, 50), ("Potato".to_string(), 4, 60), ("Parsnip".to_string(), 4, 35)]
    );
    let winter: Vec<String> = get_seasonal_crops(Season::Winter).into_iter().map(|c| c.name).collect();
    assert_eq!(winter, vec!["Wheat".to_string(), "Winter Seeds".to_string()]);
    assert_eq!(get_seasonal_crops(Season::Summer).len(), 3);
    assert_eq!(get_seasonal_crops(Season::Autumn)[0].sell_price, 320);
}

#[test]
fn crops_have_distinct_identities() {
    let a = Crop::new("A", 1, 1, vec![Season::Spring], "a");
    let b = Crop::new("A", 1, 1, vec![Season::Spring], "a");
    assert_ne!(a.id, b.id);
    assert_ne!(Player::new("x").id, Player::new("x").id);
    assert!(a.can_grow_in_season(Season::Spring));
    assert!(a.dies_in_season(Season::Winter));
    assert_eq!(a.energy_cost, 15);
    assert!(!a.ready_harvest);
}

#[test]
fn command_sequences_keep_energy_and_growth_bounds() {
    let mut engine = GameEngine::new_game("Ada");
    let commands = [
        GameCommand::PlantCrop { crop_index: 0 },
        GameCommand::PlantCrop { crop_index: 0 },
        GameCommand::PlantCrop { crop_index: 0 },
        GameCommand::WaterCrops,
        GameCommand::WaterCrops,
        GameCommand::BuySeed { seed_name: "Parsnip".to_string() },
        GameCommand::PlantCrop { crop_index: 1 },
        GameCommand::WaterCrops,
        GameCommand::HarvestCrops,
        GameCommand::Sleep,
    ];
    for round in 0..60u32 {
        for (k, command) in commands.iter().enumerate() {
            if (round as usize + k) % 3 == 0 {
                engine.execute_at(GameCommand::AdvanceDay, round as i64);
            }
            engine.execute_at(command.clone(), round as i64);
            let player = engine.get_player();
            assert!(player.energy <= Player::MAX_ENERGY);
            for crop in &player.fields {
                assert!(crop.watered_days.len() <= crop.growth_days as usize);
                assert_eq!(crop.ready_harvest, crop.watered_days.len() == crop.growth_days as usize);
            }
        }
    }
    assert!(engine.get_day() > 60);
}

#[test]
fn error_messages() {
    assert_eq!(GameError::InvalidSelection.message(), "Invalid crop selection");
    assert_eq!(GameError::NothingReady.message(), "No crops are ready for harvest");
    assert_eq!(GameError::InsufficientFunds.message(), "Not enough money");
}
