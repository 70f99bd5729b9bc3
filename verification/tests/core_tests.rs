use pumpkinsoup::active::ActivePlayers;
use pumpkinsoup::commands::{
    build_invalid_arg_msg, handle_input, invalid_arg_msg, DamagerArgumentConsumer,
    DamagerCommandError, DamagerToggle,
};
use pumpkinsoup::damager::{Damager, DamagerRegistry, ParseDamagerError};
use pumpkinsoup::kit::{give_kit, parse_recraft_amount, InvalidRecraftAmount, KitItem, SlotFill};
use pumpkinsoup::namespaced_key::NamespacedKey;
use pumpkinsoup::plugin::Plugin;
use pumpkinsoup::session::{
    congratulation_state, damager_tick, get_consumable_count, is_perfect_run, TickAction,
};
use pumpkinsoup::soup::{SoupAction, SoupClick, SoupRightClickHandler, SoupStats};

fn damager(name: &str, damage: i32, delay: u32) -> Damager {
    Damager { name: name.to_string(), damage, delay }
}

fn registry_with(names: &[&str]) -> DamagerRegistry {
    let mut reg = DamagerRegistry::new();
    for (i, n) in names.iter().enumerate() {
        reg.insert(damager(n, i as i32 + 1, 500));
    }
    reg
}

fn click(left: bool, stew: bool, full: bool, hungry: bool, low: bool) -> SoupClick {
    SoupClick {
        left_click: left,
        holds_stew: stew,
        at_full_health: full,
        hungry,
        at_accuracy_threshold: low,
    }
}

#[test]
fn namespaced_key_lowercases_namespace_only() {
    let key = NamespacedKey::new("PumpkinSoup", "Test");
    assert_eq!(key.namespace(), "pumpkinsoup");
    assert_eq!(key.key(), "Test");
    let key = NamespacedKey::new("ÄBC-9_Z", "k");
    assert_eq!(key.namespace(), "Äbc-9_z");
}

#[test]
fn namespaced_key_lowercase_is_stable() {
    let once = NamespacedKey::new("MiXeD", "x");
    let twice = NamespacedKey::new(once.namespace(), "x");
    assert_eq!(once.namespace(), twice.namespace());
}

#[test]
fn plugin_new_and_default() {
    let _a = Plugin::new();
    let _b = Plugin::default();
}

#[test]
fn toggle_twice_restores_active_players() {
    let mut active = ActivePlayers::new();
    active.toggle_damager(7);
    assert!(active.is_active(7));
    assert!(!active.is_active(8));
    active.toggle_damager(7);
    assert!(!active.is_active(7));
}

#[test]
fn deactivate_only_removes_the_player() {
    let mut active = ActivePlayers::new();
    active.toggle_damager(1);
    active.toggle_damager(2);
    active.deactivate(1);
    active.deactivate(3);
    assert!(!active.is_active(1));
    assert!(active.is_active(2));
    assert!(!active.is_active(3));
}

#[test]
fn registry_find_ignores_ascii_case() {
    let reg = registry_with(&["easy", "Zero_Tick"]);
    let d = reg.find("EASY").unwrap();
    assert_eq!(d.name, "easy");
    assert_eq!(d.damage, 1);
    assert_eq!(reg.find("zero_tick").unwrap().name, "Zero_Tick");
    assert!(reg.find("medium").is_none());
    assert!(reg.contains_name("eAsY"));
    assert!(!reg.contains_name("eas"));
}

#[test]
fn registry_insert_reports_duplicates() {
    let mut reg = DamagerRegistry::new();
    assert!(reg.insert(damager("hard", 7, 500)));
    assert!(!reg.insert(damager("hard", 7, 500)));
    assert!(reg.insert(damager("hard", 8, 500)));
    assert_eq!(reg.list().len(), 2);
}

#[test]
fn damager_from_str_in_known_and_unknown() {
    let reg = registry_with(&["calamity"]);
    assert_eq!(Damager::from_str_in(&reg, "Calamity").unwrap().name, "calamity");
    assert_eq!(Damager::from_str_in(&reg, "nope"), Err(ParseDamagerError));
}

#[test]
fn invalid_arg_msg_joins_names() {
    let names = vec!["easy".to_string(), "hard".to_string(), "extreme".to_string()];
    assert_eq!(
        invalid_arg_msg(&names),
        "Invalid argument. Possible options are: easy, hard, extreme"
    );
    assert_eq!(invalid_arg_msg(&vec![]), "Invalid argument. Possible options are: ");
    assert_eq!(
        invalid_arg_msg(&vec!["one".to_string()]),
        "Invalid argument. Possible options are: one"
    );
}

#[test]
fn build_invalid_arg_msg_lists_every_name_once() {
    let reg = registry_with(&["easy", "medium", "hard"]);
    let msg = build_invalid_arg_msg(&reg);
    let prefix = "Invalid argument. Possible options are: ";
    assert!(msg.starts_with(prefix));
    let mut listed: Vec<&str> = msg[prefix.len()..].split(", ").collect();
    listed.sort();
    assert_eq!(listed, vec!["easy", "hard", "medium"]);
    assert_eq!(
        build_invalid_arg_msg(&DamagerRegistry::new()),
        "Invalid argument. Possible options are: "
    );
}

#[test]
fn argument_consumer_consume_and_suggest() {
    let reg = registry_with(&["easy", "hard"]);
    let c = DamagerArgumentConsumer;
    assert_eq!(c.default_name(), "damager");
    assert_eq!(c.consume(&reg, Some("HARD")), Some("HARD"));
    assert_eq!(c.consume(&reg, Some("soft")), None);
    assert_eq!(c.consume(&reg, None), None);
    let mut s = c.suggest(&reg);
    s.sort();
    assert_eq!(s, vec!["easy".to_string(), "hard".to_string()]);
}

#[test]
fn argument_consumer_find_arg_errors() {
    let reg = registry_with(&["easy"]);
    assert_eq!(
        DamagerArgumentConsumer::find_arg(&reg, Some("Easy"), "difficulty").unwrap().name,
        "easy"
    );
    assert_eq!(
        DamagerArgumentConsumer::find_arg(&reg, Some("x"), "difficulty"),
        Err(DamagerCommandError::CommandFailed(
            "Invalid argument. Possible options are: easy".to_string()
        ))
    );
    assert_eq!(
        DamagerArgumentConsumer::find_arg(&reg, None, "difficulty"),
        Err(DamagerCommandError::InvalidConsumption(Some("difficulty".to_string())))
    );
}

#[test]
fn handle_input_starts_then_stops_session() {
    let reg = registry_with(&["easy"]);
    let mut active = ActivePlayers::new();
    let mut stats = SoupStats::new();
    let id = 42u128;
    let started = handle_input(&reg, &mut active, &mut stats, Some("EASY"), id).unwrap();
    assert_eq!(started, DamagerToggle::Started(damager("easy", 1, 500)));
    assert!(active.is_active(id));
    assert_eq!(stats.consumed(id), Some(0));
    assert_eq!(stats.accurate(id), Some(0));
    let stopped = handle_input(&reg, &mut active, &mut stats, Some("easy"), id).unwrap();
    assert_eq!(stopped, DamagerToggle::Stopped(damager("easy", 1, 500)));
    assert!(!active.is_active(id));
}

#[test]
fn handle_input_unknown_and_missing() {
    let reg = registry_with(&["easy"]);
    let mut active = ActivePlayers::new();
    let mut stats = SoupStats::new();
    assert_eq!(
        handle_input(&reg, &mut active, &mut stats, None, 1),
        Ok(DamagerToggle::Ignored)
    );
    assert_eq!(
        handle_input(&reg, &mut active, &mut stats, Some("hard"), 1),
        Err(DamagerCommandError::CommandFailed(
            "Invalid argument. Possible options are: easy".to_string()
        ))
    );
    assert!(!active.is_active(1));
    assert_eq!(stats.consumed(1), None);
}

#[test]
fn handle_input_restart_resets_counts() {
    let reg = registry_with(&["easy"]);
    let mut active = ActivePlayers::new();
    let mut stats = SoupStats::new();
    let h = SoupRightClickHandler;
    handle_input(&reg, &mut active, &mut stats, Some("easy"), 5).unwrap();
    h.handle_blocking(&active, &mut stats, 5, click(false, true, false, false, true));
    assert_eq!(stats.consumed(5), Some(1));
    handle_input(&reg, &mut active, &mut stats, Some("easy"), 5).unwrap();
    handle_input(&reg, &mut active, &mut stats, Some("easy"), 5).unwrap();
    assert_eq!(stats.consumed(5), Some(0));
    assert_eq!(stats.accurate(5), Some(0));
}

#[test]
fn soup_click_rules() {
    let active = ActivePlayers::new();
    let mut stats = SoupStats::new();
    let h = SoupRightClickHandler;
    assert_eq!(h.handle_blocking(&active, &mut stats, 1, click(true, true, false, true, true)), SoupAction::Ignore);
    assert_eq!(h.handle_blocking(&active, &mut stats, 1, click(false, false, false, true, true)), SoupAction::Ignore);
    assert_eq!(h.handle_blocking(&active, &mut stats, 1, click(false, true, true, true, false)), SoupAction::Eat);
    assert_eq!(h.handle_blocking(&active, &mut stats, 1, click(false, true, true, false, false)), SoupAction::Ignore);
    assert_eq!(h.handle_blocking(&active, &mut stats, 1, click(false, true, false, false, false)), SoupAction::Heal);
    assert_eq!(stats.consumed(1), None);
}

#[test]
fn soup_counts_only_during_session() {
    let mut active = ActivePlayers::new();
    active.toggle_damager(9);
    let mut stats = SoupStats::new();
    let h = SoupRightClickHandler;
    h.handle_blocking(&active, &mut stats, 9, click(false, true, false, false, true));
    h.handle_blocking(&active, &mut stats, 9, click(false, true, false, false, false));
    h.handle_blocking(&active, &mut stats, 9, click(false, true, true, true, true));
    assert_eq!(stats.consumed(9), Some(2));
    assert_eq!(stats.accurate(9), Some(1));
    h.handle_blocking(&active, &mut stats, 3, click(false, true, false, false, true));
    assert_eq!(stats.consumed(3), None);
}

#[test]
fn soup_stats_record_and_reset() {
    let mut stats = SoupStats::new();
    stats.record_soup(4, false);
    stats.record_soup(4, true);
    assert_eq!(stats.consumed(4), Some(2));
    assert_eq!(stats.accurate(4), Some(1));
    stats.reset(4);
    assert_eq!(stats.consumed(4), Some(0));
    assert_eq!(stats.accurate(4), Some(0));
}

#[test]
fn give_kit_with_recraft() {
    let plan = give_kit(Some(10)).unwrap();
    assert_eq!(plan.len(), 39);
    for (i, f) in plan.iter().take(35).enumerate() {
        assert_eq!(*f, SlotFill { slot: i as i16, item: KitItem::MushroomStew, count: 1 });
    }
    assert_eq!(plan[35], SlotFill { slot: 13, item: KitItem::Bowl, count: 10 });
    assert_eq!(plan[36], SlotFill { slot: 14, item: KitItem::RedMushroom, count: 10 });
    assert_eq!(plan[37], SlotFill { slot: 15, item: KitItem::BrownMushroom, count: 10 });
    assert_eq!(plan[38], SlotFill { slot: 0, item: KitItem::StoneSword, count: 1 });
}

#[test]
fn give_kit_clamps_and_zero_and_none() {
    let plan = give_kit(Some(200)).unwrap();
    assert_eq!(plan[35].count, 64);
    let plan = give_kit(Some(0)).unwrap();
    assert_eq!(plan.len(), 36);
    assert_eq!(plan[35], SlotFill { slot: 0, item: KitItem::StoneSword, count: 1 });
    assert!(give_kit(None).is_none());
}

#[test]
fn give_kit_final_layout() {
    let plan = give_kit(Some(5)).unwrap();
    let mut inv = vec![None; 35];
    for f in &plan {
        inv[f.slot as usize] = Some((f.item, f.count));
    }
    assert_eq!(inv[0], Some((KitItem::StoneSword, 1)));
    assert_eq!(inv[13], Some((KitItem::Bowl, 5)));
    assert_eq!(inv[14], Some((KitItem::RedMushroom, 5)));
    assert_eq!(inv[15], Some((KitItem::BrownMushroom, 5)));
    for s in [1usize, 12, 16, 34] {
        assert_eq!(inv[s], Some((KitItem::MushroomStew, 1)));
    }
}

#[test]
fn parse_recraft_amount_accepts_0_to_64() {
    assert_eq!(parse_recraft_amount("0"), Ok(0));
    assert_eq!(parse_recraft_amount("64"), Ok(64));
    assert_eq!(parse_recraft_amount("+7"), Ok(7));
    assert_eq!(parse_recraft_amount("007"), Ok(7));
    assert_eq!(parse_recraft_amount("65"), Err(InvalidRecraftAmount));
    assert_eq!(parse_recraft_amount("255"), Err(InvalidRecraftAmount));
    assert_eq!(parse_recraft_amount("256"), Err(InvalidRecraftAmount));
    assert_eq!(parse_recraft_amount("-1"), Err(InvalidRecraftAmount));
    assert_eq!(parse_recraft_amount(""), Err(InvalidRecraftAmount));
    assert_eq!(parse_recraft_amount("+"), Err(InvalidRecraftAmount));
    assert_eq!(parse_recraft_amount(" 5"), Err(InvalidRecraftAmount));
    assert_eq!(parse_recraft_amount("1_0"), Err(InvalidRecraftAmount));
}

#[test]
fn consumable_count_formula() {
    assert_eq!(get_consumable_count(0), 35);
    assert_eq!(get_consumable_count(1), 33);
    assert_eq!(get_consumable_count(64), 96);
    assert_eq!(get_consumable_count(255), 287);
}

#[test]
fn damager_tick_actions() {
    let mut active = ActivePlayers::new();
    active.toggle_damager(1);
    let mut stats = SoupStats::new();
    assert_eq!(damager_tick(&mut active, &stats, 1, false, 0), TickAction::Hit);
    stats.reset(1);
    for _ in 0..34 {
        stats.record_soup(1, true);
    }
    assert_eq!(damager_tick(&mut active, &stats, 1, false, 0), TickAction::Hit);
    stats.record_soup(1, true);
    assert_eq!(damager_tick(&mut active, &stats, 1, false, 0), TickAction::Wait);
    assert!(is_perfect_run(stats.accurate(1).unwrap(), 0));
    assert!(active.is_active(1));
    assert_eq!(damager_tick(&mut active, &stats, 1, true, 0), TickAction::Kill);
    assert!(!active.is_active(1));
}

#[test]
fn perfect_run_and_congratulation() {
    assert!(is_perfect_run(35, 0));
    assert!(!is_perfect_run(34, 0));
    assert!(is_perfect_run(42, 10));
    assert_eq!(congratulation_state(true), "completed");
    assert_eq!(congratulation_state(false), "survived");
}
