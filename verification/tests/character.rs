use reoserv::character::{Character, QuestProgress, Spell};
use reoserv::data::{
    GameData, Item, ItemRecord, ItemSpecial, Quest, QuestArg, QuestRule, QuestState, WorldSettings,
};
use std::collections::HashMap;

fn character() -> Character {
    Character {
        name: "alice".to_string(),
        home: "Wanderer".to_string(),
        title: None,
        partner: None,
        guild_tag: None,
        guild_name: None,
        guild_rank_string: None,
        guild_rank: None,
        admin_level: 0,
        class: 1,
        gender: 0,
        equipment: vec![0; 15],
        level: 10,
        base_strength: 5,
        base_intelligence: 6,
        base_wisdom: 7,
        base_agility: 8,
        base_constitution: 9,
        base_charisma: 10,
        stat_points: 0,
        skill_points: 0,
        spells: vec![Spell { id: 1, level: 3 }],
        items: vec![Item { id: 1, amount: 100 }, Item { id: 2, amount: 3 }],
        trade_items: Vec::new(),
        weight: 10,
        max_weight: 70,
        bank_level: 0,
        gold_bank: 0,
        quests: Vec::new(),
        has_player: true,
    }
}

fn item_db() -> Vec<ItemRecord> {
    vec![
        ItemRecord { weight: 0, special: ItemSpecial::Normal },
        ItemRecord { weight: 2, special: ItemSpecial::Normal },
        ItemRecord { weight: 5, special: ItemSpecial::Lore },
    ]
}

fn rule(name: &str, args: Vec<QuestArg>, goto: &str) -> QuestRule {
    QuestRule { name: name.to_string(), args, goto: goto.to_string() }
}

fn state(name: &str, rules: Vec<QuestRule>) -> QuestState {
    QuestState { name: name.to_string(), rules }
}

fn data(quests: HashMap<i32, Quest>) -> GameData {
    GameData { items: item_db(), npcs: Vec::new(), shops: Vec::new(), inns: Vec::new(), quests }
}

#[test]
fn get_item_amount_counts_first_entry_or_zero() {
    let c = character();
    assert_eq!(c.get_item_amount(1), 100);
    assert_eq!(c.get_item_amount(2), 3);
    assert_eq!(c.get_item_amount(9), 0);
}

#[test]
fn add_item_no_quest_rules_grows_existing_entry_and_weight() {
    let mut c = character();
    c.add_item_no_quest_rules(2, 4, &item_db());
    assert_eq!(c.items, vec![Item { id: 1, amount: 100 }, Item { id: 2, amount: 7 }]);
    assert_eq!(c.weight, 10 + 2 * 4);
}

#[test]
fn add_item_no_quest_rules_appends_new_item() {
    let mut c = character();
    c.add_item_no_quest_rules(3, 2, &item_db());
    assert_eq!(c.items.last(), Some(&Item { id: 3, amount: 2 }));
    assert_eq!(c.items.len(), 3);
    assert_eq!(c.weight, 20);
}

#[test]
fn add_item_without_record_keeps_weight() {
    let mut c = character();
    c.add_item_no_quest_rules(40, 2, &item_db());
    assert_eq!(c.get_item_amount(40), 2);
    assert_eq!(c.weight, 10);
    c.add_item_no_quest_rules(0, 1, &item_db());
    assert_eq!(c.weight, 10);
}

#[test]
fn remove_item_shrinks_or_drops_entry() {
    let mut c = character();
    c.remove_item(2, 1, &item_db());
    assert_eq!(c.get_item_amount(2), 2);
    assert_eq!(c.weight, 8);
    c.remove_item(2, 10, &item_db());
    assert_eq!(c.get_item_amount(2), 0);
    assert_eq!(c.items, vec![Item { id: 1, amount: 100 }]);
    assert_eq!(c.weight, 4);
    c.remove_item(7, 1, &item_db());
    assert_eq!(c.items, vec![Item { id: 1, amount: 100 }]);
}

#[test]
fn remove_undoes_add() {
    let mut c = character();
    let before = c.items.clone();
    c.add_item_no_quest_rules(3, 5, &item_db());
    c.remove_item(3, 5, &item_db());
    assert_eq!(c.items, before);
    assert_eq!(c.weight, 10);
    c.add_item_no_quest_rules(2, 5, &item_db());
    c.remove_item(2, 5, &item_db());
    assert_eq!(c.items, before);
    assert_eq!(c.weight, 10);
}

#[test]
fn add_counts_only_the_item_added() {
    let mut c = character();
    c.add_item_no_quest_rules(2, 9, &item_db());
    assert_eq!(c.get_item_amount(2), 12);
    assert_eq!(c.get_item_amount(1), 100);
}

#[test]
fn can_hold_limits_by_weight() {
    let c = character();
    // 60 weight left, item 2 weighs 2
    assert_eq!(c.can_hold(2, 100, &item_db()), 30);
    assert_eq!(c.can_hold(2, 10, &item_db()), 10);
    // weightless item
    assert_eq!(c.can_hold(1, 500, &item_db()), 500);
    // no record
    assert_eq!(c.can_hold(77, 5, &item_db()), 0);
    let mut full = character();
    full.weight = 70;
    assert_eq!(full.can_hold(2, 5, &item_db()), 0);
}

#[test]
fn reset_clears_stats_and_grants_points() {
    let mut c = character();
    let world = WorldSettings { stat_points_per_level: 3, skill_points_per_level: 4 };
    c.reset(&world);
    assert_eq!(
        (c.base_strength, c.base_intelligence, c.base_wisdom, c.base_agility, c.base_constitution, c.base_charisma),
        (0, 0, 0, 0, 0, 0)
    );
    assert!(c.spells.is_empty());
    assert_eq!(c.stat_points, 30);
    assert_eq!(c.skill_points, 40);
}

#[test]
fn reset_twice_changes_nothing() {
    let mut c = character();
    let world = WorldSettings { stat_points_per_level: 3, skill_points_per_level: 4 };
    c.reset(&world);
    let first = (c.base_strength, c.base_charisma, c.spells.len(), c.stat_points, c.skill_points, c.level);
    c.reset(&world);
    assert_eq!((c.base_strength, c.base_charisma, c.spells.len(), c.stat_points, c.skill_points, c.level), first);
}

#[test]
fn reset_points_keep_low_sixteen_bits() {
    let mut c = character();
    c.level = 200;
    let world = WorldSettings { stat_points_per_level: 1000, skill_points_per_level: 1 };
    c.reset(&world);
    assert_eq!(c.stat_points, (200_000u32 % 65536) as u16);
    assert_eq!(c.skill_points, 200);
}

fn fetch_quest() -> Quest {
    Quest {
        states: vec![
            state("Begin", vec![rule("GotItems", vec![QuestArg::Int(2), QuestArg::Int(5)], "Return")]),
            state("Return", vec![]),
        ],
    }
}

#[test]
fn add_item_advances_quest_when_enough_held() {
    let mut quests = HashMap::new();
    quests.insert(7, fetch_quest());
    let d = data(quests);
    let mut c = character();
    c.quests = vec![QuestProgress { id: 7, state: 0 }];
    let acted = c.add_item(2, 1, &d);
    assert!(acted.is_empty());
    assert_eq!(c.quests, vec![QuestProgress { id: 7, state: 0 }]);
    let acted = c.add_item(2, 1, &d);
    assert_eq!(acted, vec![7]);
    assert_eq!(c.quests, vec![QuestProgress { id: 7, state: 1 }]);
    assert_eq!(c.get_item_amount(2), 5);
}

#[test]
fn add_item_ignores_other_items_and_unknown_quests() {
    let mut quests = HashMap::new();
    quests.insert(7, fetch_quest());
    let d = data(quests);
    let mut c = character();
    c.quests = vec![QuestProgress { id: 8, state: 0 }, QuestProgress { id: 7, state: 5 }, QuestProgress { id: 7, state: 0 }];
    let acted = c.add_item(1, 10, &d);
    assert!(acted.is_empty());
    let acted = c.add_item(2, 10, &d);
    assert_eq!(acted, vec![7]);
    assert_eq!(
        c.quests,
        vec![QuestProgress { id: 8, state: 0 }, QuestProgress { id: 7, state: 5 }, QuestProgress { id: 7, state: 1 }]
    );
}

#[test]
fn add_item_stops_when_rule_names_missing_state() {
    let mut quests = HashMap::new();
    quests.insert(7, fetch_quest());
    quests.insert(
        9,
        Quest { states: vec![state("Begin", vec![rule("GotItems", vec![QuestArg::Int(2), QuestArg::Int(1)], "Nowhere")])] },
    );
    let d = data(quests);
    let mut c = character();
    c.quests = vec![QuestProgress { id: 7, state: 0 }, QuestProgress { id: 9, state: 0 }, QuestProgress { id: 7, state: 0 }];
    let acted = c.add_item(2, 5, &d);
    assert!(acted.is_empty());
    // the first quest moved before the update stopped; the last did not
    assert_eq!(
        c.quests,
        vec![QuestProgress { id: 7, state: 1 }, QuestProgress { id: 9, state: 0 }, QuestProgress { id: 7, state: 0 }]
    );
}

#[test]
fn add_item_skips_rule_with_text_amount() {
    let mut quests = HashMap::new();
    quests.insert(
        3,
        Quest {
            states: vec![
                state("Begin", vec![rule("GotItems", vec![QuestArg::Int(2), QuestArg::Str("five".to_string())], "End")]),
                state("End", vec![]),
            ],
        },
    );
    let d = data(quests);
    let mut c = character();
    c.quests = vec![QuestProgress { id: 3, state: 0 }];
    assert!(c.add_item(2, 50, &d).is_empty());
    assert_eq!(c.quests, vec![QuestProgress { id: 3, state: 0 }]);
}

#[test]
fn quest_db_keys_quests_later_replacing_earlier() {
    let db = reoserv::character::quest_db(vec![(1, fetch_quest()), (2, Quest { states: Vec::new() })]);
    assert_eq!(db.len(), 2);
    assert_eq!(db[&1].states.len(), fetch_quest().states.len());
    assert_eq!(db[&2].states.len(), 0);
    let later = reoserv::character::quest_db(vec![(1, fetch_quest()), (1, Quest { states: Vec::new() })]);
    assert_eq!(later.len(), 1);
    assert_eq!(later[&1].states.len(), 0);
}

#[test]
fn quests_readable_only_asks_what_is_read() {
    let mut c = character();
    c.quests = vec![QuestProgress { id: 1, state: 0 }];
    // a GotItems rule without arguments, after the rule that fires
    let q = Quest {
        states: vec![
            state(
                "Begin",
                vec![
                    rule("GotItems", vec![QuestArg::Int(2), QuestArg::Int(5)], "Return"),
                    rule("GotItems", Vec::new(), "Return"),
                ],
            ),
            state("Return", vec![]),
        ],
    };
    let mut quests = HashMap::new();
    quests.insert(1, q);
    let d = data(quests);
    assert!(c.quests_readable_at(&d, 2, 5));
    // for another item the rule without arguments is reached
    assert!(!c.quests_readable_at(&d, 1, 5));
    // a firing rule without an amount cannot be read
    let mut quests = HashMap::new();
    quests.insert(1, Quest { states: vec![state("Begin", vec![rule("GotItems", vec![QuestArg::Int(2)], "End")])] });
    assert!(!c.quests_readable_at(&data(quests), 2, 5));
}

#[test]
fn removal_fits_checks_the_weight_range() {
    let c = character();
    assert!(c.removal_fits(2, 2, &item_db()));
    // a negative amount adds to the entry
    assert!(c.removal_fits(2, -1, &item_db()));
    let mut full = character();
    full.items[1].amount = i32::MAX;
    assert!(!full.removal_fits(2, -1, &item_db()));
    let heavy = vec![ItemRecord { weight: 0, special: ItemSpecial::Normal }, ItemRecord { weight: i32::MAX, special: ItemSpecial::Normal }];
    assert!(!c.removal_fits(2, 3, &heavy));
    let mut light = character();
    light.weight = i32::MIN;
    assert!(!light.removal_fits(2, 1, &item_db()));
    assert!(light.removal_fits(2, 0, &item_db()));
}

#[test]
fn check_items_nonnegative_finds_negative_amounts() {
    assert!(reoserv::character::check_items_nonnegative(&character().items));
    assert!(!reoserv::character::check_items_nonnegative(&vec![Item { id: 1, amount: 2 }, Item { id: 2, amount: -1 }]));
}

#[test]
fn remove_item_with_negative_amount_adds() {
    let mut c = character();
    c.remove_item(2, -2, &item_db());
    assert_eq!(c.get_item_amount(2), 5);
    assert_eq!(c.weight, 14);
}
