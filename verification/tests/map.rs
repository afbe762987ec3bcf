use reoserv::bank::{DepositAction, DepositEvent, DepositStage};
use reoserv::character::Character;
use reoserv::data::{
    AccountSettings, BankSettings, GameData, Inn, Item, ItemRecord, ItemSettings, ItemSpecial, LimitSettings,
    NewCharacterSettings, NpcRecord, NpcType, ServerSettings, Settings, Shop, ShopTrade, WorldSettings,
};
use reoserv::map::{
    CharacterIcon, GameMap, InnUnsubscribeReply, ItemJunkReply, LockerBuyReply, Npc, ShopBuyReply, StatsResetReply,
};
use std::collections::HashMap;

fn character() -> Character {
    Character {
        name: "alice".to_string(),
        home: "Aeven".to_string(),
        title: Some("Sir".to_string()),
        partner: None,
        guild_tag: None,
        guild_name: None,
        guild_rank_string: None,
        guild_rank: None,
        admin_level: 0,
        class: 2,
        gender: 1,
        equipment: vec![4, 0, 7],
        level: 5,
        base_strength: 1,
        base_intelligence: 1,
        base_wisdom: 1,
        base_agility: 1,
        base_constitution: 1,
        base_charisma: 1,
        stat_points: 0,
        skill_points: 0,
        spells: Vec::new(),
        items: vec![Item { id: 1, amount: 1000 }, Item { id: 2, amount: 3 }],
        trade_items: Vec::new(),
        weight: 6,
        max_weight: 100,
        bank_level: 0,
        gold_bank: 50,
        quests: Vec::new(),
        has_player: true,
    }
}

fn settings() -> Settings {
    Settings {
        limits: LimitSettings { max_item: 1000, max_trade: 500, max_bank_gold: 2000 },
        items: ItemSettings { protected_items: vec![1] },
        bank: BankSettings { max_upgrades: 3, upgrade_base_cost: 100, upgrade_cost_step: 50 },
        new_character: NewCharacterSettings { home: "Wanderer".to_string() },
        world: WorldSettings { stat_points_per_level: 3, skill_points_per_level: 2 },
        server: ServerSettings { enforce_sequence: true, max_players: 10, max_login_attempts: 3 },
        account: AccountSettings { recovery: true, recovery_show_email: true, recovery_mask_email: false },
    }
}

fn data() -> GameData {
    GameData {
        items: vec![
            ItemRecord { weight: 0, special: ItemSpecial::Normal },
            ItemRecord { weight: 2, special: ItemSpecial::Normal },
            ItemRecord { weight: 10, special: ItemSpecial::Lore },
            ItemRecord { weight: 1, special: ItemSpecial::Rare },
        ],
        npcs: vec![
            NpcRecord { npc_type: NpcType::Bank, behavior_id: 0 },
            NpcRecord { npc_type: NpcType::Shop, behavior_id: 4 },
            NpcRecord { npc_type: NpcType::Inn, behavior_id: 9 },
            NpcRecord { npc_type: NpcType::Trainer, behavior_id: 0 },
            NpcRecord { npc_type: NpcType::Aggressive, behavior_id: 0 },
        ],
        shops: vec![Shop {
            behavior_id: 4,
            trades: vec![
                ShopTrade { item_id: 2, buy_price: 0, max_amount: 10 },
                ShopTrade { item_id: 2, buy_price: 10, max_amount: 5 },
                ShopTrade { item_id: 4, buy_price: 3, max_amount: 100 },
            ],
        }],
        inns: vec![Inn { behavior_id: 9, name: "Aeven".to_string() }],
        quests: HashMap::new(),
    }
}

// npc indexes: 1 banker, 2 shop, 3 inn, 4 trainer, 5 monster
fn map() -> GameMap {
    let mut characters = HashMap::new();
    characters.insert(1, character());
    let mut other = character();
    other.name = "bob".to_string();
    other.admin_level = 5;
    other.guild_name = Some("Knights".to_string());
    characters.insert(2, other);
    let mut npcs = HashMap::new();
    for i in 1..=5 {
        npcs.insert(i, Npc { id: i });
    }
    GameMap { characters, npcs }
}

#[test]
fn upgrade_locker_takes_cost_and_raises_level() {
    let mut m = map();
    let reply = m.upgrade_locker(1, 1, &settings(), &data());
    assert_eq!(reply, Some(LockerBuyReply { gold_amount: 900, locker_upgrades: 1 }));
    let reply = m.upgrade_locker(1, 1, &settings(), &data());
    assert_eq!(reply, Some(LockerBuyReply { gold_amount: 750, locker_upgrades: 2 }));
    assert_eq!(m.characters[&1].bank_level, 2);
}

#[test]
fn upgrade_locker_refusals() {
    let mut m = map();
    // not a banker
    assert_eq!(m.upgrade_locker(1, 2, &settings(), &data()), None);
    // no such npc or player
    assert_eq!(m.upgrade_locker(1, 9, &settings(), &data()), None);
    assert_eq!(m.upgrade_locker(7, 1, &settings(), &data()), None);
    // at the limit
    m.characters.get_mut(&1).unwrap().bank_level = 3;
    assert_eq!(m.upgrade_locker(1, 1, &settings(), &data()), None);
    // too poor
    let mut m = map();
    m.characters.get_mut(&1).unwrap().items[0].amount = 99;
    assert_eq!(m.upgrade_locker(1, 1, &settings(), &data()), None);
    assert_eq!(m.characters[&1].get_item_amount(1), 99);
    assert_eq!(m.characters[&1].bank_level, 0);
}

#[test]
fn upgrade_without_player_changes_but_tells_nobody() {
    let mut m = map();
    m.characters.get_mut(&1).unwrap().has_player = false;
    assert_eq!(m.upgrade_locker(1, 1, &settings(), &data()), None);
    assert_eq!(m.characters[&1].bank_level, 1);
}

#[test]
fn junk_item_junks_up_to_held() {
    let mut m = map();
    let reply = m.junk_item(1, 2, 2, &settings(), &data());
    assert_eq!(reply, Some(ItemJunkReply { junked_item: Item { id: 2, amount: 2 }, remaining_amount: 1, weight: 2 }));
    let reply = m.junk_item(1, 2, 50, &settings(), &data());
    assert_eq!(reply, Some(ItemJunkReply { junked_item: Item { id: 2, amount: 1 }, remaining_amount: 0, weight: 0 }));
    assert_eq!(m.characters[&1].items, vec![Item { id: 1, amount: 1000 }]);
}

#[test]
fn junk_item_refusals() {
    let mut m = map();
    assert_eq!(m.junk_item(1, 0, 1, &settings(), &data()), None);
    assert_eq!(m.junk_item(1, 2, 0, &settings(), &data()), None);
    assert_eq!(m.junk_item(1, 2, 1001, &settings(), &data()), None);
    // protected gold
    assert_eq!(m.junk_item(1, 1, 5, &settings(), &data()), None);
    // not carried
    assert_eq!(m.junk_item(1, 4, 5, &settings(), &data()), None);
    assert_eq!(m.characters[&1].get_item_amount(2), 3);
}

#[test]
fn remove_citizenship_of_own_town() {
    let mut m = map();
    assert_eq!(m.remove_citizenship(1, 3, &settings(), &data()), Some(InnUnsubscribeReply::Unsubscribed));
    assert_eq!(m.characters[&1].home, "Wanderer");
    assert_eq!(m.remove_citizenship(1, 3, &settings(), &data()), Some(InnUnsubscribeReply::NotCitizen));
}

#[test]
fn remove_citizenship_of_other_town_or_npc() {
    let mut m = map();
    m.characters.get_mut(&1).unwrap().home = "Anundo".to_string();
    assert_eq!(m.remove_citizenship(1, 3, &settings(), &data()), Some(InnUnsubscribeReply::NotCitizen));
    assert_eq!(m.characters[&1].home, "Anundo");
    assert_eq!(m.remove_citizenship(1, 1, &settings(), &data()), None);
    m.characters.get_mut(&1).unwrap().has_player = false;
    assert_eq!(m.remove_citizenship(1, 3, &settings(), &data()), None);
}

#[test]
fn reset_character_at_trainer() {
    let mut m = map();
    assert_eq!(m.reset_character(1, 1, &settings(), &data()), None);
    assert_eq!(m.characters[&1].base_strength, 1);
    let reply = m.reset_character(1, 4, &settings(), &data());
    assert_eq!(reply, Some(StatsResetReply { stat_points: 15, skill_points: 10 }));
    assert_eq!(m.characters[&1].base_strength, 0);
}

#[test]
fn add_trade_item_offers_and_replaces() {
    let mut m = map();
    assert_eq!(m.add_trade_item(1, 2, Item { id: 2, amount: 2 }, &settings(), &data()), Some((1, 2)));
    assert_eq!(m.add_trade_item(1, 2, Item { id: 2, amount: 3 }, &settings(), &data()), Some((1, 2)));
    assert_eq!(m.characters[&1].trade_items, vec![Item { id: 2, amount: 3 }]);
}

#[test]
fn add_trade_item_refusals() {
    let mut m = map();
    // more than carried
    assert_eq!(m.add_trade_item(1, 2, Item { id: 2, amount: 4 }, &settings(), &data()), None);
    // protected, nonpositive, over the limit
    assert_eq!(m.add_trade_item(1, 2, Item { id: 1, amount: 4 }, &settings(), &data()), None);
    assert_eq!(m.add_trade_item(1, 2, Item { id: 2, amount: 0 }, &settings(), &data()), None);
    assert_eq!(m.add_trade_item(1, 2, Item { id: 2, amount: 501 }, &settings(), &data()), None);
    // lore item
    m.characters.get_mut(&1).unwrap().items.push(Item { id: 3, amount: 1 });
    assert_eq!(m.add_trade_item(1, 2, Item { id: 3, amount: 1 }, &settings(), &data()), None);
    // no record
    m.characters.get_mut(&1).unwrap().items.push(Item { id: 30, amount: 1 });
    assert_eq!(m.add_trade_item(1, 2, Item { id: 30, amount: 1 }, &settings(), &data()), None);
    assert!(m.characters[&1].trade_items.is_empty());
}

#[test]
fn trade_offer_slots_are_limited() {
    let mut m = map();
    let c = m.characters.get_mut(&1).unwrap();
    for id in 10..20 {
        c.trade_items.push(Item { id, amount: 1 });
    }
    c.items.push(Item { id: 4, amount: 5 });
    assert_eq!(m.add_trade_item(1, 2, Item { id: 4, amount: 1 }, &settings(), &data()), None);
    assert_eq!(m.characters[&1].trade_items.len(), 10);
}

#[test]
fn buy_item_pays_and_receives() {
    let mut m = map();
    let bought = m.buy_item(1, 2, Item { id: 2, amount: 3 }, &settings(), &data()).unwrap();
    assert_eq!(
        bought.reply,
        Some(ShopBuyReply { gold_amount: 970, bought_item: Item { id: 2, amount: 3 }, weight: 12 })
    );
    assert!(bought.quests_to_act.is_empty());
    assert_eq!(m.characters[&1].get_item_amount(2), 6);
}

#[test]
fn buy_item_capped_by_shop_and_weight() {
    let mut m = map();
    // the shop sells at most 5 at a time
    let bought = m.buy_item(1, 2, Item { id: 2, amount: 9 }, &settings(), &data()).unwrap();
    assert_eq!(bought.reply.unwrap().bought_item, Item { id: 2, amount: 5 });
    // 84 weight left at 2 each: 42, capped by the shop's 5 again
    let mut m = map();
    m.characters.get_mut(&1).unwrap().weight = 97;
    let bought = m.buy_item(1, 2, Item { id: 2, amount: 9 }, &settings(), &data()).unwrap();
    assert_eq!(bought.reply.unwrap().bought_item, Item { id: 2, amount: 1 });
}

#[test]
fn buy_item_refusals() {
    let mut m = map();
    assert!(m.buy_item(1, 1, Item { id: 2, amount: 1 }, &settings(), &data()).is_none());
    assert!(m.buy_item(1, 2, Item { id: 3, amount: 1 }, &settings(), &data()).is_none());
    assert!(m.buy_item(1, 2, Item { id: 2, amount: 0 }, &settings(), &data()).is_none());
    m.characters.get_mut(&1).unwrap().items[0].amount = 5;
    assert!(m.buy_item(1, 2, Item { id: 2, amount: 1 }, &settings(), &data()).is_none());
    m.characters.get_mut(&1).unwrap().weight = 100;
    assert!(m.buy_item(1, 2, Item { id: 4, amount: 1 }, &settings(), &data()).is_none());
    assert_eq!(m.characters[&1].get_item_amount(1), 5);
}

#[test]
fn purchase_trades_gold_for_items() {
    let mut m = map();
    let gold = m.characters[&1].get_item_amount(1);
    let held = m.characters[&1].get_item_amount(4);
    m.buy_item(1, 2, Item { id: 4, amount: 7 }, &settings(), &data()).unwrap();
    assert_eq!(m.characters[&1].get_item_amount(1), gold - 21);
    assert_eq!(m.characters[&1].get_item_amount(4), held + 7);
}

#[test]
fn paperdoll_of_present_target() {
    let m = map();
    assert!(m.request_paperdoll(1, 2));
    assert!(!m.request_paperdoll(1, 3));
    assert!(!m.request_paperdoll(3, 2));
    let reply = m.paperdoll_reply(2, true).unwrap();
    assert_eq!(reply.name, "bob");
    assert_eq!(reply.guild, "Knights");
    assert_eq!(reply.partner, "");
    assert_eq!(reply.title, "Sir");
    assert_eq!(reply.player_id, 2);
    assert_eq!(reply.equipment, vec![4, 0, 7]);
    assert_eq!(reply.icon, CharacterIcon::HgmParty);
    assert_eq!(m.paperdoll_reply(1, false).unwrap().icon, CharacterIcon::Player);
    assert!(m.paperdoll_reply(9, false).is_none());
}

#[test]
fn join_guild_sets_membership() {
    let mut m = map();
    let joined = m
        .join_guild(1, 2, "KNT".to_string(), "Knights".to_string(), "Recruit".to_string())
        .unwrap();
    assert_eq!(joined.guild_tag, "KNT");
    let bytes = joined.agree_packet.unwrap();
    // recruiter id as an EO short, then each string after a break byte
    assert_eq!(&bytes[..2], &[3, 254]);
    assert_eq!(bytes[2], 0xFF);
    assert_eq!(&bytes[3..6], b"KNT");
    let c = &m.characters[&1];
    assert_eq!(c.guild_tag.as_deref(), Some("KNT"));
    assert_eq!(c.guild_name.as_deref(), Some("Knights"));
    assert_eq!(c.guild_rank_string.as_deref(), Some("Recruit"));
    assert_eq!(c.guild_rank, Some(9));
    assert!(m.join_guild(8, 2, "A".to_string(), "B".to_string(), "C".to_string()).is_none());
}

#[test]
fn join_guild_packet_fails_for_bad_recruiter() {
    let mut m = map();
    let joined = m
        .join_guild(1, 70000, "KNT".to_string(), "Knights".to_string(), "Recruit".to_string())
        .unwrap();
    assert!(joined.agree_packet.is_none());
    assert_eq!(m.characters[&1].guild_rank, Some(9));
}

#[test]
fn deposit_moves_gold_to_bank() {
    let mut m = map();
    let s = settings();
    let d = data();
    let (mut deposit, action) = m.deposit_gold(1, 77, 300);
    assert!(matches!(action, DepositAction::AskTrading));
    assert!(matches!(deposit.step(&mut m, DepositEvent::Trading(false), &s, &d), DepositAction::AskSessionId));
    assert!(matches!(
        deposit.step(&mut m, DepositEvent::SessionId(Some(77)), &s, &d),
        DepositAction::AskInteractNpc
    ));
    assert_eq!(deposit.stage, DepositStage::AwaitInteractNpc { amount: 300 });
    match deposit.step(&mut m, DepositEvent::InteractNpc(Some(1)), &s, &d) {
        DepositAction::Reply(bytes) => {
            // 700 = 194 + 2 * 253 -> [195, 3, 254, 254]; 350 = 97 + 253 -> [98, 2, 254, 254]
            assert_eq!(bytes, vec![195, 3, 254, 254, 98, 2, 254, 254]);
        },
        other => panic!("unexpected {:?}", other),
    }
    let c = &m.characters[&1];
    assert_eq!(c.get_item_amount(1) + c.gold_bank, 1000 + 50);
    assert_eq!(c.gold_bank, 350);
}

#[test]
fn deposit_capped_by_bank_limit_and_held_gold() {
    let mut m = map();
    m.characters.get_mut(&1).unwrap().gold_bank = 1900;
    let s = settings();
    let d = data();
    let (mut deposit, _) = m.deposit_gold(1, 77, 5000);
    deposit.step(&mut m, DepositEvent::Trading(false), &s, &d);
    deposit.step(&mut m, DepositEvent::SessionId(Some(77)), &s, &d);
    assert_eq!(deposit.stage, DepositStage::AwaitInteractNpc { amount: 100 });
}

#[test]
fn deposit_refusals() {
    let s = settings();
    let d = data();
    let mut m = map();
    let (_, action) = m.deposit_gold(5, 1, 10);
    assert!(matches!(action, DepositAction::Stop));
    let (mut deposit, _) = m.deposit_gold(1, 1, 10);
    assert!(matches!(deposit.step(&mut m, DepositEvent::Trading(true), &s, &d), DepositAction::Stop));
    let (mut deposit, _) = m.deposit_gold(1, 1, 10);
    deposit.step(&mut m, DepositEvent::Trading(false), &s, &d);
    assert!(matches!(deposit.step(&mut m, DepositEvent::SessionId(Some(2)), &s, &d), DepositAction::Stop));
    let (mut deposit, _) = m.deposit_gold(1, 1, 0);
    deposit.step(&mut m, DepositEvent::Trading(false), &s, &d);
    assert!(matches!(deposit.step(&mut m, DepositEvent::SessionId(Some(1)), &s, &d), DepositAction::Stop));
    let (mut deposit, _) = m.deposit_gold(1, 1, 10);
    deposit.step(&mut m, DepositEvent::Trading(false), &s, &d);
    deposit.step(&mut m, DepositEvent::SessionId(Some(1)), &s, &d);
    assert!(matches!(deposit.step(&mut m, DepositEvent::InteractNpc(Some(40)), &s, &d), DepositAction::Stop));
    assert_eq!(m.characters[&1].gold_bank, 50);
    assert_eq!(m.characters[&1].get_item_amount(1), 1000);
}

#[test]
fn upgrade_locker_fits_catches_cost_overflow() {
    let m = map();
    let d = data();
    assert!(m.upgrade_locker_fits(1, 1, &settings(), &d));
    let mut s = settings();
    s.bank.upgrade_cost_step = i32::MAX;
    let mut m2 = map();
    m2.characters.get_mut(&1).unwrap().bank_level = 2;
    assert!(!m2.upgrade_locker_fits(1, 1, &s, &d));
    let mut s = settings();
    s.bank.upgrade_base_cost = i32::MAX;
    assert!(!m2.upgrade_locker_fits(1, 1, &s, &d));
    // at the upgrade limit nothing is computed
    m2.characters.get_mut(&1).unwrap().bank_level = 3;
    assert!(m2.upgrade_locker_fits(1, 1, &s, &d));
    assert!(m.upgrade_locker_fits(9, 1, &s, &d));
}

#[test]
fn junk_item_fits_catches_weight_overflow() {
    let m = map();
    assert!(m.junk_item_fits(1, 2, 2, &settings(), &data()));
    let mut d = data();
    d.items[1].weight = i32::MAX;
    assert!(!m.junk_item_fits(1, 2, 2, &settings(), &d));
    // a refused request computes nothing
    assert!(m.junk_item_fits(1, 2, 0, &settings(), &d));
}

#[test]
fn reset_character_fits_catches_point_overflow() {
    let m = map();
    assert!(m.reset_character_fits(1, 4, &settings(), &data()));
    let mut s = settings();
    s.world.stat_points_per_level = u32::MAX;
    assert!(!m.reset_character_fits(1, 4, &s, &data()));
    // not at a trainer
    assert!(m.reset_character_fits(1, 1, &s, &data()));
}

#[test]
fn buy_item_fits_catches_price_overflow() {
    let m = map();
    let s = settings();
    assert!(m.buy_item_fits(1, 2, Item { id: 2, amount: 2 }, &s, &data()));
    let mut d = data();
    d.shops[0].trades[1].buy_price = i32::MAX;
    assert!(!m.buy_item_fits(1, 2, Item { id: 2, amount: 2 }, &s, &d));
    // an unknown npc computes nothing
    assert!(m.buy_item_fits(1, 40, Item { id: 2, amount: 2 }, &s, &d));
}

#[test]
fn deposit_step_fits_catches_bank_overflow() {
    let s = settings();
    let d = data();
    let mut m = map();
    m.characters.get_mut(&1).unwrap().gold_bank = 2500;
    let mut deposit = reoserv::bank::DepositGold { player_id: 1, session_id: 7, amount: 10, stage: DepositStage::AwaitSessionId };
    assert!(!deposit.step_fits(&m, DepositEvent::SessionId(Some(7)), &s, &d));
    assert!(deposit.step_fits(&m, DepositEvent::SessionId(Some(8)), &s, &d));
    deposit.stage = DepositStage::AwaitInteractNpc { amount: -5 };
    assert!(!deposit.step_fits(&m, DepositEvent::InteractNpc(Some(1)), &s, &d));
    let m = map();
    deposit.stage = DepositStage::AwaitInteractNpc { amount: 100 };
    assert!(deposit.step_fits(&m, DepositEvent::InteractNpc(Some(1)), &s, &d));
}

#[test]
fn locker_upgrades_stop_at_the_limit() {
    let mut m = map();
    for _ in 0..5 {
        m.upgrade_locker(1, 1, &settings(), &data());
    }
    assert_eq!(m.characters[&1].bank_level, 3);
    assert_eq!(m.characters[&1].get_item_amount(1), 1000 - 100 - 150 - 200);
}

#[test]
fn negative_locker_cost_and_shop_maximum_follow_the_arithmetic() {
    let mut s = settings();
    s.bank.upgrade_base_cost = -100;
    let mut m = map();
    assert!(m.upgrade_locker_fits(1, 1, &s, &data()));
    let reply = m.upgrade_locker(1, 1, &s, &data());
    assert_eq!(reply, Some(LockerBuyReply { gold_amount: 1100, locker_upgrades: 1 }));

    let mut d = data();
    d.shops[0].trades[1].max_amount = -2;
    let mut m = map();
    let item = Item { id: 2, amount: 2 };
    assert!(m.buy_item_fits(1, 2, item, &settings(), &d));
    let bought = m.buy_item(1, 2, item, &settings(), &d).unwrap();
    assert_eq!(bought.reply.unwrap().bought_item, Item { id: 2, amount: -2 });
    assert_eq!(m.characters[&1].get_item_amount(1), 1020);
    assert_eq!(m.characters[&1].get_item_amount(2), 1);
}
