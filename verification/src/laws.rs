//! What holds of the inventory and bank operations taken together: the
//! counts they change, what they keep, the limits they respect, and what
//! one undoes of another.
use crate::character::{
    holdable, Character, QuestProgress, progressed_quests, quest_run, quest_step, quests_to_act, added_items, amount_of, can_add_amount, first_match, is_first, lemma_first_match, removed_amount,
    removed_items,
};
use crate::bank::deposit_amount;
use crate::data::{record_for, GameData, Item, ItemSpecial, Quest, Settings, WorldSettings};
use crate::map::{is_citizen, locker_cost, npc_record_at, offered, sells, shop_for, GameMap, MAX_TRADE_SLOTS};
use vstd::prelude::*;

verus! {

/// No item id occurs twice in `items`.
pub open spec fn unique_ids(items: Seq<Item>) -> bool {
    forall|i: int, j: int| 0 <= i < j < items.len() ==> items[i].id != items[j].id
}

/// Every entry of `items` holds at least one item.
pub open spec fn items_positive(items: Seq<Item>) -> bool {
    forall|i: int| 0 <= i < items.len() ==> #[trigger] items[i].amount > 0
}

/// In a list without repeated ids, the entry with id `id` is its first.
proof fn lemma_unique_first(items: Seq<Item>, id: i32, i: int)
    requires
        unique_ids(items),
        0 <= i < items.len(),
        items[i].id == id,
    ensures
        first_match(items, id) == Some(i),
{
    assert forall|j: int| 0 <= j < i implies items[j].id != id by {
        assert(items[j].id != items[i].id);
    }
    assert(is_first(items, id, i));
    lemma_first_match(items, id, i);
}

/// Whether a list holds an entry with id `id`.
proof fn lemma_first_match_is_some(items: Seq<Item>, id: i32, j: int)
    requires
        0 <= j < items.len(),
        items[j].id == id,
    ensures
        first_match(items, id) is Some,
    decreases j,
{
    if exists|k: int| 0 <= k < j && items[k].id == id {
        let k = choose|k: int| 0 <= k < j && items[k].id == id;
        lemma_first_match_is_some(items, id, k);
    } else {
        assert(is_first(items, id, j));
    }
}

/// Two lists with the same ids in the same places have their first
/// entries for any id in the same places.
proof fn lemma_same_ids_same_first(a: Seq<Item>, b: Seq<Item>, id: i32)
    requires
        a.len() == b.len(),
        forall|k: int| 0 <= k < a.len() ==> #[trigger] a[k].id == b[k].id,
    ensures
        first_match(a, id) == first_match(b, id),
{
    match first_match(a, id) {
        Some(i) => {
            assert(is_first(a, id, i));
            assert(a[i].id == b[i].id);
            assert forall|j: int| 0 <= j < i implies b[j].id != id by {
                assert(a[j].id == b[j].id);
            }
            assert(is_first(b, id, i));
            lemma_first_match(b, id, i);
        },
        None => {
            if exists|i: int| is_first(b, id, i) {
                let i = choose|i: int| is_first(b, id, i);
                assert(a[i].id == b[i].id);
                assert forall|j: int| 0 <= j < i implies a[j].id != id by {
                    assert(a[j].id == b[j].id);
                }
                assert(is_first(a, id, i));
                lemma_first_match(a, id, i);
            }
        },
    }
}

/// Adding `amount` of an item raises the count of that item by `amount`
/// and leaves the count of every other item as it was.
pub proof fn law_add_counts(items: Seq<Item>, id: i32, amount: i32, other: i32)
    requires
        can_add_amount(items, id, amount),
        other != id,
    ensures
        amount_of(added_items(items, id, amount), id) == amount_of(items, id) + amount,
        amount_of(added_items(items, id, amount), other) == amount_of(items, other),
{
    let added = added_items(items, id, amount);
    match first_match(items, id) {
        Some(i) => {
            assert(is_first(items, id, i));
            lemma_same_ids_same_first(items, added, id);
            lemma_same_ids_same_first(items, added, other);
        },
        None => {
            let n = items.len() as int;
            assert forall|j: int| 0 <= j < n implies added[j].id != id by {
                if items[j].id == id {
                    lemma_first_match_is_some(items, id, j);
                }
            }
            assert(is_first(added, id, n));
            lemma_first_match(added, id, n);
            match first_match(items, other) {
                Some(j) => {
                    assert(is_first(items, other, j));
                    assert(is_first(added, other, j));
                    lemma_first_match(added, other, j);
                },
                None => {
                    if exists|j: int| is_first(added, other, j) {
                        let j = choose|j: int| is_first(added, other, j);
                        assert(added[n].id == id);
                        assert(j < n);
                        assert(added[j] == items[j]);
                        assert forall|k: int| 0 <= k < j implies items[k].id != other by {
                            assert(added[k] == items[k]);
                        }
                        assert(is_first(items, other, j));
                        lemma_first_match(items, other, j);
                    }
                },
            }
        },
    }
}

/// Adding keeps the ids of a list unique.
pub proof fn law_add_keeps_ids_unique(items: Seq<Item>, id: i32, amount: i32)
    requires
        unique_ids(items),
    ensures
        unique_ids(added_items(items, id, amount)),
{
    let added = added_items(items, id, amount);
    match first_match(items, id) {
        Some(i) => {
            assert(is_first(items, id, i));
            assert forall|a: int, b: int| 0 <= a < b < added.len() implies added[a].id != added[b].id by {
                assert(added[a].id == items[a].id);
                assert(added[b].id == items[b].id);
            }
        },
        None => {
            assert forall|a: int, b: int| 0 <= a < b < added.len() implies added[a].id != added[b].id by {
                if b == items.len() {
                    if items[a].id == id {
                        lemma_first_match_is_some(items, id, a);
                    }
                }
            }
        },
    }
}

/// In a list without repeated ids, taking up to `amount` of an item
/// lowers its count by what was taken, leaves every other count as it
/// was, and keeps the ids unique.
pub proof fn law_remove_counts(items: Seq<Item>, id: i32, amount: i32, other: i32)
    requires
        unique_ids(items),
        amount >= 0,
        other != id,
    ensures
        amount_of(removed_items(items, id, amount), id) == amount_of(items, id) - removed_amount(items, id, amount),
        amount_of(removed_items(items, id, amount), other) == amount_of(items, other),
        unique_ids(removed_items(items, id, amount)),
{
    let r = removed_items(items, id, amount);
    match first_match(items, id) {
        Some(i) => {
            assert(is_first(items, id, i));
            if items[i].amount <= amount {
                assert forall|a: int, b: int| 0 <= a < b < r.len() implies r[a].id != r[b].id by {
                    let a0 = if a < i { a } else { a + 1 };
                    let b0 = if b < i { b } else { b + 1 };
                    assert(r[a] == items[a0]);
                    assert(r[b] == items[b0]);
                }
                assert forall|k: int| 0 <= k < r.len() implies r[k].id != id by {
                    let k0 = if k < i { k } else { k + 1 };
                    assert(r[k] == items[k0]);
                    assert(items[k0].id != items[i].id);
                }
                if exists|k: int| is_first(r, id, k) {
                    let k = choose|k: int| is_first(r, id, k);
                    assert(r[k].id != id);
                }
                match first_match(items, other) {
                    Some(j) => {
                        assert(is_first(items, other, j));
                        let j2 = if j < i { j } else { j - 1 };
                        assert(r[j2] == items[j]);
                        lemma_unique_first(r, other, j2);
                    },
                    None => {
                        if exists|k: int| is_first(r, other, k) {
                            let k = choose|k: int| is_first(r, other, k);
                            let k0 = if k < i { k } else { k + 1 };
                            assert(r[k] == items[k0]);
                            lemma_unique_first(items, other, k0);
                        }
                    },
                }
            } else {
                lemma_same_ids_same_first(items, r, id);
                lemma_same_ids_same_first(items, r, other);
                assert forall|a: int, b: int| 0 <= a < b < r.len() implies r[a].id != r[b].id by {
                    assert(r[a].id == items[a].id);
                    assert(r[b].id == items[b].id);
                }
                match first_match(items, other) {
                    Some(j) => {
                        assert(is_first(items, other, j));
                    },
                    None => {},
                }
            }
        },
        None => {},
    }
}

/// Taking back what was just added restores a list of positive entries:
/// an entry that was there gets its old amount back, a new one goes.
pub proof fn law_remove_undoes_add(items: Seq<Item>, id: i32, amount: i32)
    requires
        items_positive(items),
        amount > 0,
        can_add_amount(items, id, amount),
    ensures
        removed_items(added_items(items, id, amount), id, amount) == items,
        removed_amount(added_items(items, id, amount), id, amount) == amount,
{
    let added = added_items(items, id, amount);
    match first_match(items, id) {
        Some(i) => {
            assert(is_first(items, id, i));
            lemma_same_ids_same_first(items, added, id);
            assert(items[i].amount > 0);
            assert(removed_items(added, id, amount) =~= items);
        },
        None => {
            let n = items.len() as int;
            assert forall|j: int| 0 <= j < n implies added[j].id != id by {
                if items[j].id == id {
                    lemma_first_match_is_some(items, id, j);
                }
            }
            assert(is_first(added, id, n));
            lemma_first_match(added, id, n);
            assert(removed_items(added, id, amount) =~= items);
        },
    }
}


/// Taking `amount` of an item when at least that many are carried takes
/// exactly `amount`.
proof fn lemma_remove_takes_all_asked(items: Seq<Item>, id: i32, amount: i32)
    requires
        0 <= amount <= amount_of(items, id),
    ensures
        removed_amount(items, id, amount) == amount,
{
}

/// No two entries of `items` have id `id`.
pub open spec fn at_most_one(items: Seq<Item>, id: i32) -> bool {
    forall|i: int, j: int| 0 <= i < j < items.len() ==> !(items[i].id == id && items[j].id == id)
}

/// Paying `cost` gold (no more than is carried) lowers the gold carried
/// by exactly `cost`, as a locker upgrade does. Gold is counted by its
/// first entry, so the law leaves out paying that entry off exactly when
/// another gold entry follows it, and a negative cost without a gold
/// entry (which changes nothing).
pub proof fn law_payment_lowers_gold(items: Seq<Item>, cost: i32)
    requires
        cost <= amount_of(items, 1),
        cost < amount_of(items, 1) || at_most_one(items, 1),
        cost >= 0 || first_match(items, 1) is Some,
        amount_of(items, 1) - cost <= i32::MAX,
    ensures
        amount_of(removed_items(items, 1, cost), 1) == amount_of(items, 1) - cost,
{
    let r = removed_items(items, 1, cost);
    match first_match(items, 1) {
        Some(i) => {
            assert(is_first(items, 1, i));
            if items[i].amount <= cost {
                assert forall|k: int| 0 <= k < r.len() implies r[k].id != 1 by {
                    let k0 = if k < i { k } else { k + 1 };
                    assert(r[k] == items[k0]);
                    if k0 > i {
                        assert(!(items[i].id == 1 && items[k0].id == 1));
                    }
                }
                if exists|k: int| is_first(r, 1, k) {
                    let k = choose|k: int| is_first(r, 1, k);
                    assert(r[k].id != 1);
                }
            } else {
                lemma_same_ids_same_first(items, r, 1);
                assert(r[i].amount == items[i].amount - cost);
            }
        },
        None => {
            assert(r == items);
        },
    }
}

/// A deposit keeps the character's gold: what leaves the inventory
/// arrives in the bank (with the exceptions of `law_payment_lowers_gold`).
pub proof fn law_deposit_keeps_gold(items: Seq<Item>, bank: int, amount: i32)
    requires
        0 < amount <= amount_of(items, 1),
        amount < amount_of(items, 1) || at_most_one(items, 1),
    ensures
        amount_of(removed_items(items, 1, amount), 1) + (bank + amount) == amount_of(items, 1) + bank,
{
    law_payment_lowers_gold(items, amount);
}

/// A purchase trades gold for items: the gold carried falls by the price
/// and the count of the item bought rises by the amount bought.
pub proof fn law_purchase_trades_gold_for_items(items: Seq<Item>, item_id: i32, amount: i32, price: i32)
    requires
        unique_ids(items),
        item_id != 1,
        0 <= price <= amount_of(items, 1),
        can_add_amount(removed_items(items, 1, price), item_id, amount),
    ensures
        amount_of(added_items(removed_items(items, 1, price), item_id, amount), 1) == amount_of(items, 1) - price,
        amount_of(added_items(removed_items(items, 1, price), item_id, amount), item_id) == amount_of(items, item_id)
            + amount,
{
    let paid = removed_items(items, 1, price);
    assert(at_most_one(items, 1));
    law_payment_lowers_gold(items, price);
    law_remove_counts(items, 1, price, item_id);
    law_add_counts(paid, item_id, amount, 1);
}


/// Offering items keeps a trade offer within its slots and without an
/// item twice: a new item is only appended while a slot is free.
pub proof fn law_offer_keeps_slots(offer: Seq<Item>, item: Item)
    requires
        unique_ids(offer),
        offer.len() <= MAX_TRADE_SLOTS,
        first_match(offer, item.id) is Some || offer.len() < MAX_TRADE_SLOTS,
    ensures
        offered(offer, item).len() <= MAX_TRADE_SLOTS,
        unique_ids(offered(offer, item)),
        amount_of(offered(offer, item), item.id) == item.amount,
{
    let o = offered(offer, item);
    match first_match(offer, item.id) {
        Some(i) => {
            assert(is_first(offer, item.id, i));
            assert forall|a: int, b: int| 0 <= a < b < o.len() implies o[a].id != o[b].id by {
                assert(o[a].id == offer[a].id);
                assert(o[b].id == offer[b].id);
            }
            lemma_unique_first(o, item.id, i);
        },
        None => {
            let n = offer.len() as int;
            assert forall|a: int, b: int| 0 <= a < b < o.len() implies o[a].id != o[b].id by {
                if b == n && offer[a].id == item.id {
                    lemma_first_match_is_some(offer, item.id, a);
                }
            }
            lemma_unique_first(o, item.id, n);
        },
    }
}

/// A deposit never fills the bank past its limit, nor moves more gold
/// than is carried or asked for, nor a negative amount.
pub proof fn law_deposit_within_limits(held: int, bank: int, max_bank: int, requested: int)
    requires
        0 <= held,
        0 <= requested,
        bank <= max_bank,
    ensures
        0 <= deposit_amount(held, bank, max_bank, requested),
        bank + deposit_amount(held, bank, max_bank, requested) <= max_bank,
        deposit_amount(held, bank, max_bank, requested) <= held,
        deposit_amount(held, bank, max_bank, requested) <= requested,
{
}

/// A locker upgrade is only bought below the upgrade limit, so the bank
/// level it raises by one never passes the limit; and it lowers the gold
/// carried by exactly the cost, which leaves no debt (with the exceptions
/// of `law_payment_lowers_gold`).
pub proof fn law_locker_stays_within_upgrades(map: GameMap, player_id: i32, npc_index: i32, settings: Settings, data: GameData)
    requires
        map.locker_upgrade_ok(player_id, npc_index, settings, data),
        i32::MIN <= locker_cost(settings.bank, map.characters@[player_id].bank_level) <= i32::MAX,
        locker_cost(settings.bank, map.characters@[player_id].bank_level) < amount_of(
            map.characters@[player_id].items@,
            1,
        ) || at_most_one(map.characters@[player_id].items@, 1),
        locker_cost(settings.bank, map.characters@[player_id].bank_level) >= 0 || first_match(
            map.characters@[player_id].items@,
            1,
        ) is Some,
        amount_of(map.characters@[player_id].items@, 1) - locker_cost(
            settings.bank,
            map.characters@[player_id].bank_level,
        ) <= i32::MAX,
    ensures
        map.characters@[player_id].bank_level + 1 <= settings.bank.max_upgrades,
        ({
            let c = map.characters@[player_id];
            let cost = locker_cost(settings.bank, c.bank_level) as i32;
            &&& amount_of(removed_items(c.items@, 1, cost), 1) == amount_of(c.items@, 1) - cost
            &&& amount_of(removed_items(c.items@, 1, cost), 1) >= 0
        }),
{
    let c = map.characters@[player_id];
    law_payment_lowers_gold(c.items@, locker_cost(settings.bank, c.bank_level) as i32);
}

/// Citizenship is given up once: a citizen moves to the home of new
/// characters, where it is no citizen of any town.
pub proof fn law_citizenship_given_up_once(home: Seq<char>, inn_name: Seq<char>, other_inn: Seq<char>, new_home: Seq<char>)
    requires
        is_citizen(home, inn_name, new_home),
    ensures
        !is_citizen(new_home, other_inn, new_home),
{
}

/// A second stat reset changes nothing that the first set: the stats,
/// spells and points stay as the first reset left them.
pub proof fn law_reset_twice_changes_nothing(c0: Character, c1: Character, c2: Character, world: WorldSettings)
    requires
        c1.is_reset_of(c0, world),
        c2.is_reset_of(c1, world),
    ensures
        c2.base_strength == c1.base_strength,
        c2.base_intelligence == c1.base_intelligence,
        c2.base_wisdom == c1.base_wisdom,
        c2.base_agility == c1.base_agility,
        c2.base_constitution == c1.base_constitution,
        c2.base_charisma == c1.base_charisma,
        c2.spells@ == c1.spells@,
        c2.stat_points == c1.stat_points,
        c2.skill_points == c1.skill_points,
        c2.level == c1.level,
{
}

/// A run over quests none of which has a rule met leaves them as they
/// were, moves none and does not stop.
proof fn lemma_run_without_rules_met(db: Map<i32, Quest>, ps: Seq<QuestProgress>, item_id: i32, total: int, n: nat)
    requires
        n <= ps.len(),
        forall|j: int| 0 <= j < ps.len() ==> #[trigger] quest_step(db, ps[j], item_id, total) is Skip,
    ensures
        quest_run(db, ps, item_id, total, n) == (ps, Seq::<i32>::empty(), false),
    decreases n,
{
    if n > 0 {
        lemma_run_without_rules_met(db, ps, item_id, total, (n - 1) as nat);
        assert(quest_step(db, ps[n - 1], item_id, total) is Skip);
    }
}

/// Adding items that meet no quest's rule changes no quest and leaves no
/// quest actions to run.
pub proof fn law_no_rule_met_changes_no_quest(db: Map<i32, Quest>, ps: Seq<QuestProgress>, item_id: i32, total: int)
    requires
        forall|j: int| 0 <= j < ps.len() ==> #[trigger] quest_step(db, ps[j], item_id, total) is Skip,
    ensures
        progressed_quests(db, ps, item_id, total) == ps,
        quests_to_act(db, ps, item_id, total) == Seq::<i32>::empty(),
{
    lemma_run_without_rules_met(db, ps, item_id, total, ps.len());
}

/// A purchase charges the trade's price for each item actually bought:
/// the npc keeps a shop with a trade that sells the item, and the plan
/// buys no more than asked, than the character can carry or than the
/// trade's maximum, at that trade's price times the amount bought.
pub proof fn law_purchase_price_is_per_item_bought(
    map: GameMap,
    player_id: i32,
    npc_index: i32,
    item: Item,
    settings: Settings,
    data: GameData,
)
    requires
        map.buy_plan(player_id, npc_index, item, settings, data) is Some,
    ensures
        ({
            let (a, p) = map.buy_plan(player_id, npc_index, item, settings, data)->0;
            let c = map.characters@[player_id];
            let hold = holdable(data.items@, c.weight as int, c.max_weight as int, item.id, item.amount as int);
            &&& map.shop_trade_at(npc_index, item.id, data) matches Some(t) && {
                &&& t.item_id == item.id
                &&& t.buy_price > 0
                &&& p == t.buy_price * a
                &&& a <= t.max_amount
                &&& (a == hold || a == t.max_amount)
            }
            &&& a <= hold
            &&& hold <= item.amount
            &&& p <= amount_of(c.items@, 1)
        }),
{
    match npc_record_at(map.npcs@, data.npcs@, npc_index) {
        Some(r) => {
            match shop_for(data.shops@, r.behavior_id) {
                Some(s) => {
                    let trades = data.shops@[s].trades@;
                    if exists|i: int| 0 <= i < trades.len() && sells(trades[i], item.id)
                        && forall|j: int| 0 <= j < i ==> !sells(#[trigger] trades[j], item.id) {
                        let i = choose|i: int| 0 <= i < trades.len() && sells(trades[i], item.id)
                            && forall|j: int| 0 <= j < i ==> !sells(#[trigger] trades[j], item.id);
                        assert(sells(trades[i], item.id));
                    }
                },
                None => {},
            }
        },
        None => {},
    }
}

/// An item is put in the trade offer whenever its record exists and it is
/// not a lore item, the character holds the amount offered, the item is
/// not protected, the amount is positive and within the trade limit, and
/// the offer already holds the item or has a free slot; a lore item, or
/// one without a record, never is.
pub proof fn law_offer_refuses_only_lore(map: GameMap, player_id: i32, item: Item, settings: Settings, data: GameData)
    ensures
        ({
            &&& 0 < item.amount <= settings.limits.max_trade
            &&& !settings.items.protected_items@.contains(item.id)
            &&& map.characters@.contains_key(player_id)
            &&& amount_of(map.characters@[player_id].items@, item.id) >= item.amount
            &&& (first_match(map.characters@[player_id].trade_items@, item.id) is Some
                || map.characters@[player_id].trade_items@.len() < MAX_TRADE_SLOTS)
            &&& record_for(data.items@, item.id as int) matches Some(r) && r.special != ItemSpecial::Lore
        }) ==> map.trade_offer_ok(player_id, item, settings, data),
        (match record_for(data.items@, item.id as int) {
            Some(r) => r.special == ItemSpecial::Lore,
            None => true,
        }) ==> !map.trade_offer_ok(player_id, item, settings, data),
{
}

} // verus!
