//! A map: the characters on it, keyed by player id, and its npcs, keyed by
//! npc index; and what the map does on the requests of its players.
use crate::character::{
    added_items, addition_fits, amount_of, can_add_to, can_remove, find_item, first_match, holdable,
    lemma_i32_product, progressed_quests, quests_readable, quests_to_act, removal_weight, removed_amount,
    removed_copy, removed_items, weight_change, Character,
};
use crate::laws::law_add_counts;
use crate::data::{
    contains_id, item_record, npc_record, record_for, BankSettings, GameData, Inn, Item, ItemSpecial,
    NpcRecord, NpcType, Settings, Shop, ShopTrade,
};
use std::collections::HashMap;
use vstd::prelude::*;

verus! {

broadcast use vstd::std_specs::hash::group_hash_axioms;

/// An npc standing on a map.
#[derive(Clone, Copy, Debug, PartialEq, Eq, Structural)]
pub struct Npc {
    pub id: i32,
}

/// A map of the world. (Named `GameMap`: `Map` is the name of Verus's
/// mathematical map.)
pub struct GameMap {
    pub characters: HashMap<i32, Character>,
    pub npcs: HashMap<i32, Npc>,
}

/// `new` holds what `old` holds, but for key `k`, which it holds.
pub open spec fn updated_at<V>(old: vstd::map::Map<i32, V>, new: vstd::map::Map<i32, V>, k: i32) -> bool {
    &&& new.contains_key(k)
    &&& new == old.insert(k, new[k])
}

/// The npc database record of the npc at `npc_index`.
pub open spec fn npc_record_at(npcs: vstd::map::Map<i32, Npc>, db: Seq<NpcRecord>, npc_index: i32) -> Option<NpcRecord> {
    if npcs.contains_key(npc_index) {
        record_for(db, npcs[npc_index].id as int)
    } else {
        None
    }
}

/// Whether the npc at `npc_index` is of type `t`.
pub open spec fn npc_is(npcs: vstd::map::Map<i32, Npc>, db: Seq<NpcRecord>, npc_index: i32, t: NpcType) -> bool {
    match npc_record_at(npcs, db, npc_index) {
        Some(r) => r.npc_type == t,
        None => false,
    }
}

/// The gold a locker upgrade costs at bank level `level`.
pub open spec fn locker_cost(bank: BankSettings, level: i32) -> int {
    bank.upgrade_base_cost + bank.upgrade_cost_step * level
}

/// What a player is told after a locker upgrade.
#[derive(Clone, Copy, Debug, PartialEq, Eq, Structural)]
pub struct LockerBuyReply {
    pub gold_amount: i32,
    pub locker_upgrades: i32,
}


/// What a player is told after junking items.
#[derive(Clone, Copy, Debug, PartialEq, Eq, Structural)]
pub struct ItemJunkReply {
    pub junked_item: Item,
    pub remaining_amount: i32,
    pub weight: i32,
}

/// The answer to a request to give up citizenship.
#[derive(Clone, Copy, Debug, PartialEq, Eq, Structural)]
pub enum InnUnsubscribeReply {
    NotCitizen,
    Unsubscribed,
}

/// The points a player is told about after a stat reset.
#[derive(Clone, Copy, Debug, PartialEq, Eq, Structural)]
pub struct StatsResetReply {
    pub stat_points: u16,
    pub skill_points: u16,
}

/// What a player is told after buying from a shop.
#[derive(Clone, Copy, Debug, PartialEq, Eq, Structural)]
pub struct ShopBuyReply {
    pub gold_amount: i32,
    pub bought_item: Item,
    pub weight: i32,
}

/// What a purchase leads to: the reply to the buyer, if a player controls
/// the character, and the quests whose actions are to run.
pub struct ShopBuy {
    pub reply: Option<ShopBuyReply>,
    pub quests_to_act: Vec<i32>,
}

/// A trade offer after offering `item`: the amount of an item already
/// offered becomes `item.amount`; another item is appended.
pub open spec fn offered(offer: Seq<Item>, item: Item) -> Seq<Item> {
    match first_match(offer, item.id) {
        Some(i) => offer.update(i, item),
        None => offer.push(item),
    }
}

/// How many different items a trade offer holds at most.
pub const MAX_TRADE_SLOTS: usize = 10;

/// The first inn with behavior id `behavior_id`.
pub open spec fn inn_for(inns: Seq<Inn>, behavior_id: i32) -> Option<int> {
    if exists|i: int| 0 <= i < inns.len() && inns[i].behavior_id == behavior_id
        && forall|j: int| 0 <= j < i ==> #[trigger] inns[j].behavior_id != behavior_id {
        Some(choose|i: int| 0 <= i < inns.len() && inns[i].behavior_id == behavior_id
            && forall|j: int| 0 <= j < i ==> #[trigger] inns[j].behavior_id != behavior_id)
    } else {
        None
    }
}

/// The first shop with behavior id `behavior_id`.
pub open spec fn shop_for(shops: Seq<Shop>, behavior_id: i32) -> Option<int> {
    if exists|i: int| 0 <= i < shops.len() && shops[i].behavior_id == behavior_id
        && forall|j: int| 0 <= j < i ==> #[trigger] shops[j].behavior_id != behavior_id {
        Some(choose|i: int| 0 <= i < shops.len() && shops[i].behavior_id == behavior_id
            && forall|j: int| 0 <= j < i ==> #[trigger] shops[j].behavior_id != behavior_id)
    } else {
        None
    }
}

/// A trade that sells item `item_id`.
pub open spec fn sells(t: ShopTrade, item_id: i32) -> bool {
    t.item_id == item_id && t.buy_price > 0
}

/// The first trade of `trades` that sells item `item_id`.
pub open spec fn trade_for(trades: Seq<ShopTrade>, item_id: i32) -> Option<int> {
    if exists|i: int| 0 <= i < trades.len() && sells(trades[i], item_id)
        && forall|j: int| 0 <= j < i ==> !sells(#[trigger] trades[j], item_id) {
        Some(choose|i: int| 0 <= i < trades.len() && sells(trades[i], item_id)
            && forall|j: int| 0 <= j < i ==> !sells(#[trigger] trades[j], item_id))
    } else {
        None
    }
}

fn find_inn(inns: &Vec<Inn>, behavior_id: i32) -> (r: Option<usize>)
    ensures
        match r {
            Some(i) => inn_for(inns@, behavior_id) == Some(i as int),
            None => inn_for(inns@, behavior_id) == None::<int>,
        },
{
    let mut i: usize = 0;
    while i < inns.len()
        invariant
            i <= inns@.len(),
            forall|j: int| 0 <= j < i ==> #[trigger] inns@[j].behavior_id != behavior_id,
        decreases inns.len() - i,
    {
        if inns[i].behavior_id == behavior_id {
            proof {
                let k = choose|k: int| 0 <= k < inns@.len() && inns@[k].behavior_id == behavior_id
                    && forall|j: int| 0 <= j < k ==> #[trigger] inns@[j].behavior_id != behavior_id;
                if k < i {
                    assert(inns@[k].behavior_id != behavior_id);
                } else if (i as int) < k {
                    assert(inns@[i as int].behavior_id != behavior_id);
                }
            }
            return Some(i);
        }
        i = i + 1;
    }
    None
}

fn find_shop(shops: &Vec<Shop>, behavior_id: i32) -> (r: Option<usize>)
    ensures
        match r {
            Some(i) => shop_for(shops@, behavior_id) == Some(i as int),
            None => shop_for(shops@, behavior_id) == None::<int>,
        },
{
    let mut i: usize = 0;
    while i < shops.len()
        invariant
            i <= shops@.len(),
            forall|j: int| 0 <= j < i ==> #[trigger] shops@[j].behavior_id != behavior_id,
        decreases shops.len() - i,
    {
        if shops[i].behavior_id == behavior_id {
            proof {
                let k = choose|k: int| 0 <= k < shops@.len() && shops@[k].behavior_id == behavior_id
                    && forall|j: int| 0 <= j < k ==> #[trigger] shops@[j].behavior_id != behavior_id;
                if k < i {
                    assert(shops@[k].behavior_id != behavior_id);
                } else if (i as int) < k {
                    assert(shops@[i as int].behavior_id != behavior_id);
                }
            }
            return Some(i);
        }
        i = i + 1;
    }
    None
}

fn find_trade(trades: &Vec<ShopTrade>, item_id: i32) -> (r: Option<usize>)
    ensures
        match r {
            Some(i) => trade_for(trades@, item_id) == Some(i as int),
            None => trade_for(trades@, item_id) == None::<int>,
        },
{
    let mut i: usize = 0;
    while i < trades.len()
        invariant
            i <= trades@.len(),
            forall|j: int| 0 <= j < i ==> !sells(#[trigger] trades@[j], item_id),
        decreases trades.len() - i,
    {
        if trades[i].item_id == item_id && trades[i].buy_price > 0 {
            proof {
                let k = choose|k: int| 0 <= k < trades@.len() && sells(trades@[k], item_id)
                    && forall|j: int| 0 <= j < k ==> !sells(#[trigger] trades@[j], item_id);
                if k < i {
                    assert(!sells(trades@[k], item_id));
                } else if (i as int) < k {
                    assert(!sells(trades@[i as int], item_id));
                }
            }
            return Some(i);
        }
        i = i + 1;
    }
    None
}


/// The icon shown beside a character in its paperdoll.
#[derive(Clone, Copy, Debug, PartialEq, Eq, Structural)]
pub enum CharacterIcon {
    Player,
    Gm,
    Hgm,
    Party,
    GmParty,
    HgmParty,
}

/// The icon of a character of admin level `admin_level`: high game
/// masters (level 5) and guardians and up (level 3 and up) have their own
/// icons; each icon has a party form.
pub open spec fn icon_for(admin_level: i32, in_party: bool) -> CharacterIcon {
    if admin_level == 5 {
        if in_party { CharacterIcon::HgmParty } else { CharacterIcon::Hgm }
    } else if admin_level >= 3 {
        if in_party { CharacterIcon::GmParty } else { CharacterIcon::Gm }
    } else if in_party {
        CharacterIcon::Party
    } else {
        CharacterIcon::Player
    }
}

/// The icon of a character of admin level `admin_level`.
pub fn get_icon(admin_level: i32, in_party: bool) -> (icon: CharacterIcon)
    ensures
        icon == icon_for(admin_level, in_party),
{
    if admin_level == 5 {
        if in_party { CharacterIcon::HgmParty } else { CharacterIcon::Hgm }
    } else if admin_level >= 3 {
        if in_party { CharacterIcon::GmParty } else { CharacterIcon::Gm }
    } else if in_party {
        CharacterIcon::Party
    } else {
        CharacterIcon::Player
    }
}

/// The paperdoll icon shows party membership: at every admin level the
/// icon in a party differs from the icon out of one, is one of the party
/// icons, and the icon out of a party is one of the others.
pub proof fn law_icon_shows_party(admin_level: i32)
    ensures
        icon_for(admin_level, true) != icon_for(admin_level, false),
        icon_for(admin_level, true) == CharacterIcon::Party || icon_for(admin_level, true) == CharacterIcon::GmParty
            || icon_for(admin_level, true) == CharacterIcon::HgmParty,
        icon_for(admin_level, false) == CharacterIcon::Player || icon_for(admin_level, false) == CharacterIcon::Gm
            || icon_for(admin_level, false) == CharacterIcon::Hgm,
        0 <= admin_level < 3 ==> icon_for(admin_level, false) == CharacterIcon::Player,
{
}

/// A character's paperdoll as another player sees it.
pub struct PaperdollReply {
    pub name: String,
    pub home: String,
    pub admin: i32,
    pub partner: String,
    pub title: String,
    pub guild: String,
    pub guild_rank: String,
    pub player_id: i32,
    pub class_id: i32,
    pub gender: i32,
    pub equipment: Vec<i32>,
    pub icon: CharacterIcon,
}

/// Whether a character with home `home` is a citizen of the inn's town:
/// it lives there, and not in the home of new characters.
pub open spec fn is_citizen(home: Seq<char>, inn_name: Seq<char>, new_home: Seq<char>) -> bool {
    home != new_home && home == inn_name
}

/// The text of an optional string: the string, or empty.
pub open spec fn text_of(s: Option<String>) -> Seq<char> {
    match s {
        Some(t) => t@,
        None => Seq::empty(),
    }
}

fn text(s: &Option<String>) -> (r: String)
    ensures
        r@ == text_of(*s),
{
    match s {
        Some(t) => t.clone(),
        None => String::new(),
    }
}

impl GameMap {
    /// The npc database record of the npc at `npc_index`.
    pub fn npc_data(&self, npc_index: i32, db: &Vec<NpcRecord>) -> (r: Option<NpcRecord>)
        ensures
            r == npc_record_at(self.npcs@, db@, npc_index),
    {
        match self.npcs.get(&npc_index) {
            Some(npc) => npc_record(db, npc.id),
            None => None,
        }
    }

    /// Whether `upgrade_locker` upgrades: the character is on the map,
    /// below the upgrade limit, carries the cost in gold, and the npc is
    /// a banker.
    pub open spec fn locker_upgrade_ok(self, player_id: i32, npc_index: i32, settings: Settings, data: GameData) -> bool {
        &&& self.characters@.contains_key(player_id)
        &&& self.characters@[player_id].bank_level < settings.bank.max_upgrades
        &&& amount_of(self.characters@[player_id].items@, 1) >= locker_cost(
            settings.bank,
            self.characters@[player_id].bank_level,
        )
        &&& npc_is(self.npcs@, data.npcs@, npc_index, NpcType::Bank)
    }

    /// Buys the next locker upgrade for the player's character from the
    /// banker at `npc_index`: takes the cost in gold (item 1) and raises
    /// the bank level by one. Returns what the player is told, if the
    /// upgrade happened and a player controls the character.
    pub fn upgrade_locker(&mut self, player_id: i32, npc_index: i32, settings: &Settings, data: &GameData) -> (reply: Option<LockerBuyReply>)
        requires
            old(self).characters@.contains_key(player_id)
                && old(self).characters@[player_id].bank_level < settings.bank.max_upgrades
                ==> {
                &&& i32::MIN <= settings.bank.upgrade_cost_step * old(self).characters@[player_id].bank_level <= i32::MAX
                &&& i32::MIN <= locker_cost(settings.bank, old(self).characters@[player_id].bank_level) <= i32::MAX
            },
            old(self).locker_upgrade_ok(player_id, npc_index, *settings, *data) ==> can_remove(
                old(self).characters@[player_id],
                data.items@,
                1,
                locker_cost(settings.bank, old(self).characters@[player_id].bank_level) as i32,
            ),
        ensures
            final(self).npcs@ == old(self).npcs@,
            !old(self).locker_upgrade_ok(player_id, npc_index, *settings, *data) ==> {
                &&& final(self).characters@ == old(self).characters@
                &&& reply is None
            },
            old(self).locker_upgrade_ok(player_id, npc_index, *settings, *data) ==> {
                let c0 = old(self).characters@[player_id];
                let c1 = final(self).characters@[player_id];
                let cost = locker_cost(settings.bank, c0.bank_level) as i32;
                &&& updated_at(old(self).characters@, final(self).characters@, player_id)
                &&& c1.items@ == removed_items(c0.items@, 1, cost)
                &&& c1.weight == c0.weight - weight_change(data.items@, 1, removed_amount(c0.items@, 1, cost))
                &&& c1.bank_level == c0.bank_level + 1
                &&& c1.gold_bank == c0.gold_bank
                &&& c1 == c0.with_inventory_of(c1).with_bank_of(c1)
                &&& reply == if c0.has_player {
                    Some(LockerBuyReply { gold_amount: amount_of(c1.items@, 1) as i32, locker_upgrades: c1.bank_level })
                } else {
                    None
                }
            },
    {
        let cost: i32 = match self.characters.get(&player_id) {
            None => return None,
            Some(character) => {
                if character.bank_level >= settings.bank.max_upgrades {
                    return None;
                }
                let cost = settings.bank.upgrade_base_cost + settings.bank.upgrade_cost_step * character.bank_level;
                if character.get_item_amount(1) < cost {
                    return None;
                }
                cost
            },
        };
        match self.npc_data(npc_index, &data.npcs) {
            None => return None,
            Some(npc_data) => {
                if npc_data.npc_type != NpcType::Bank {
                    return None;
                }
            },
        }
        let ghost old_characters = self.characters@;
        let mut character = match self.characters.remove(&player_id) {
            Some(c) => c,
            None => return None,
        };
        character.remove_item(1, cost, &data.items);
        character.bank_level = character.bank_level + 1;
        let reply = if character.has_player {
            Some(LockerBuyReply { gold_amount: character.get_item_amount(1), locker_upgrades: character.bank_level })
        } else {
            None
        };
        self.characters.insert(player_id, character);
        proof {
            assert(self.characters@ =~= old_characters.insert(player_id, self.characters@[player_id]));
        }
        reply
    }

    /// Whether `upgrade_locker` may be called: the cost and the weight stay
    /// within `i32` (its `requires`).
    pub fn upgrade_locker_fits(&self, player_id: i32, npc_index: i32, settings: &Settings, data: &GameData) -> (ok: bool)
        ensures
            ok == ({
                &&& self.characters@.contains_key(player_id)
                    && self.characters@[player_id].bank_level < settings.bank.max_upgrades ==> {
                    &&& i32::MIN <= settings.bank.upgrade_cost_step * self.characters@[player_id].bank_level <= i32::MAX
                    &&& i32::MIN <= locker_cost(settings.bank, self.characters@[player_id].bank_level) <= i32::MAX
                }
                &&& self.locker_upgrade_ok(player_id, npc_index, *settings, *data) ==> can_remove(
                    self.characters@[player_id],
                    data.items@,
                    1,
                    locker_cost(settings.bank, self.characters@[player_id].bank_level) as i32,
                )
            }),
    {
        let character = match self.characters.get(&player_id) {
            None => return true,
            Some(c) => c,
        };
        if character.bank_level >= settings.bank.max_upgrades {
            return true;
        }
        proof {
            lemma_i32_product(settings.bank.upgrade_cost_step as int, character.bank_level as int);
        }
        let step: i64 = settings.bank.upgrade_cost_step as i64 * character.bank_level as i64;
        if step < i32::MIN as i64 || step > i32::MAX as i64 {
            return false;
        }
        let cost: i64 = settings.bank.upgrade_base_cost as i64 + step;
        if cost < i32::MIN as i64 || cost > i32::MAX as i64 {
            return false;
        }
        if (character.get_item_amount(1) as i64) < cost {
            return true;
        }
        match self.npc_data(npc_index, &data.npcs) {
            None => true,
            Some(npc_data) => if npc_data.npc_type != NpcType::Bank {
                true
            } else {
                character.removal_fits(1, cost as i32, &data.items)
            },
        }
    }

    /// Whether `junk_item` junks: the request names a real, unprotected
    /// item and a positive amount within the limit, and the character on
    /// the map carries that item.
    pub open spec fn junk_ok(self, player_id: i32, item_id: i32, amount: i32, settings: Settings) -> bool {
        &&& item_id >= 1
        &&& amount > 0
        &&& amount <= settings.limits.max_item
        &&& !settings.items.protected_items@.contains(item_id)
        &&& self.characters@.contains_key(player_id)
        &&& first_match(self.characters@[player_id].items@, item_id) is Some
    }

    /// How many items `junk_item` junks: the amount asked for, or all the
    /// character has if that is less.
    pub open spec fn junk_amount(self, player_id: i32, item_id: i32, amount: i32) -> i32 {
        let c = self.characters@[player_id];
        let held = c.items@[first_match(c.items@, item_id)->0].amount;
        if amount <= held {
            amount
        } else {
            held
        }
    }

    /// Destroys up to `amount` of item `item_id` that the player's
    /// character carries. Returns what the player is told, if the items
    /// were junked and a player controls the character.
    pub fn junk_item(&mut self, player_id: i32, item_id: i32, amount: i32, settings: &Settings, data: &GameData) -> (reply: Option<ItemJunkReply>)
        requires
            old(self).junk_ok(player_id, item_id, amount, *settings) ==> can_remove(
                old(self).characters@[player_id],
                data.items@,
                item_id,
                old(self).junk_amount(player_id, item_id, amount),
            ),
        ensures
            final(self).npcs@ == old(self).npcs@,
            !old(self).junk_ok(player_id, item_id, amount, *settings) ==> {
                &&& final(self).characters@ == old(self).characters@
                &&& reply is None
            },
            old(self).junk_ok(player_id, item_id, amount, *settings) ==> {
                let c0 = old(self).characters@[player_id];
                let c1 = final(self).characters@[player_id];
                let n = old(self).junk_amount(player_id, item_id, amount);
                &&& updated_at(old(self).characters@, final(self).characters@, player_id)
                &&& c1.items@ == removed_items(c0.items@, item_id, n)
                &&& c1.weight == c0.weight - weight_change(data.items@, item_id, removed_amount(c0.items@, item_id, n))
                &&& c1 == c0.with_inventory_of(c1)
                &&& reply == if c0.has_player {
                    Some(ItemJunkReply {
                        junked_item: Item { id: item_id, amount: n },
                        remaining_amount: amount_of(c1.items@, item_id) as i32,
                        weight: c1.weight,
                    })
                } else {
                    None
                }
            },
    {
        if item_id < 1 || amount <= 0 || amount > settings.limits.max_item || contains_id(
            &settings.items.protected_items,
            item_id,
        ) {
            return None;
        }
        let to_junk: i32 = match self.characters.get(&player_id) {
            None => return None,
            Some(character) => match find_item(&character.items, item_id) {
                None => return None,
                Some(i) => {
                    let held = character.items[i].amount;
                    if amount <= held {
                        amount
                    } else {
                        held
                    }
                },
            },
        };
        let ghost old_characters = self.characters@;
        let mut character = match self.characters.remove(&player_id) {
            Some(c) => c,
            None => return None,
        };
        character.remove_item(item_id, to_junk, &data.items);
        let reply = if character.has_player {
            Some(ItemJunkReply {
                junked_item: Item { id: item_id, amount: to_junk },
                remaining_amount: character.get_item_amount(item_id),
                weight: character.get_weight(),
            })
        } else {
            None
        };
        self.characters.insert(player_id, character);
        proof {
            assert(self.characters@ =~= old_characters.insert(player_id, self.characters@[player_id]));
        }
        reply
    }

    /// Whether `junk_item` may be called: the weight stays within `i32`
    /// (its `requires`).
    pub fn junk_item_fits(&self, player_id: i32, item_id: i32, amount: i32, settings: &Settings, data: &GameData) -> (ok: bool)
        ensures
            ok == (self.junk_ok(player_id, item_id, amount, *settings) ==> can_remove(
                self.characters@[player_id],
                data.items@,
                item_id,
                self.junk_amount(player_id, item_id, amount),
            )),
    {
        if item_id < 1 || amount <= 0 || amount > settings.limits.max_item || contains_id(
            &settings.items.protected_items,
            item_id,
        ) {
            return true;
        }
        match self.characters.get(&player_id) {
            None => true,
            Some(character) => match find_item(&character.items, item_id) {
                None => true,
                Some(i) => {
                    let held = character.items[i].amount;
                    let n = if amount <= held {
                        amount
                    } else {
                        held
                    };
                    character.removal_fits(item_id, n, &data.items)
                },
            },
        }
    }

    /// The first inn that the npc at `npc_index` keeps, if it is an innkeeper.
    pub open spec fn inn_at(self, npc_index: i32, data: GameData) -> Option<int> {
        match npc_record_at(self.npcs@, data.npcs@, npc_index) {
            Some(r) => if r.npc_type == NpcType::Inn {
                inn_for(data.inns@, r.behavior_id)
            } else {
                None
            },
            None => None,
        }
    }

    /// Whether `remove_citizenship` answers: a player controls the
    /// character on the map and the npc keeps an inn.
    pub open spec fn citizenship_request_ok(self, player_id: i32, npc_index: i32, data: GameData) -> bool {
        &&& self.characters@.contains_key(player_id)
        &&& self.characters@[player_id].has_player
        &&& self.inn_at(npc_index, data) is Some
    }

    /// Gives up the character's citizenship of the inn kept by the npc at
    /// `npc_index`. A character whose home is that inn's town (and not the
    /// home of new characters) moves back to the new characters' home and
    /// is told `Unsubscribed`; any other is told `NotCitizen`. Returns the
    /// answer, if one is sent.
    pub fn remove_citizenship(&mut self, player_id: i32, npc_index: i32, settings: &Settings, data: &GameData) -> (reply: Option<InnUnsubscribeReply>)
        ensures
            final(self).npcs@ == old(self).npcs@,
            !old(self).citizenship_request_ok(player_id, npc_index, *data) ==> {
                &&& final(self).characters@ == old(self).characters@
                &&& reply is None
            },
            old(self).citizenship_request_ok(player_id, npc_index, *data) ==> {
                let c0 = old(self).characters@[player_id];
                let c1 = final(self).characters@[player_id];
                let inn = data.inns@[old(self).inn_at(npc_index, *data)->0];
                let citizen = is_citizen(c0.home@, inn.name@, settings.new_character.home@);
                &&& updated_at(old(self).characters@, final(self).characters@, player_id)
                &&& c1 == Character { home: c1.home, ..c0 }
                &&& c1.home@ == if citizen {
                    settings.new_character.home@
                } else {
                    c0.home@
                }
                &&& reply == Some(
                    if citizen {
                        InnUnsubscribeReply::Unsubscribed
                    } else {
                        InnUnsubscribeReply::NotCitizen
                    },
                )
            },
    {
        match self.characters.get(&player_id) {
            None => return None,
            Some(character) => {
                if !character.has_player {
                    return None;
                }
            },
        }
        let npc_data = match self.npc_data(npc_index, &data.npcs) {
            None => return None,
            Some(npc_data) => npc_data,
        };
        if npc_data.npc_type != NpcType::Inn {
            return None;
        }
        let inn = match find_inn(&data.inns, npc_data.behavior_id) {
            None => return None,
            Some(i) => &data.inns[i],
        };
        let ghost old_characters = self.characters@;
        let mut character = match self.characters.remove(&player_id) {
            Some(c) => c,
            None => return None,
        };
        let reply = if character.home == settings.new_character.home || character.home != inn.name {
            InnUnsubscribeReply::NotCitizen
        } else {
            character.home = settings.new_character.home.clone();
            InnUnsubscribeReply::Unsubscribed
        };
        self.characters.insert(player_id, character);
        proof {
            assert(self.characters@ =~= old_characters.insert(player_id, self.characters@[player_id]));
        }
        Some(reply)
    }

    /// Whether `reset_character` resets: the character is on the map and
    /// the npc is a trainer.
    pub open spec fn reset_ok(self, player_id: i32, npc_index: i32, data: GameData) -> bool {
        &&& self.characters@.contains_key(player_id)
        &&& npc_is(self.npcs@, data.npcs@, npc_index, NpcType::Trainer)
    }

    /// Resets the character's stats at the trainer at `npc_index` (see
    /// `Character::reset`). Returns the points the player is told about,
    /// if the reset happened and a player controls the character.
    pub fn reset_character(&mut self, player_id: i32, npc_index: i32, settings: &Settings, data: &GameData) -> (reply: Option<StatsResetReply>)
        requires
            old(self).reset_ok(player_id, npc_index, *data) ==> {
                &&& old(self).characters@[player_id].level as int * settings.world.stat_points_per_level as int <= u32::MAX
                &&& old(self).characters@[player_id].level as int * settings.world.skill_points_per_level as int <= u32::MAX
            },
        ensures
            final(self).npcs@ == old(self).npcs@,
            !old(self).reset_ok(player_id, npc_index, *data) ==> {
                &&& final(self).characters@ == old(self).characters@
                &&& reply is None
            },
            old(self).reset_ok(player_id, npc_index, *data) ==> {
                let c0 = old(self).characters@[player_id];
                let c1 = final(self).characters@[player_id];
                &&& updated_at(old(self).characters@, final(self).characters@, player_id)
                &&& c1.is_reset_of(c0, settings.world)
                &&& reply == if c0.has_player {
                    Some(StatsResetReply { stat_points: c1.stat_points, skill_points: c1.skill_points })
                } else {
                    None
                }
            },
    {
        if !self.characters.contains_key(&player_id) {
            return None;
        }
        match self.npc_data(npc_index, &data.npcs) {
            None => return None,
            Some(npc_data) => {
                if npc_data.npc_type != NpcType::Trainer {
                    return None;
                }
            },
        }
        let ghost old_characters = self.characters@;
        let mut character = match self.characters.remove(&player_id) {
            Some(c) => c,
            None => return None,
        };
        character.reset(&settings.world);
        let reply = if character.has_player {
            Some(StatsResetReply { stat_points: character.stat_points, skill_points: character.skill_points })
        } else {
            None
        };
        self.characters.insert(player_id, character);
        proof {
            assert(self.characters@ =~= old_characters.insert(player_id, self.characters@[player_id]));
        }
        reply
    }

    /// Whether `reset_character` may be called: the points stay within
    /// `u32` (its `requires`).
    pub fn reset_character_fits(&self, player_id: i32, npc_index: i32, settings: &Settings, data: &GameData) -> (ok: bool)
        ensures
            ok == (self.reset_ok(player_id, npc_index, *data) ==> {
                &&& self.characters@[player_id].level as int * settings.world.stat_points_per_level as int <= u32::MAX
                &&& self.characters@[player_id].level as int * settings.world.skill_points_per_level as int <= u32::MAX
            }),
    {
        let character = match self.characters.get(&player_id) {
            None => return true,
            Some(c) => c,
        };
        match self.npc_data(npc_index, &data.npcs) {
            None => true,
            Some(npc_data) => if npc_data.npc_type != NpcType::Trainer {
                true
            } else {
                let level = character.level as u64;
                let stat = settings.world.stat_points_per_level as u64;
                let skill = settings.world.skill_points_per_level as u64;
                proof {
                    assert(level * stat <= 0xff * 0xffff_ffff) by (nonlinear_arith)
                        requires
                            level <= 0xff,
                            stat <= 0xffff_ffff,
                    ;
                    assert(level * skill <= 0xff * 0xffff_ffff) by (nonlinear_arith)
                        requires
                            level <= 0xff,
                            skill <= 0xffff_ffff,
                    ;
                }
                level * stat <= u32::MAX as u64 && level * skill <= u32::MAX as u64
            },
        }
    }

    /// Whether `add_trade_item` changes the offer: the item is not
    /// protected, the amount is positive and within the trade limit, the
    /// character carries that many, the offer has room (or already holds
    /// the item), and the item exists and is not a lore item.
    pub open spec fn trade_offer_ok(self, player_id: i32, item: Item, settings: Settings, data: GameData) -> bool {
        &&& item.amount > 0
        &&& item.amount <= settings.limits.max_trade
        &&& !settings.items.protected_items@.contains(item.id)
        &&& self.characters@.contains_key(player_id)
        &&& amount_of(self.characters@[player_id].items@, item.id) >= item.amount
        &&& (first_match(self.characters@[player_id].trade_items@, item.id) is Some
            || self.characters@[player_id].trade_items@.len() < MAX_TRADE_SLOTS)
        &&& match record_for(data.items@, item.id as int) {
            Some(r) => r.special != ItemSpecial::Lore,
            None => false,
        }
    }

    /// Puts `item` in the character's trade offer: the amount of an item
    /// already offered becomes `item.amount`, another item is appended.
    /// Returns the trade update to send, to the player and `partner_id`, if
    /// the offer changed.
    pub fn add_trade_item(&mut self, player_id: i32, partner_id: i32, item: Item, settings: &Settings, data: &GameData) -> (update: Option<(i32, i32)>)
        ensures
            final(self).npcs@ == old(self).npcs@,
            update == if old(self).trade_offer_ok(player_id, item, *settings, *data) {
                Some((player_id, partner_id))
            } else {
                None
            },
            !old(self).trade_offer_ok(player_id, item, *settings, *data) ==> final(self).characters@ == old(self).characters@,
            old(self).trade_offer_ok(player_id, item, *settings, *data) ==> {
                let c0 = old(self).characters@[player_id];
                let c1 = final(self).characters@[player_id];
                &&& updated_at(old(self).characters@, final(self).characters@, player_id)
                &&& c1 == Character { trade_items: c1.trade_items, ..c0 }
                &&& c1.trade_items@ == offered(c0.trade_items@, item)
            },
    {
        if item.amount <= 0 || item.amount > settings.limits.max_trade || contains_id(
            &settings.items.protected_items,
            item.id,
        ) {
            return None;
        }
        let offered: Option<usize> = match self.characters.get(&player_id) {
            None => return None,
            Some(character) => {
                if character.get_item_amount(item.id) < item.amount {
                    return None;
                }
                let offered = find_item(&character.trade_items, item.id);
                if offered.is_none() && character.trade_items.len() >= MAX_TRADE_SLOTS {
                    return None;
                }
                offered
            },
        };
        match item_record(&data.items, item.id) {
            None => return None,
            Some(item_data) => {
                if item_data.special == ItemSpecial::Lore {
                    return None;
                }
            },
        }
        let ghost old_characters = self.characters@;
        let mut character = match self.characters.remove(&player_id) {
            Some(c) => c,
            None => return None,
        };
        match offered {
            Some(i) => {
                character.trade_items.set(i, Item { id: item.id, amount: item.amount });
            },
            None => {
                character.trade_items.push(item);
            },
        }
        self.characters.insert(player_id, character);
        proof {
            assert(self.characters@ =~= old_characters.insert(player_id, self.characters@[player_id]));
        }
        Some((player_id, partner_id))
    }


    /// The trade through which the npc at `npc_index` sells item
    /// `item_id`: the npc keeps a shop, and the shop's first trade for that
    /// item with a price.
    pub open spec fn shop_trade_at(self, npc_index: i32, item_id: i32, data: GameData) -> Option<ShopTrade> {
        match npc_record_at(self.npcs@, data.npcs@, npc_index) {
            Some(r) => if r.npc_type == NpcType::Shop {
                match shop_for(data.shops@, r.behavior_id) {
                    Some(s) => match trade_for(data.shops@[s].trades@, item_id) {
                        Some(t) => Some(data.shops@[s].trades@[t]),
                        None => None,
                    },
                    None => None,
                }
            } else {
                None
            },
            None => None,
        }
    }

    /// The amount and price of a purchase before the gold check: as many
    /// as asked that the character can carry, capped by the trade's
    /// maximum, at the trade's price each.
    pub open spec fn buy_terms(self, player_id: i32, npc_index: i32, item: Item, settings: Settings, data: GameData) -> Option<(int, int)> {
        if item.amount <= 0 || item.amount > settings.limits.max_item || !self.characters@.contains_key(player_id) {
            None
        } else {
            match self.shop_trade_at(npc_index, item.id, data) {
                None => None,
                Some(t) => {
                    let c = self.characters@[player_id];
                    let hold = holdable(data.items@, c.weight as int, c.max_weight as int, item.id, item.amount as int);
                    if hold == 0 {
                        None
                    } else {
                        let amount = if hold <= t.max_amount { hold } else { t.max_amount as int };
                        Some((amount, t.buy_price * amount))
                    }
                },
            }
        }
    }

    /// The amount and price of the purchase `buy_item` makes, if the
    /// character carries the price in gold.
    pub open spec fn buy_plan(self, player_id: i32, npc_index: i32, item: Item, settings: Settings, data: GameData) -> Option<(int, int)> {
        match self.buy_terms(player_id, npc_index, item, settings, data) {
            Some((amount, price)) => if amount_of(self.characters@[player_id].items@, 1) >= price {
                Some((amount, price))
            } else {
                None
            },
            None => None,
        }
    }

    /// Buys `item.amount` of item `item.id` from the shop kept by the npc at
    /// `npc_index`, or as many of them as the character can carry, capped
    /// by the shop's maximum: takes the price in gold (item 1) and adds the
    /// items, with their quest rules. Returns, if the purchase happened,
    /// the reply to the buyer and the quests whose actions are to run.
    pub fn buy_item(&mut self, player_id: i32, npc_index: i32, item: Item, settings: &Settings, data: &GameData) -> (bought: Option<ShopBuy>)
        requires
            old(self).buy_terms(player_id, npc_index, item, *settings, *data) matches Some((a, p))
                ==> i32::MIN <= p <= i32::MAX,
            old(self).buy_plan(player_id, npc_index, item, *settings, *data) matches Some((a, p)) ==> {
                let c = old(self).characters@[player_id];
                &&& can_remove(c, data.items@, 1, p as i32)
                &&& can_add_to(
                    removed_items(c.items@, 1, p as i32),
                    c.weight - weight_change(data.items@, 1, removed_amount(c.items@, 1, p as i32)),
                    data.items@,
                    item.id,
                    a as i32,
                )
                &&& quests_readable(
                    data.quests@,
                    c.quests@,
                    item.id,
                    amount_of(added_items(removed_items(c.items@, 1, p as i32), item.id, a as i32), item.id),
                )
            },
        ensures
            final(self).npcs@ == old(self).npcs@,
            old(self).buy_plan(player_id, npc_index, item, *settings, *data) is None ==> {
                &&& final(self).characters@ == old(self).characters@
                &&& bought is None
            },
            old(self).buy_plan(player_id, npc_index, item, *settings, *data) matches Some((a, p)) ==> {
                let c0 = old(self).characters@[player_id];
                let c1 = final(self).characters@[player_id];
                let paid = removed_items(c0.items@, 1, p as i32);
                let total = amount_of(c1.items@, item.id);
                &&& updated_at(old(self).characters@, final(self).characters@, player_id)
                &&& c1.items@ == added_items(paid, item.id, a as i32)
                &&& c1.weight == c0.weight - weight_change(data.items@, 1, removed_amount(c0.items@, 1, p as i32))
                    + weight_change(data.items@, item.id, a)
                &&& c1.quests@ == progressed_quests(data.quests@, c0.quests@, item.id, total)
                &&& c1 == c0.with_inventory_of(c1).with_quests_of(c1)
                &&& bought matches Some(b) && {
                    &&& b.quests_to_act@ == quests_to_act(data.quests@, c0.quests@, item.id, total)
                    &&& b.reply == if c0.has_player {
                        Some(ShopBuyReply {
                            gold_amount: amount_of(c1.items@, 1) as i32,
                            bought_item: Item { id: item.id, amount: a as i32 },
                            weight: c1.weight,
                        })
                    } else {
                        None
                    }
                }
            },
    {
        if item.amount <= 0 || item.amount > settings.limits.max_item {
            return None;
        }
        if !self.characters.contains_key(&player_id) {
            return None;
        }
        let npc_data = match self.npc_data(npc_index, &data.npcs) {
            None => return None,
            Some(npc_data) => npc_data,
        };
        if npc_data.npc_type != NpcType::Shop {
            return None;
        }
        let shop = match find_shop(&data.shops, npc_data.behavior_id) {
            None => return None,
            Some(s) => &data.shops[s],
        };
        let trade = match find_trade(&shop.trades, item.id) {
            None => return None,
            Some(t) => shop.trades[t],
        };
        let (amount, price): (i32, i32) = match self.characters.get(&player_id) {
            None => return None,
            Some(character) => {
                let amount = character.can_hold(item.id, item.amount, &data.items);
                if amount == 0 {
                    return None;
                }
                let amount = if amount <= trade.max_amount { amount } else { trade.max_amount };
                let price = trade.buy_price * amount;
                if character.get_item_amount(1) < price {
                    return None;
                }
                (amount, price)
            },
        };
        let ghost old_characters = self.characters@;
        let mut character = match self.characters.remove(&player_id) {
            Some(c) => c,
            None => return None,
        };
        character.remove_item(1, price, &data.items);
        let quests = character.add_item(item.id, amount, data);
        let reply = if character.has_player {
            Some(ShopBuyReply {
                gold_amount: character.get_item_amount(1),
                bought_item: Item { id: item.id, amount },
                weight: character.get_weight(),
            })
        } else {
            None
        };
        self.characters.insert(player_id, character);
        proof {
            assert(self.characters@ =~= old_characters.insert(player_id, self.characters@[player_id]));
        }
        Some(ShopBuy { reply, quests_to_act: quests })
    }


    /// Whether `buy_item` may be called: the price and the weights stay
    /// within `i32`, and the quest rules it reaches can be read (its
    /// `requires`).
    pub fn buy_item_fits(&self, player_id: i32, npc_index: i32, item: Item, settings: &Settings, data: &GameData) -> (ok: bool)
        ensures
            ok == ({
                &&& self.buy_terms(player_id, npc_index, item, *settings, *data) matches Some((a, p))
                    ==> i32::MIN <= p <= i32::MAX
                &&& self.buy_plan(player_id, npc_index, item, *settings, *data) matches Some((a, p)) ==> {
                    let c = self.characters@[player_id];
                    &&& can_remove(c, data.items@, 1, p as i32)
                    &&& can_add_to(
                        removed_items(c.items@, 1, p as i32),
                        c.weight - weight_change(data.items@, 1, removed_amount(c.items@, 1, p as i32)),
                        data.items@,
                        item.id,
                        a as i32,
                    )
                    &&& quests_readable(
                        data.quests@,
                        c.quests@,
                        item.id,
                        amount_of(added_items(removed_items(c.items@, 1, p as i32), item.id, a as i32), item.id),
                    )
                }
            }),
    {
        if item.amount <= 0 || item.amount > settings.limits.max_item {
            return true;
        }
        let character = match self.characters.get(&player_id) {
            None => return true,
            Some(c) => c,
        };
        let npc_data = match self.npc_data(npc_index, &data.npcs) {
            None => return true,
            Some(npc_data) => npc_data,
        };
        if npc_data.npc_type != NpcType::Shop {
            return true;
        }
        let shop = match find_shop(&data.shops, npc_data.behavior_id) {
            None => return true,
            Some(s) => &data.shops[s],
        };
        let trade = match find_trade(&shop.trades, item.id) {
            None => return true,
            Some(t) => shop.trades[t],
        };
        let hold = character.can_hold(item.id, item.amount, &data.items);
        if hold == 0 {
            return true;
        }
        let amount = if hold <= trade.max_amount {
            hold
        } else {
            trade.max_amount
        };
        proof {
            lemma_i32_product(trade.buy_price as int, amount as int);
        }
        let price: i64 = trade.buy_price as i64 * amount as i64;
        if price < i32::MIN as i64 || price > i32::MAX as i64 {
            return false;
        }
        let price = price as i32;
        if character.get_item_amount(1) < price {
            return true;
        }
        if !character.removal_fits(1, price, &data.items) {
            return false;
        }
        let paid = removed_copy(&character.items, 1, price);
        let weight = (character.weight as i64 - removal_weight(&character.items, 1, price, &data.items)) as i32;
        if !addition_fits(&paid, weight, &data.items, item.id, amount) {
            return false;
        }
        let total: i32 = match find_item(&paid, item.id) {
            Some(i) => paid[i].amount + amount,
            None => amount,
        };
        proof {
            law_add_counts(paid@, item.id, amount, if item.id == 0 { 1i32 } else { 0i32 });
        }
        character.quests_readable_at(data, item.id, total)
    }

    /// Whether a paperdoll request goes ahead: a player controls the
    /// requesting character, and the target is on the map. When it does,
    /// the target's party membership is looked up and `paperdoll_reply`
    /// answers.
    pub fn request_paperdoll(&self, player_id: i32, target_player_id: i32) -> (go: bool)
        ensures
            go == (self.characters@.contains_key(player_id) && self.characters@[player_id].has_player
                && self.characters@.contains_key(target_player_id)),
    {
        match self.characters.get(&player_id) {
            None => false,
            Some(character) => character.has_player && self.characters.contains_key(&target_player_id),
        }
    }

    /// The paperdoll of the character of `target_player_id`, with the icon
    /// for whether it is in a party.
    pub fn paperdoll_reply(&self, target_player_id: i32, in_party: bool) -> (reply: Option<PaperdollReply>)
        ensures
            reply is Some == self.characters@.contains_key(target_player_id),
            reply matches Some(r) ==> {
                let t = self.characters@[target_player_id];
                &&& r.name@ == t.name@
                &&& r.home@ == t.home@
                &&& r.admin == t.admin_level
                &&& r.partner@ == text_of(t.partner)
                &&& r.title@ == text_of(t.title)
                &&& r.guild@ == text_of(t.guild_name)
                &&& r.guild_rank@ == text_of(t.guild_rank_string)
                &&& r.player_id == target_player_id
                &&& r.class_id == t.class
                &&& r.gender == t.gender
                &&& r.equipment@ == t.equipment@
                &&& r.icon == icon_for(t.admin_level, in_party)
            },
    {
        match self.characters.get(&target_player_id) {
            None => None,
            Some(target) => {
                let equipment = target.equipment.clone();
                proof {
                    assert(equipment@ =~= target.equipment@);
                }
                Some(PaperdollReply {
                    name: target.name.clone(),
                    home: target.home.clone(),
                    admin: target.admin_level,
                    partner: text(&target.partner),
                    title: text(&target.title),
                    guild: text(&target.guild_name),
                    guild_rank: text(&target.guild_rank_string),
                    player_id: target_player_id,
                    class_id: target.class,
                    gender: target.gender,
                    equipment,
                    icon: get_icon(target.admin_level, in_party),
                })
            },
        }
    }

}

} // verus!
