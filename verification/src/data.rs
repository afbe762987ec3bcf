//! The server's settings and the game data it loads: item, npc, shop and
//! inn records, and the quests.
use std::collections::HashMap;
use vstd::prelude::*;

verus! {

/// An item and how many of it: in an inventory, a trade or a request.
#[derive(Clone, Copy, Debug, PartialEq, Eq, Structural)]
pub struct Item {
    pub id: i32,
    pub amount: i32,
}

/// What makes an item special.
#[derive(Clone, Copy, Debug, PartialEq, Eq, Structural)]
pub enum ItemSpecial {
    Normal,
    Rare,
    Legendary,
    Unique,
    Lore,
    Cursed,
}

/// One record of the item database.
#[derive(Clone, Copy, Debug, PartialEq, Eq, Structural)]
pub struct ItemRecord {
    pub weight: i32,
    pub special: ItemSpecial,
}

/// What an npc does.
#[derive(Clone, Copy, Debug, PartialEq, Eq, Structural)]
pub enum NpcType {
    Friendly,
    Passive,
    Aggressive,
    Reserved3,
    Reserved4,
    Reserved5,
    Shop,
    Inn,
    Reserved8,
    Bank,
    Barber,
    Guild,
    Priest,
    Lawyer,
    Trainer,
    Quest,
}

/// One record of the npc database.
#[derive(Clone, Copy, Debug, PartialEq, Eq, Structural)]
pub struct NpcRecord {
    pub npc_type: NpcType,
    pub behavior_id: i32,
}

/// An item that a shop sells.
#[derive(Clone, Copy, Debug, PartialEq, Eq, Structural)]
pub struct ShopTrade {
    pub item_id: i32,
    pub buy_price: i32,
    pub max_amount: i32,
}

/// A shop, found by the behavior id of its npc.
#[derive(Debug)]
pub struct Shop {
    pub behavior_id: i32,
    pub trades: Vec<ShopTrade>,
}

/// An inn, found by the behavior id of its npc.
#[derive(Debug)]
pub struct Inn {
    pub behavior_id: i32,
    pub name: String,
}

/// An argument of a quest rule.
#[derive(Debug)]
pub enum QuestArg {
    Int(i32),
    Str(String),
}

/// A rule of a quest state: when it holds, the quest moves to `goto`.
#[derive(Debug)]
pub struct QuestRule {
    pub name: String,
    pub args: Vec<QuestArg>,
    pub goto: String,
}

/// A state of a quest.
#[derive(Debug)]
pub struct QuestState {
    pub name: String,
    pub rules: Vec<QuestRule>,
}

/// A quest: its states in file order.
#[derive(Debug)]
pub struct Quest {
    pub states: Vec<QuestState>,
}

/// The game data that the logic reads.
pub struct GameData {
    pub items: Vec<ItemRecord>,
    pub npcs: Vec<NpcRecord>,
    pub shops: Vec<Shop>,
    pub inns: Vec<Inn>,
    pub quests: HashMap<i32, Quest>,
}

/// Limits on amounts.
#[derive(Debug)]
pub struct LimitSettings {
    pub max_item: i32,
    pub max_trade: i32,
    pub max_bank_gold: i32,
}

/// Item settings.
#[derive(Debug)]
pub struct ItemSettings {
    pub protected_items: Vec<i32>,
}

/// Bank locker upgrades.
#[derive(Debug)]
pub struct BankSettings {
    pub max_upgrades: i32,
    pub upgrade_base_cost: i32,
    pub upgrade_cost_step: i32,
}

/// What a new character starts with.
#[derive(Debug)]
pub struct NewCharacterSettings {
    pub home: String,
}

/// Points a character earns per level.
#[derive(Debug)]
pub struct WorldSettings {
    pub stat_points_per_level: u32,
    pub skill_points_per_level: u32,
}

/// Connection settings.
#[derive(Debug)]
pub struct ServerSettings {
    pub enforce_sequence: bool,
    pub max_players: i32,
    pub max_login_attempts: i32,
}

/// Account recovery settings.
#[derive(Debug)]
pub struct AccountSettings {
    pub recovery: bool,
    pub recovery_show_email: bool,
    pub recovery_mask_email: bool,
}

/// The server's settings.
#[derive(Debug)]
pub struct Settings {
    pub limits: LimitSettings,
    pub items: ItemSettings,
    pub bank: BankSettings,
    pub new_character: NewCharacterSettings,
    pub world: WorldSettings,
    pub server: ServerSettings,
    pub account: AccountSettings,
}

/// The record that a database of records keyed from 1 holds for `id`.
pub open spec fn record_for<T>(db: Seq<T>, id: int) -> Option<T> {
    if 1 <= id && id - 1 < db.len() {
        Some(db[id - 1])
    } else {
        None
    }
}

/// The item record for `item_id`; ids start at 1.
pub fn item_record(db: &Vec<ItemRecord>, item_id: i32) -> (r: Option<ItemRecord>)
    ensures
        r == record_for(db@, item_id as int),
{
    if item_id >= 1 && ((item_id - 1) as usize) < db.len() {
        Some(db[(item_id - 1) as usize])
    } else {
        None
    }
}

/// The npc record for `npc_id`; ids start at 1.
pub fn npc_record(db: &Vec<NpcRecord>, npc_id: i32) -> (r: Option<NpcRecord>)
    ensures
        r == record_for(db@, npc_id as int),
{
    if npc_id >= 1 && ((npc_id - 1) as usize) < db.len() {
        Some(db[(npc_id - 1) as usize])
    } else {
        None
    }
}

/// Whether `v` holds `x`.
pub fn contains_id(v: &Vec<i32>, x: i32) -> (r: bool)
    ensures
        r == v@.contains(x),
{
    let mut i: usize = 0;
    while i < v.len()
        invariant
            i <= v.len(),
            forall|j: int| 0 <= j < i ==> v@[j] != x,
        decreases v.len() - i,
    {
        if v[i] == x {
            assert(v@[i as int] == x);
            return true;
        }
        i = i + 1;
    }
    false
}

} // verus!
