//! Depositing gold at a banker. The player's trading status, session id
//! and the npc it talks to are held by the player's connection, so the
//! deposit is a small state machine: it asks for each in turn and decides
//! on each answer.
use crate::character::{
    amount_of, can_remove, check_items_nonnegative, items_nonnegative, lemma_nonnegative_amounts, removed_amount,
    removed_items, weight_change, Character,
};
use crate::codec::{encode_number, eo_number_bytes, MAX4};
use crate::data::{GameData, Settings};
use crate::map::{updated_at, GameMap};
use vstd::prelude::*;

verus! {

broadcast use vstd::std_specs::hash::group_hash_axioms;

/// Where a deposit stands.
#[derive(Clone, Copy, Debug, PartialEq, Eq, Structural)]
pub enum DepositStage {
    /// Waiting to hear whether the player is trading.
    AwaitTrading,
    /// Waiting for the player's session id.
    AwaitSessionId,
    /// Waiting for the index of the npc the player talks to; the amount
    /// to move is settled.
    AwaitInteractNpc { amount: i32 },
    /// Nothing more to do.
    Finished,
}

/// An answer from the player's connection.
#[derive(Clone, Copy, Debug, PartialEq, Eq, Structural)]
pub enum DepositEvent {
    Trading(bool),
    SessionId(Option<i32>),
    InteractNpc(Option<i32>),
}

/// What the deposit asks for next, or how it ends.
#[derive(Debug)]
pub enum DepositAction {
    AskTrading,
    AskSessionId,
    AskInteractNpc,
    /// The deposit is done: send the bank reply (gold carried, then gold
    /// banked, as EO ints) to the player.
    Reply(Vec<u8>),
    /// The deposit ends without a change.
    Stop,
}

/// A deposit of gold in progress.
#[derive(Clone, Copy, Debug, PartialEq, Eq, Structural)]
pub struct DepositGold {
    pub player_id: i32,
    pub session_id: i32,
    pub amount: u32,
    pub stage: DepositStage,
}

/// The smaller of two integers.
pub open spec fn min_int(a: int, b: int) -> int {
    if a <= b {
        a
    } else {
        b
    }
}

/// The gold a deposit moves, given the gold carried (`held`) and banked
/// (`bank`): the requested amount, or the gold carried if less; then
/// capped by the room left under the bank limit. 0 means no deposit.
pub open spec fn deposit_amount(held: int, bank: int, max_bank: int, requested: int) -> int {
    let a = min_int(held, requested);
    if a == 0 {
        0
    } else {
        min_int(max_bank - bank, a)
    }
}

/// The bank reply: gold carried and gold banked, each as a four-byte EO
/// number.
pub open spec fn bank_reply_bytes(held: int, bank: int) -> Seq<u8> {
    eo_number_bytes(held) + eo_number_bytes(bank)
}

impl GameMap {
    /// Starts a deposit of `amount` gold for the player's character, made
    /// with session id `session_id`. It goes on (asking whether the player
    /// is trading) only if a player controls the character on the map.
    pub fn deposit_gold(&self, player_id: i32, session_id: i32, amount: u32) -> (r: (DepositGold, DepositAction))
        ensures
            r.0.player_id == player_id,
            r.0.session_id == session_id,
            r.0.amount == amount,
            (self.characters@.contains_key(player_id) && self.characters@[player_id].has_player) ==> {
                &&& r.0.stage == DepositStage::AwaitTrading
                &&& r.1 is AskTrading
            },
            !(self.characters@.contains_key(player_id) && self.characters@[player_id].has_player) ==> {
                &&& r.0.stage == DepositStage::Finished
                &&& r.1 is Stop
            },
    {
        let go = match self.characters.get(&player_id) {
            Some(character) => character.has_player,
            None => false,
        };
        if go {
            (DepositGold { player_id, session_id, amount, stage: DepositStage::AwaitTrading }, DepositAction::AskTrading)
        } else {
            (DepositGold { player_id, session_id, amount, stage: DepositStage::Finished }, DepositAction::Stop)
        }
    }
}

impl DepositGold {
    /// The amount this deposit moves from `c`.
    pub open spec fn amount_for(self, c: Character, settings: Settings) -> int {
        deposit_amount(amount_of(c.items@, 1), c.gold_bank as int, settings.limits.max_bank_gold as int, self.amount as int)
    }

    /// Whether the answers given make the deposit go ahead at the
    /// session-id stage: a session id that matches, and gold to move.
    pub open spec fn session_ok(self, map: GameMap, actual: Option<i32>, settings: Settings) -> bool {
        &&& map.characters@.contains_key(self.player_id)
        &&& actual == Some(self.session_id)
        &&& self.amount_for(map.characters@[self.player_id], settings) != 0
    }

    /// Whether `step` may be called with `event`: the banked gold and the
    /// weight stay within `i32` (its `requires`).
    pub fn step_fits(&self, map: &GameMap, event: DepositEvent, settings: &Settings, data: &GameData) -> (ok: bool)
        ensures
            ok == ({
                &&& self.stage == DepositStage::AwaitSessionId && map.characters@.contains_key(self.player_id)
                    && event == DepositEvent::SessionId(Some(self.session_id))
                    && min_int(amount_of(map.characters@[self.player_id].items@, 1), self.amount as int) != 0
                    ==> map.characters@[self.player_id].gold_bank <= settings.limits.max_bank_gold
                &&& self.stage matches DepositStage::AwaitInteractNpc { amount } ==> map.characters@.contains_key(self.player_id) && {
                    let c = map.characters@[self.player_id];
                    &&& amount > 0
                    &&& can_remove(c, data.items@, 1, amount)
                    &&& 0 <= c.gold_bank
                    &&& c.gold_bank + amount <= settings.limits.max_bank_gold
                    &&& amount <= amount_of(c.items@, 1)
                    &&& items_nonnegative(c.items@)
                }
            }),
    {
        match self.stage {
            DepositStage::AwaitSessionId => match (event, map.characters.get(&self.player_id)) {
                (DepositEvent::SessionId(Some(actual)), Some(character)) => {
                    if actual != self.session_id {
                        return true;
                    }
                    let held = character.get_item_amount(1) as i64;
                    let a: i64 = if held <= self.amount as i64 {
                        held
                    } else {
                        self.amount as i64
                    };
                    a == 0 || character.gold_bank <= settings.limits.max_bank_gold
                },
                _ => true,
            },
            DepositStage::AwaitInteractNpc { amount } => match map.characters.get(&self.player_id) {
                None => false,
                Some(character) => {
                    amount > 0 && character.removal_fits(1, amount, &data.items) && 0 <= character.gold_bank
                        && character.gold_bank as i64 + amount as i64 <= settings.limits.max_bank_gold as i64
                        && amount <= character.get_item_amount(1) && check_items_nonnegative(&character.items)
                },
            },
            _ => true,
        }
    }

    /// Takes the next answer from the player's connection.
    /// - Trading: a trading player deposits nothing; otherwise ask for the
    ///   session id.
    /// - Session id: it must be known and match; the amount must not come
    ///   to 0 (see `deposit_amount`); otherwise ask for the npc.
    /// - Npc: the player must talk to an npc of the map; then the gold
    ///   moves from the inventory to the bank and the reply is sent.
    /// An answer that does not fit the stage ends the deposit.
    pub fn step(&mut self, map: &mut GameMap, event: DepositEvent, settings: &Settings, data: &GameData) -> (action: DepositAction)
        requires
            old(self).stage == DepositStage::AwaitSessionId && old(map).characters@.contains_key(old(self).player_id)
                && event == DepositEvent::SessionId(Some(old(self).session_id))
                && min_int(amount_of(old(map).characters@[old(self).player_id].items@, 1), old(self).amount as int) != 0
                ==> old(map).characters@[old(self).player_id].gold_bank <= settings.limits.max_bank_gold,
            old(self).stage matches DepositStage::AwaitInteractNpc { amount } ==> old(map).characters@.contains_key(old(self).player_id) && {
                let c = old(map).characters@[old(self).player_id];
                &&& amount > 0
                &&& can_remove(c, data.items@, 1, amount)
                &&& 0 <= c.gold_bank
                &&& c.gold_bank + amount <= settings.limits.max_bank_gold
                &&& amount <= amount_of(c.items@, 1)
                &&& items_nonnegative(c.items@)
            },
        ensures
            final(self).player_id == old(self).player_id,
            final(self).session_id == old(self).session_id,
            final(self).amount == old(self).amount,
            final(map).npcs@ == old(map).npcs@,
            !(old(self).stage matches DepositStage::AwaitInteractNpc { .. }) ==> final(map).characters@ == old(map).characters@,
            match (old(self).stage, event) {
                (DepositStage::AwaitTrading, DepositEvent::Trading(false)) => {
                    &&& final(self).stage == DepositStage::AwaitSessionId
                    &&& action is AskSessionId
                },
                (DepositStage::AwaitSessionId, DepositEvent::SessionId(actual)) => if old(self).session_ok(*old(map), actual, *settings) {
                    &&& final(self).stage == DepositStage::AwaitInteractNpc {
                        amount: old(self).amount_for(old(map).characters@[old(self).player_id], *settings) as i32,
                    }
                    &&& action is AskInteractNpc
                } else {
                    &&& final(self).stage == DepositStage::Finished
                    &&& action is Stop
                },
                (DepositStage::AwaitInteractNpc { amount }, DepositEvent::InteractNpc(npc)) => if npc matches Some(i) && old(map).npcs@.contains_key(i) {
                    let c0 = old(map).characters@[old(self).player_id];
                    let c1 = final(map).characters@[old(self).player_id];
                    &&& final(self).stage == DepositStage::Finished
                    &&& updated_at(old(map).characters@, final(map).characters@, old(self).player_id)
                    &&& c1.items@ == removed_items(c0.items@, 1, amount)
                    &&& c1.weight == c0.weight - weight_change(data.items@, 1, removed_amount(c0.items@, 1, amount))
                    &&& c1.gold_bank == c0.gold_bank + amount
                    &&& c1 == c0.with_inventory_of(c1).with_bank_of(c1)
                    &&& action matches DepositAction::Reply(bytes) && bytes@ == bank_reply_bytes(
                        amount_of(c1.items@, 1),
                        c1.gold_bank as int,
                    )
                } else {
                    &&& final(self).stage == DepositStage::Finished
                    &&& final(map).characters@ == old(map).characters@
                    &&& action is Stop
                },
                _ => {
                    &&& final(self).stage == DepositStage::Finished
                    &&& final(map).characters@ == old(map).characters@
                    &&& action is Stop
                },
            },
    {
        match (self.stage, event) {
            (DepositStage::AwaitTrading, DepositEvent::Trading(trading)) => {
                if trading {
                    self.stage = DepositStage::Finished;
                    DepositAction::Stop
                } else {
                    self.stage = DepositStage::AwaitSessionId;
                    DepositAction::AskSessionId
                }
            },
            (DepositStage::AwaitSessionId, DepositEvent::SessionId(actual)) => {
                let amount: i32 = match (actual, map.characters.get(&self.player_id)) {
                    (Some(actual), Some(character)) => {
                        if actual != self.session_id {
                            0
                        } else {
                            let held = character.get_item_amount(1) as i64;
                            let a: i64 = if held <= self.amount as i64 { held } else { self.amount as i64 };
                            if a == 0 {
                                0
                            } else {
                                let room: i64 = settings.limits.max_bank_gold as i64 - character.gold_bank as i64;
                                if room <= a { room as i32 } else { a as i32 }
                            }
                        }
                    },
                    _ => 0,
                };
                if amount == 0 {
                    self.stage = DepositStage::Finished;
                    DepositAction::Stop
                } else {
                    self.stage = DepositStage::AwaitInteractNpc { amount };
                    DepositAction::AskInteractNpc
                }
            },
            (DepositStage::AwaitInteractNpc { amount }, DepositEvent::InteractNpc(npc)) => {
                self.stage = DepositStage::Finished;
                let found = match npc {
                    Some(index) => map.npcs.contains_key(&index),
                    None => false,
                };
                if !found {
                    return DepositAction::Stop;
                }
                let ghost old_characters = map.characters@;
                let mut character = match map.characters.remove(&self.player_id) {
                    Some(c) => c,
                    None => return DepositAction::Stop,
                };
                proof {
                    lemma_nonnegative_amounts(character.items@, 1, amount);
                }
                character.remove_item(1, amount, &data.items);
                character.gold_bank = character.gold_bank + amount;
                let held = character.get_item_amount(1);
                let bank = character.gold_bank;
                map.characters.insert(self.player_id, character);
                proof {
                    assert(map.characters@ =~= old_characters.insert(self.player_id, map.characters@[self.player_id]));
                }
                let mut bytes: Vec<u8> = Vec::new();
                let held_bytes = encode_number(held as u32);
                let bank_bytes = encode_number(bank as u32);
                let mut k: usize = 0;
                while k < 4
                    invariant
                        k <= 4,
                        bytes@ == held_bytes@.subrange(0, k as int),
                    decreases 4 - k,
                {
                    bytes.push(held_bytes[k]);
                    k = k + 1;
                }
                k = 0;
                while k < 4
                    invariant
                        k <= 4,
                        bytes@ == held_bytes@ + bank_bytes@.subrange(0, k as int),
                    decreases 4 - k,
                {
                    bytes.push(bank_bytes[k]);
                    k = k + 1;
                }
                DepositAction::Reply(bytes)
            },
            _ => {
                self.stage = DepositStage::Finished;
                DepositAction::Stop
            },
        }
    }
}

} // verus!
