//! A character: its inventory, quests, stats and guild membership, and the
//! operations on them.
use crate::data::{
    record_for, item_record, GameData, WorldSettings, Item, ItemRecord, Quest, QuestArg, QuestRule, QuestState,
};
use std::collections::HashMap;
use vstd::prelude::*;

verus! {

/// How far a character has come in a quest: the index of its state.
#[derive(Clone, Copy, Debug, PartialEq, Eq, Structural)]
pub struct QuestProgress {
    pub id: i32,
    pub state: i32,
}

/// A spell that a character has learned.
#[derive(Clone, Copy, Debug, PartialEq, Eq, Structural)]
pub struct Spell {
    pub id: i32,
    pub level: i32,
}

/// A character in the world.
#[derive(Clone, Debug)]
pub struct Character {
    pub name: String,
    pub home: String,
    pub title: Option<String>,
    pub partner: Option<String>,
    pub guild_tag: Option<String>,
    pub guild_name: Option<String>,
    pub guild_rank_string: Option<String>,
    pub guild_rank: Option<i32>,
    pub admin_level: i32,
    pub class: i32,
    pub gender: i32,
    pub equipment: Vec<i32>,
    pub level: u8,
    pub base_strength: i32,
    pub base_intelligence: i32,
    pub base_wisdom: i32,
    pub base_agility: i32,
    pub base_constitution: i32,
    pub base_charisma: i32,
    pub stat_points: u16,
    pub skill_points: u16,
    pub spells: Vec<Spell>,
    pub items: Vec<Item>,
    pub trade_items: Vec<Item>,
    pub weight: i32,
    pub max_weight: i32,
    pub bank_level: i32,
    pub gold_bank: i32,
    pub quests: Vec<QuestProgress>,
    /// Whether a connected player controls the character.
    pub has_player: bool,
}

/// `i` is the first position in `items` of an item with id `id`.
pub open spec fn is_first(items: Seq<Item>, id: i32, i: int) -> bool {
    &&& 0 <= i < items.len()
    &&& items[i].id == id
    &&& forall|j: int| 0 <= j < i ==> items[j].id != id
}

/// The first position of an item with id `id`, if there is one.
pub open spec fn first_match(items: Seq<Item>, id: i32) -> Option<int> {
    if exists|i: int| is_first(items, id, i) {
        Some(choose|i: int| is_first(items, id, i))
    } else {
        None
    }
}

/// How many of item `id` the list holds: the amount of its first entry,
/// or 0.
pub open spec fn amount_of(items: Seq<Item>, id: i32) -> int {
    match first_match(items, id) {
        Some(i) => items[i].amount as int,
        None => 0,
    }
}

/// The first entry is the only first entry.
pub proof fn lemma_first_match(items: Seq<Item>, id: i32, i: int)
    requires
        is_first(items, id, i),
    ensures
        first_match(items, id) == Some(i),
{
    let k = choose|k: int| is_first(items, id, k);
    assert(is_first(items, id, k));
    if k < i {
        assert(items[k].id != id);
    } else if i < k {
        assert(items[i].id != id);
    }
}

/// A list without item `id` has no first entry for it.
pub proof fn lemma_no_match(items: Seq<Item>, id: i32)
    requires
        forall|j: int| 0 <= j < items.len() ==> items[j].id != id,
    ensures
        first_match(items, id) == None::<int>,
{
}

/// The first position of item `id` in `items`.
pub fn find_item(items: &Vec<Item>, id: i32) -> (r: Option<usize>)
    ensures
        match r {
            Some(i) => first_match(items@, id) == Some(i as int),
            None => first_match(items@, id) == None::<int>,
        },
{
    let mut i: usize = 0;
    while i < items.len()
        invariant
            i <= items.len(),
            forall|j: int| 0 <= j < i ==> items@[j].id != id,
        decreases items.len() - i,
    {
        if items[i].id == id {
            proof {
                lemma_first_match(items@, id, i as int);
            }
            return Some(i);
        }
        i = i + 1;
    }
    proof {
        lemma_no_match(items@, id);
    }
    None
}

/// The list after adding `amount` of item `id`: the first entry grows, or
/// a new entry is appended.
pub open spec fn added_items(items: Seq<Item>, id: i32, amount: i32) -> Seq<Item> {
    match first_match(items, id) {
        Some(i) => items.update(i, Item { id, amount: (items[i].amount + amount) as i32 }),
        None => items.push(Item { id, amount }),
    }
}

/// Whether adding `amount` of item `id` to `items` keeps the amount in range.
pub open spec fn can_add_amount(items: Seq<Item>, id: i32, amount: i32) -> bool {
    match first_match(items, id) {
        Some(i) => i32::MIN <= items[i].amount + amount <= i32::MAX,
        None => true,
    }
}

/// The weight change of `amount` of item `id`: its record's weight times
/// the amount, or nothing without a record.
pub open spec fn weight_change(db: Seq<ItemRecord>, id: i32, amount: int) -> int {
    match record_for(db, id as int) {
        Some(r) => r.weight * amount,
        None => 0,
    }
}

/// The list after taking `amount` of item `id`: the first entry shrinks,
/// or goes when no more than `amount` is left.
pub open spec fn removed_items(items: Seq<Item>, id: i32, amount: i32) -> Seq<Item> {
    match first_match(items, id) {
        Some(i) => if items[i].amount <= amount {
            items.remove(i)
        } else {
            items.update(i, Item { id, amount: (items[i].amount - amount) as i32 })
        },
        None => items,
    }
}

/// How many of item `id` a removal of `amount` takes.
pub open spec fn removed_amount(items: Seq<Item>, id: i32, amount: i32) -> int {
    match first_match(items, id) {
        Some(i) => if items[i].amount <= amount {
            items[i].amount as int
        } else {
            amount as int
        },
        None => 0,
    }
}

/// How many of `amount` of item `id` fit under the weight limit.
pub open spec fn holdable(db: Seq<ItemRecord>, weight: int, max_weight: int, id: i32, amount: int) -> int {
    match record_for(db, id as int) {
        None => 0,
        Some(r) => if r.weight <= 0 {
            amount
        } else if max_weight - weight <= 0 {
            0
        } else if (max_weight - weight) / (r.weight as int) < amount {
            (max_weight - weight) / (r.weight as int)
        } else {
            amount
        },
    }
}


/// The name of the rule that fires on holding enough of an item.
fn got_items_name() -> (name: String)
    ensures
        name@ == "GotItems"@,
{
    String::from_str("GotItems")
}

/// A rule that fires on holding enough of item `item_id`: a "GotItems"
/// rule whose first argument is that item id.
pub open spec fn is_got_items_rule(rule: QuestRule, item_id: i32) -> bool {
    &&& rule.name@ == "GotItems"@
    &&& rule.args@[0] == QuestArg::Int(item_id)
}

/// `i` is the first rule of `rules` that fires on item `item_id`.
pub open spec fn is_first_rule(rules: Seq<QuestRule>, item_id: i32, i: int) -> bool {
    &&& 0 <= i < rules.len()
    &&& is_got_items_rule(rules[i], item_id)
    &&& forall|j: int| 0 <= j < i ==> !is_got_items_rule(#[trigger] rules[j], item_id)
}

/// The first rule of `rules` that fires on item `item_id`.
pub open spec fn first_rule(rules: Seq<QuestRule>, item_id: i32) -> Option<int> {
    if exists|i: int| is_first_rule(rules, item_id, i) {
        Some(choose|i: int| is_first_rule(rules, item_id, i))
    } else {
        None
    }
}

/// `i` is the first state of `states` named `name`.
pub open spec fn is_first_state(states: Seq<QuestState>, name: Seq<char>, i: int) -> bool {
    &&& 0 <= i < states.len()
    &&& states[i].name@ == name
    &&& forall|j: int| 0 <= j < i ==> #[trigger] states[j].name@ != name
}

/// The first state of `states` named `name`.
pub open spec fn first_state(states: Seq<QuestState>, name: Seq<char>) -> Option<int> {
    if exists|i: int| is_first_state(states, name, i) {
        Some(choose|i: int| is_first_state(states, name, i))
    } else {
        None
    }
}

/// Whether the rules of a quest state can be read for item `item_id` as
/// they are scanned in order: each "GotItems" rule reached before the
/// first that fires on the item carries an item id, and that first rule
/// also an amount.
pub open spec fn rules_readable(rules: Seq<QuestRule>, item_id: i32) -> bool {
    &&& forall|j: int|
        0 <= j < rules.len() && #[trigger] rules[j].name@ == "GotItems"@ && (forall|k: int|
            0 <= k < j ==> !is_got_items_rule(#[trigger] rules[k], item_id)) ==> rules[j].args@.len() >= 1
    &&& forall|j: int| #[trigger] is_first_rule(rules, item_id, j) ==> rules[j].args@.len() >= 2
}

/// Whether the rules of the current state of progress `p` can be read for
/// item `item_id` (a progress without a known quest state reads none).
pub open spec fn progress_readable(db: Map<i32, Quest>, p: QuestProgress, item_id: i32) -> bool {
    db.contains_key(p.id) && 0 <= p.state < db[p.id].states@.len() ==> rules_readable(
        db[p.id].states@[p.state as int].rules@,
        item_id,
    )
}

/// Whether moving quests on after the character comes to hold `total` of
/// item `item_id` reads every rule it reaches in bounds: each progress
/// looked at before the update stops can be read.
pub open spec fn quests_readable(db: Map<i32, Quest>, ps: Seq<QuestProgress>, item_id: i32, total: int) -> bool {
    forall|j: int| 0 <= j < ps.len() && !quest_run(db, ps, item_id, total, j as nat).2 ==> progress_readable(
        db,
        #[trigger] ps[j],
        item_id,
    )
}

/// Whether no quest has more states than an `i32` can count.
pub open spec fn quest_states_fit(db: Map<i32, Quest>) -> bool {
    forall|id: i32| #[trigger] db.contains_key(id) ==> db[id].states@.len() <= i32::MAX
}

/// The quests of `list` keyed by id, a later quest replacing an earlier
/// one of the same id.
pub open spec fn quest_map(list: Seq<(i32, Quest)>) -> Map<i32, Quest>
    decreases list.len(),
{
    if list.len() == 0 {
        Map::empty()
    } else {
        quest_map(list.drop_last()).insert(list.last().0, list.last().1)
    }
}

/// The quest database of `quests`, keyed by quest id.
pub fn quest_db(quests: Vec<(i32, Quest)>) -> (db: HashMap<i32, Quest>)
    ensures
        db@ == quest_map(quests@),
{
    broadcast use vstd::std_specs::hash::group_hash_axioms;

    let ghost all = quests@;
    let n: usize = quests.len();
    let mut rest = quests;
    let mut m: HashMap<i32, Quest> = HashMap::new();
    let mut k: usize = 0;
    while rest.len() > 0
        invariant
            k <= all.len(),
            all.len() == n,
            rest@ == all.subrange(k as int, all.len() as int),
            m@ == quest_map(all.subrange(0, k as int)),
        decreases rest.len(),
    {
        assert(rest@.len() == all.len() - k);
        let (id, quest) = rest.remove(0);
        proof {
            assert(all[k as int] == (id, quest));
            assert(all.subrange(0, k as int + 1).drop_last() =~= all.subrange(0, k as int));
        }
        m.insert(id, quest);
        k = k + 1;
        proof {
            assert(rest@ =~= all.subrange(k as int, all.len() as int));
        }
    }
    proof {
        assert(all.subrange(0, k as int) =~= all);
    }
    m
}

/// What a quest's progress does when the character holds `total` of
/// item `item_id`.
pub enum QuestStep {
    /// Nothing to do for this quest.
    Skip,
    /// The quest moves to this state.
    Advance(int),
    /// The rule names a state that the quest lacks: the whole update stops.
    Abort,
}

/// The step of one quest's progress: its current state's first rule that
/// fires on `item_id`, if the character holds at least the rule's amount,
/// moves the quest to the first state named by the rule.
pub open spec fn quest_step(db: Map<i32, Quest>, p: QuestProgress, item_id: i32, total: int) -> QuestStep {
    if !db.contains_key(p.id) {
        QuestStep::Skip
    } else if !(0 <= p.state < db[p.id].states@.len()) {
        QuestStep::Skip
    } else {
        let quest = db[p.id];
        let state = quest.states@[p.state as int];
        match first_rule(state.rules@, item_id) {
            None => QuestStep::Skip,
            Some(r) => {
                let rule = state.rules@[r];
                match rule.args@[1] {
                    QuestArg::Int(required) => if total >= required {
                        match first_state(quest.states@, rule.goto@) {
                            Some(n) => QuestStep::Advance(n),
                            None => QuestStep::Abort,
                        }
                    } else {
                        QuestStep::Skip
                    },
                    QuestArg::Str(_) => QuestStep::Skip,
                }
            },
        }
    }
}

/// The quest progress after looking at the first `n` entries of `ps` in
/// order, the ids of the quests that moved, and whether an entry stopped
/// the update.
pub open spec fn quest_run(db: Map<i32, Quest>, ps: Seq<QuestProgress>, item_id: i32, total: int, n: nat) -> (
    Seq<QuestProgress>,
    Seq<i32>,
    bool,
)
    decreases n,
{
    if n == 0 {
        (ps, Seq::empty(), false)
    } else {
        let prev = quest_run(db, ps, item_id, total, (n - 1) as nat);
        if prev.2 {
            prev
        } else {
            let p = ps[n - 1];
            match quest_step(db, p, item_id, total) {
                QuestStep::Skip => prev,
                QuestStep::Advance(s) => (
                    prev.0.update(n - 1, QuestProgress { id: p.id, state: s as i32 }),
                    prev.1.push(p.id),
                    false,
                ),
                QuestStep::Abort => (prev.0, prev.1, true),
            }
        }
    }
}

/// The quest progress after the character comes to hold `total` of item
/// `item_id`.
pub open spec fn progressed_quests(db: Map<i32, Quest>, ps: Seq<QuestProgress>, item_id: i32, total: int) -> Seq<QuestProgress> {
    quest_run(db, ps, item_id, total, ps.len()).0
}

/// The quests whose actions run afterwards: those that moved, in order,
/// or none when the update stopped.
pub open spec fn quests_to_act(db: Map<i32, Quest>, ps: Seq<QuestProgress>, item_id: i32, total: int) -> Seq<i32> {
    let run = quest_run(db, ps, item_id, total, ps.len());
    if run.2 {
        Seq::empty()
    } else {
        run.1
    }
}


/// Once an entry has stopped the update, later entries change nothing.
pub proof fn lemma_run_stays_stopped(
    db: Map<i32, Quest>,
    ps: Seq<QuestProgress>,
    item_id: i32,
    total: int,
    m: nat,
    n: nat,
)
    requires
        m <= n,
        quest_run(db, ps, item_id, total, m).2,
    ensures
        quest_run(db, ps, item_id, total, n) == quest_run(db, ps, item_id, total, m),
    decreases n - m,
{
    if m < n {
        lemma_run_stays_stopped(db, ps, item_id, total, m, (n - 1) as nat);
    }
}


/// The first state named `name` is one of the quest's states.
proof fn lemma_first_state_in_range(states: Seq<QuestState>, name: Seq<char>)
    ensures
        first_state(states, name) matches Some(n) ==> 0 <= n < states.len(),
{
    if exists|i: int| is_first_state(states, name, i) {
        let i = choose|i: int| is_first_state(states, name, i);
        assert(is_first_state(states, name, i));
    }
}

/// Each entry of a quest run is the entry it was, or the same quest at
/// one of its states.
proof fn lemma_run_shape(db: Map<i32, Quest>, ps: Seq<QuestProgress>, item_id: i32, total: int, n: nat)
    requires
        n <= ps.len(),
        quest_states_fit(db),
    ensures
        quest_run(db, ps, item_id, total, n).0.len() == ps.len(),
        forall|j: int| 0 <= j < ps.len() ==> {
            let q = #[trigger] quest_run(db, ps, item_id, total, n).0[j];
            q == ps[j] || (db.contains_key(ps[j].id) && q.id == ps[j].id && 0 <= q.state < db[ps[j].id].states@.len())
        },
    decreases n,
{
    if n > 0 {
        lemma_run_shape(db, ps, item_id, total, (n - 1) as nat);
        let p = ps[n - 1];
        if db.contains_key(p.id) && 0 <= p.state < db[p.id].states@.len() {
            let quest = db[p.id];
            let state = quest.states@[p.state as int];
            match first_rule(state.rules@, item_id) {
                Some(r) => {
                    lemma_first_state_in_range(quest.states@, state.rules@[r].goto@);
                },
                None => {},
            }
        }
    }
}

/// Moving quests on never leaves a quest at a state it lacks: every entry
/// that changes keeps its quest and points at one of its states.
pub proof fn law_quest_states_stay_in_range(db: Map<i32, Quest>, ps: Seq<QuestProgress>, item_id: i32, total: int, j: int)
    requires
        quest_states_fit(db),
        0 <= j < ps.len(),
        progressed_quests(db, ps, item_id, total)[j] != ps[j],
    ensures
        db.contains_key(ps[j].id),
        progressed_quests(db, ps, item_id, total)[j].id == ps[j].id,
        0 <= progressed_quests(db, ps, item_id, total)[j].state < db[ps[j].id].states@.len(),
{
    lemma_run_shape(db, ps, item_id, total, ps.len());
    let q = quest_run(db, ps, item_id, total, ps.len()).0[j];
}

/// Reads the rules of a quest state for item `item_id` in order: `None`
/// when a rule reached cannot be read, else the first rule that fires on
/// the item, if one does.
fn read_rules(rules: &Vec<QuestRule>, item_id: i32) -> (r: Option<Option<usize>>)
    ensures
        r is None <==> !rules_readable(rules@, item_id),
        r matches Some(None) ==> first_rule(rules@, item_id) == None::<int>,
        r matches Some(Some(i)) ==> {
            &&& first_rule(rules@, item_id) == Some(i as int)
            &&& is_first_rule(rules@, item_id, i as int)
            &&& rules@[i as int].args@.len() >= 2
        },
{
    let got_items = got_items_name();
    let mut i: usize = 0;
    while i < rules.len()
        invariant
            got_items@ == "GotItems"@,
            i <= rules@.len(),
            forall|j: int| 0 <= j < i ==> !is_got_items_rule(#[trigger] rules@[j], item_id),
            forall|j: int| 0 <= j < i && #[trigger] rules@[j].name@ == "GotItems"@ ==> rules@[j].args@.len() >= 1,
        decreases rules.len() - i,
    {
        let rule = &rules[i];
        if rule.name == got_items {
            if rule.args.len() < 1 {
                proof {
                    assert(rules@[i as int].name@ == "GotItems"@);
                    assert(forall|k: int| 0 <= k < i ==> !is_got_items_rule(#[trigger] rules@[k], item_id));
                }
                return None;
            }
            match &rule.args[0] {
                QuestArg::Int(id) => {
                    if *id == item_id {
                        proof {
                            assert(is_got_items_rule(rules@[i as int], item_id));
                            assert(is_first_rule(rules@, item_id, i as int));
                            let k = choose|k: int| is_first_rule(rules@, item_id, k);
                            if k < i {
                                assert(!is_got_items_rule(rules@[k], item_id));
                            } else if (i as int) < k {
                                assert(!is_got_items_rule(rules@[i as int], item_id));
                            }
                        }
                        if rule.args.len() < 2 {
                            return None;
                        }
                        proof {
                            assert forall|j: int|
                                0 <= j < rules@.len() && #[trigger] rules@[j].name@ == "GotItems"@ && (forall|k: int|
                                    0 <= k < j ==> !is_got_items_rule(#[trigger] rules@[k], item_id))
                                implies rules@[j].args@.len() >= 1 by {
                                if j > i {
                                    assert(is_got_items_rule(rules@[i as int], item_id));
                                }
                            }
                            assert forall|j: int| #[trigger] is_first_rule(rules@, item_id, j)
                                implies rules@[j].args@.len() >= 2 by {
                                if j < i {
                                    assert(!is_got_items_rule(rules@[j], item_id));
                                } else if (i as int) < j {
                                    assert(!is_got_items_rule(rules@[i as int], item_id));
                                }
                            }
                        }
                        return Some(Some(i));
                    }
                },
                QuestArg::Str(_) => {},
            }
        }
        i = i + 1;
    }
    proof {
        assert forall|j: int| #[trigger] is_first_rule(rules@, item_id, j) implies rules@[j].args@.len() >= 2 by {
            assert(!is_got_items_rule(rules@[j], item_id));
        }
        if exists|j: int| is_first_rule(rules@, item_id, j) {
            let j = choose|j: int| is_first_rule(rules@, item_id, j);
            assert(!is_got_items_rule(rules@[j], item_id));
        }
    }
    Some(None)
}

/// What one quest's progress does (see `quest_step`).
enum StepOf {
    Skip,
    Advance(usize),
    Abort,
}

/// Whether `s` is the step `q` says.
spec fn step_is(s: StepOf, q: QuestStep) -> bool {
    match (s, q) {
        (StepOf::Skip, QuestStep::Skip) => true,
        (StepOf::Advance(n), QuestStep::Advance(m)) => n == m,
        (StepOf::Abort, QuestStep::Abort) => true,
        _ => false,
    }
}

/// The step of progress `p` when the character holds `total` of item
/// `item_id`, or `None` when its state's rules cannot be read.
fn step_of(db: &HashMap<i32, Quest>, p: QuestProgress, item_id: i32, total: i32) -> (r: Option<StepOf>)
    ensures
        r is None <==> !progress_readable(db@, p, item_id),
        r matches Some(s) ==> step_is(s, quest_step(db@, p, item_id, total as int)),
{
    broadcast use vstd::std_specs::hash::group_hash_axioms;

    match db.get(&p.id) {
        None => Some(StepOf::Skip),
        Some(quest) => {
            if p.state < 0 || (p.state as usize) >= quest.states.len() {
                return Some(StepOf::Skip);
            }
            let state = &quest.states[p.state as usize];
            match read_rules(&state.rules, item_id) {
                None => None,
                Some(None) => Some(StepOf::Skip),
                Some(Some(r)) => {
                    let rule = &state.rules[r];
                    match &rule.args[1] {
                        QuestArg::Int(required) => {
                            if total >= *required {
                                match find_state(&quest.states, &rule.goto) {
                                    Some(n) => Some(StepOf::Advance(n)),
                                    None => Some(StepOf::Abort),
                                }
                            } else {
                                Some(StepOf::Skip)
                            }
                        },
                        QuestArg::Str(_) => Some(StepOf::Skip),
                    }
                },
            }
        },
    }
}

/// The first state of `states` named `name`.
fn find_state(states: &Vec<QuestState>, name: &String) -> (r: Option<usize>)
    ensures
        match r {
            Some(i) => first_state(states@, name@) == Some(i as int),
            None => first_state(states@, name@) == None::<int>,
        },
{
    let mut i: usize = 0;
    while i < states.len()
        invariant
            i <= states@.len(),
            forall|j: int| 0 <= j < i ==> #[trigger] states@[j].name@ != name@,
        decreases states.len() - i,
    {
        if states[i].name == *name {
            proof {
                assert(is_first_state(states@, name@, i as int));
                let k = choose|k: int| is_first_state(states@, name@, k);
                if k < i {
                    assert(states@[k].name@ != name@);
                } else if (i as int) < k {
                    assert(states@[i as int].name@ != name@);
                }
            }
            return Some(i);
        }
        i = i + 1;
    }
    None
}



/// No entry of `items` has a negative amount.
pub open spec fn items_nonnegative(items: Seq<Item>) -> bool {
    forall|i: int| 0 <= i < items.len() ==> #[trigger] items[i].amount >= 0
}

/// A list without negative amounts holds no negative amount of any item,
/// and keeps none after a removal.
pub proof fn lemma_nonnegative_amounts(items: Seq<Item>, id: i32, amount: i32)
    requires
        items_nonnegative(items),
        amount >= 0,
    ensures
        amount_of(items, id) >= 0,
        items_nonnegative(removed_items(items, id, amount)),
        amount_of(removed_items(items, id, amount), id) >= 0,
{
    let r = removed_items(items, id, amount);
    assert(items_nonnegative(r)) by {
        match first_match(items, id) {
            Some(i) => {
                if items[i].amount <= amount {
                    assert forall|k: int| 0 <= k < r.len() implies #[trigger] r[k].amount >= 0 by {
                        if k < i {
                            assert(r[k] == items[k]);
                        } else {
                            assert(r[k] == items[k + 1]);
                        }
                    }
                } else {
                    assert forall|k: int| 0 <= k < r.len() implies #[trigger] r[k].amount >= 0 by {
                        if k != i {
                            assert(r[k] == items[k]);
                        }
                    }
                }
            },
            None => {},
        }
    }
    match first_match(r, id) {
        Some(j) => {
            assert(is_first(r, id, j));
        },
        None => {},
    }
    match first_match(items, id) {
        Some(j) => {
            assert(is_first(items, id, j));
        },
        None => {},
    }
}

/// Whether taking `amount` of item `id` from `items` leaves an amount
/// that an `i32` holds: a negative `amount` makes the entry grow.
pub open spec fn can_take(items: Seq<Item>, id: i32, amount: i32) -> bool {
    match first_match(items, id) {
        Some(i) => items[i].amount <= amount || items[i].amount - amount <= i32::MAX,
        None => true,
    }
}

/// Whether `remove_item(id, amount)` stays within `i32` on `c`.
pub open spec fn can_remove(c: Character, db: Seq<ItemRecord>, id: i32, amount: i32) -> bool {
    let w = weight_change(db, id, removed_amount(c.items@, id, amount));
    &&& can_take(c.items@, id, amount)
    &&& i32::MIN <= w <= i32::MAX
    &&& i32::MIN <= c.weight - w <= i32::MAX
}

/// Whether adding `amount` of item `id` to an inventory of `items` and
/// `weight` stays within `i32`.
pub open spec fn can_add_to(items: Seq<Item>, weight: int, db: Seq<ItemRecord>, id: i32, amount: i32) -> bool {
    let w = weight_change(db, id, amount as int);
    &&& can_add_amount(items, id, amount)
    &&& i32::MIN <= w <= i32::MAX
    &&& i32::MIN <= weight + w <= i32::MAX
}

/// The product of two `i32` values fits in an `i64`.
pub proof fn lemma_i32_product(a: int, b: int)
    by (nonlinear_arith)
    requires
        i32::MIN <= a <= i32::MAX,
        i32::MIN <= b <= i32::MAX,
    ensures
        -0x4000_0000_0000_0000 <= a * b <= 0x4000_0000_0000_0000,
{
}

/// Whether no entry of `items` has a negative amount.
pub fn check_items_nonnegative(items: &Vec<Item>) -> (ok: bool)
    ensures
        ok == items_nonnegative(items@),
{
    let mut i: usize = 0;
    while i < items.len()
        invariant
            i <= items@.len(),
            forall|j: int| 0 <= j < i ==> #[trigger] items@[j].amount >= 0,
        decreases items.len() - i,
    {
        if items[i].amount < 0 {
            return false;
        }
        i = i + 1;
    }
    true
}

/// The weight that taking `amount` of item `item_id` from `items` takes
/// off.
pub(crate) fn removal_weight(items: &Vec<Item>, item_id: i32, amount: i32, item_db: &Vec<ItemRecord>) -> (w: i64)
    ensures
        w == weight_change(item_db@, item_id, removed_amount(items@, item_id, amount)),
{
    let taken: i32 = match find_item(items, item_id) {
        Some(i) => if items[i].amount <= amount {
            items[i].amount
        } else {
            amount
        },
        None => 0,
    };
    match item_record(item_db, item_id) {
        Some(record) => {
            proof {
                lemma_i32_product(record.weight as int, taken as int);
            }
            record.weight as i64 * taken as i64
        },
        None => 0,
    }
}

/// Whether adding `amount` of item `item_id` to `items` at weight `weight`
/// stays within `i32` (see `can_add_to`).
pub(crate) fn addition_fits(items: &Vec<Item>, weight: i32, item_db: &Vec<ItemRecord>, item_id: i32, amount: i32) -> (ok: bool)
    ensures
        ok == can_add_to(items@, weight as int, item_db@, item_id, amount),
{
    let amount_ok = match find_item(items, item_id) {
        Some(i) => {
            let total: i64 = items[i].amount as i64 + amount as i64;
            i32::MIN as i64 <= total && total <= i32::MAX as i64
        },
        None => true,
    };
    let w: i64 = match item_record(item_db, item_id) {
        Some(record) => {
            proof {
                lemma_i32_product(record.weight as int, amount as int);
            }
            record.weight as i64 * amount as i64
        },
        None => 0,
    };
    amount_ok && i32::MIN as i64 <= w && w <= i32::MAX as i64 && i32::MIN as i64 <= weight as i64 + w
        && weight as i64 + w <= i32::MAX as i64
}

/// A copy of `items` after taking `amount` of item `item_id`.
pub(crate) fn removed_copy(items: &Vec<Item>, item_id: i32, amount: i32) -> (r: Vec<Item>)
    requires
        can_take(items@, item_id, amount),
    ensures
        r@ == removed_items(items@, item_id, amount),
{
    let mut r: Vec<Item> = Vec::new();
    let mut k: usize = 0;
    while k < items.len()
        invariant
            k <= items@.len(),
            r@ == items@.subrange(0, k as int),
        decreases items.len() - k,
    {
        r.push(items[k]);
        k = k + 1;
    }
    proof {
        assert(r@ =~= items@);
    }
    match find_item(&r, item_id) {
        Some(i) => {
            let held = r[i].amount;
            if held <= amount {
                r.remove(i);
            } else {
                r.set(i, Item { id: item_id, amount: held - amount });
            }
        },
        None => {},
    }
    r
}

/// The points a character of level `level` has to spend after a reset:
/// level times the points per level, kept to the low 16 bits.
pub open spec fn reset_points(level: u8, per_level: u32) -> u16 {
    ((level as int * per_level as int) % 0x10000) as u16
}

impl Character {
    /// This character with the inventory (items and weight) of `other`.
    pub open spec fn with_inventory_of(self, other: Character) -> Character {
        Character { items: other.items, weight: other.weight, ..self }
    }

    /// This character with the bank level and banked gold of `other`.
    pub open spec fn with_bank_of(self, other: Character) -> Character {
        Character { bank_level: other.bank_level, gold_bank: other.gold_bank, ..self }
    }

    /// This character with the quest progress of `other`.
    pub open spec fn with_quests_of(self, other: Character) -> Character {
        Character { quests: other.quests, ..self }
    }


    /// This character with the stats, spells and points of `other`.
    pub open spec fn with_reset_of(self, other: Character) -> Character {
        Character {
            base_strength: other.base_strength,
            base_intelligence: other.base_intelligence,
            base_wisdom: other.base_wisdom,
            base_agility: other.base_agility,
            base_constitution: other.base_constitution,
            base_charisma: other.base_charisma,
            spells: other.spells,
            stat_points: other.stat_points,
            skill_points: other.skill_points,
            ..self
        }
    }

    /// This character is `before` after a stat reset: base stats back to
    /// 0, no spells, stat and skill points as its level earns, and all else
    /// as it was.
    pub open spec fn is_reset_of(self, before: Character, world: WorldSettings) -> bool {
        &&& self.base_strength == 0
        &&& self.base_intelligence == 0
        &&& self.base_wisdom == 0
        &&& self.base_agility == 0
        &&& self.base_constitution == 0
        &&& self.base_charisma == 0
        &&& self.spells@ == Seq::<Spell>::empty()
        &&& self.stat_points == reset_points(before.level, world.stat_points_per_level)
        &&& self.skill_points == reset_points(before.level, world.skill_points_per_level)
        &&& self == before.with_reset_of(self)
    }

    /// Resets the character's stats: base stats back to 0, spells
    /// forgotten, and stat and skill points set to what its level earns.
    pub fn reset(&mut self, world: &WorldSettings)
        requires
            old(self).level as int * world.stat_points_per_level as int <= u32::MAX,
            old(self).level as int * world.skill_points_per_level as int <= u32::MAX,
        ensures
            final(self).is_reset_of(*old(self), *world),
    {
        self.base_strength = 0;
        self.base_intelligence = 0;
        self.base_wisdom = 0;
        self.base_agility = 0;
        self.base_constitution = 0;
        self.base_charisma = 0;
        self.spells.clear();
        let stat: u32 = self.level as u32 * world.stat_points_per_level;
        let skill: u32 = self.level as u32 * world.skill_points_per_level;
        proof {
            assert((stat as u16) == stat % 0x10000) by (bit_vector);
            assert((skill as u16) == skill % 0x10000) by (bit_vector);
        }
        self.stat_points = stat as u16;
        self.skill_points = skill as u16;
    }

    /// Whether `remove_item(item_id, amount)` stays within `i32` on this
    /// character (see `can_remove`).
    pub fn removal_fits(&self, item_id: i32, amount: i32, item_db: &Vec<ItemRecord>) -> (ok: bool)
        ensures
            ok == can_remove(*self, item_db@, item_id, amount),
    {
        let takes = match find_item(&self.items, item_id) {
            Some(i) => {
                let held = self.items[i].amount;
                held <= amount || held as i64 - amount as i64 <= i32::MAX as i64
            },
            None => true,
        };
        if !takes {
            return false;
        }
        let w = removal_weight(&self.items, item_id, amount, item_db);
        if w < i32::MIN as i64 || w > i32::MAX as i64 {
            return false;
        }
        let left: i64 = self.weight as i64 - w;
        i32::MIN as i64 <= left && left <= i32::MAX as i64
    }

    /// Whether moving this character's quests on after it comes to hold
    /// `total` of item `item_id` reads every rule it reaches in bounds (see
    /// `quests_readable`).
    pub fn quests_readable_at(&self, data: &GameData, item_id: i32, total: i32) -> (ok: bool)
        ensures
            ok == quests_readable(data.quests@, self.quests@, item_id, total as int),
    {
        let ghost db = data.quests@;
        let ghost ps = self.quests@;
        let n = self.quests.len();
        let mut i: usize = 0;
        while i < n
            invariant
                n == ps.len(),
                ps == self.quests@,
                db == data.quests@,
                i <= n,
                !quest_run(db, ps, item_id, total as int, i as nat).2,
                forall|j: int| 0 <= j < i ==> progress_readable(db, #[trigger] ps[j], item_id),
            decreases n - i,
        {
            match step_of(&data.quests, self.quests[i], item_id, total) {
                None => {
                    proof {
                        assert(!progress_readable(db, ps[i as int], item_id));
                    }
                    return false;
                },
                Some(StepOf::Abort) => {
                    proof {
                        assert(quest_run(db, ps, item_id, total as int, (i + 1) as nat).2);
                        assert forall|j: int|
                            0 <= j < ps.len() && !quest_run(db, ps, item_id, total as int, j as nat).2
                            implies progress_readable(db, #[trigger] ps[j], item_id) by {
                            if j > i {
                                lemma_run_stays_stopped(db, ps, item_id, total as int, (i + 1) as nat, j as nat);
                            }
                        }
                    }
                    return true;
                },
                _ => {},
            }
            proof {
                assert(!quest_run(db, ps, item_id, total as int, (i + 1) as nat).2);
            }
            i = i + 1;
        }
        true
    }

    /// How many of item `item_id` the character carries.
    pub fn get_item_amount(&self, item_id: i32) -> (amount: i32)
        ensures
            amount == amount_of(self.items@, item_id),
    {
        match find_item(&self.items, item_id) {
            Some(i) => self.items[i].amount,
            None => 0,
        }
    }

    /// The character's weight.
    pub fn get_weight(&self) -> (weight: i32)
        ensures
            weight == self.weight,
    {
        self.weight
    }

    /// Adds `amount` of item `item_id` to the inventory, without looking at
    /// quests: the first entry of that item grows, or a new entry is
    /// appended; the weight grows by the item's weight times `amount` when
    /// the item database has the item.
    pub fn add_item_no_quest_rules(&mut self, item_id: i32, amount: i32, item_db: &Vec<ItemRecord>)
        requires
            can_add_amount(old(self).items@, item_id, amount),
            i32::MIN <= weight_change(item_db@, item_id, amount as int) <= i32::MAX,
            i32::MIN <= old(self).weight + weight_change(item_db@, item_id, amount as int) <= i32::MAX,
        ensures
            final(self).items@ == added_items(old(self).items@, item_id, amount),
            final(self).weight == old(self).weight + weight_change(item_db@, item_id, amount as int),
            *final(self) == old(self).with_inventory_of(*final(self)),
    {
        match find_item(&self.items, item_id) {
            Some(i) => {
                let existing = self.items[i].amount;
                self.items.set(i, Item { id: item_id, amount: existing + amount });
            },
            None => {
                self.items.push(Item { id: item_id, amount });
            },
        }
        match item_record(item_db, item_id) {
            Some(record) => {
                proof {
                    assert(record.weight * amount == weight_change(item_db@, item_id, amount as int));
                }
                self.weight = self.weight + record.weight * amount;
            },
            None => {},
        }
    }

    /// Takes up to `amount` of item `item_id` from the inventory: the first
    /// entry of that item shrinks, or goes when no more than `amount` is
    /// left; the weight falls by the item's weight times what was taken.
    /// A negative `amount` makes a larger entry grow, and the weight with it.
    pub fn remove_item(&mut self, item_id: i32, amount: i32, item_db: &Vec<ItemRecord>)
        requires
            can_take(old(self).items@, item_id, amount),
            i32::MIN <= weight_change(
                item_db@,
                item_id,
                removed_amount(old(self).items@, item_id, amount),
            ) <= i32::MAX,
            i32::MIN <= old(self).weight - weight_change(
                item_db@,
                item_id,
                removed_amount(old(self).items@, item_id, amount),
            ) <= i32::MAX,
        ensures
            final(self).items@ == removed_items(old(self).items@, item_id, amount),
            final(self).weight == old(self).weight - weight_change(
                item_db@,
                item_id,
                removed_amount(old(self).items@, item_id, amount),
            ),
            *final(self) == old(self).with_inventory_of(*final(self)),
    {
        let taken: i32 = match find_item(&self.items, item_id) {
            Some(i) => {
                let existing = self.items[i].amount;
                if existing <= amount {
                    self.items.remove(i);
                    existing
                } else {
                    self.items.set(i, Item { id: item_id, amount: existing - amount });
                    amount
                }
            },
            None => 0,
        };
        match item_record(item_db, item_id) {
            Some(record) => {
                proof {
                    assert(record.weight * taken == weight_change(item_db@, item_id, taken as int));
                }
                self.weight = self.weight - record.weight * taken;
            },
            None => {},
        }
    }


    /// Adds `amount` of item `item_id` as `add_item_no_quest_rules` does,
    /// then moves each quest whose current state has a "GotItems" rule for
    /// this item and an amount the character now reaches to the state the
    /// rule names. Returns the quests whose actions are to run: those that
    /// moved, or none when a rule named a state that its quest lacks (the
    /// moves made before that stay).
    pub fn add_item(&mut self, item_id: i32, amount: i32, data: &GameData) -> (acted: Vec<i32>)
        requires
            can_add_amount(old(self).items@, item_id, amount),
            i32::MIN <= weight_change(data.items@, item_id, amount as int) <= i32::MAX,
            i32::MIN <= old(self).weight + weight_change(data.items@, item_id, amount as int) <= i32::MAX,
            quests_readable(
                data.quests@,
                old(self).quests@,
                item_id,
                amount_of(added_items(old(self).items@, item_id, amount), item_id),
            ),
        ensures
            final(self).items@ == added_items(old(self).items@, item_id, amount),
            final(self).weight == old(self).weight + weight_change(data.items@, item_id, amount as int),
            final(self).quests@ == progressed_quests(
                data.quests@,
                old(self).quests@,
                item_id,
                amount_of(final(self).items@, item_id),
            ),
            acted@ == quests_to_act(
                data.quests@,
                old(self).quests@,
                item_id,
                amount_of(final(self).items@, item_id),
            ),
            *final(self) == old(self).with_inventory_of(*final(self)).with_quests_of(*final(self)),
    {
        broadcast use vstd::std_specs::hash::group_hash_axioms;

        let ghost items0 = self.items@;
        let ghost weight0 = self.weight;
        let ghost start = *self;
        self.add_item_no_quest_rules(item_id, amount, &data.items);
        let total = self.get_item_amount(item_id);
        let ghost ps = self.quests@;
        let ghost db = data.quests@;
        let ghost mid = *self;
        let n = self.quests.len();
        let mut progressed: Vec<i32> = Vec::new();
        let mut i: usize = 0;
        while i < n
            invariant
                i <= n,
                n == ps.len(),
                self.quests@.len() == n,
                ps == mid.quests@,
                db == data.quests@,
                quests_readable(db, ps, item_id, total as int),
                forall|j: int| i <= j < n ==> self.quests@[j] == ps[j],
                quest_run(db, ps, item_id, total as int, i as nat) == (self.quests@, progressed@, false),
                *self == mid.with_quests_of(*self),
                mid == start.with_inventory_of(mid),
                start == *old(self),
                items0 == old(self).items@,
                weight0 == old(self).weight,
                mid.items@ == added_items(items0, item_id, amount),
                mid.weight == weight0 + weight_change(data.items@, item_id, amount as int),
                total == amount_of(mid.items@, item_id),
            decreases n - i,
        {
            let progress = self.quests[i];
            proof {
                assert(progress == ps[i as int]);
                assert(!quest_run(db, ps, item_id, total as int, i as nat).2);
            }
            let mut step_advance: Option<i32> = None;
            let mut stop = false;
            match step_of(&data.quests, progress, item_id, total) {
                None => {},
                Some(StepOf::Skip) => {},
                Some(StepOf::Advance(next)) => {
                    step_advance = Some(next as i32);
                },
                Some(StepOf::Abort) => {
                    stop = true;
                },
            }
            if stop {
                proof {
                    assert(quest_step(db, ps[i as int], item_id, total as int) is Abort);
                    assert(quest_run(db, ps, item_id, total as int, (i + 1) as nat).2);
                    lemma_run_stays_stopped(db, ps, item_id, total as int, (i + 1) as nat, n as nat);
                }
                return Vec::new();
            }
            match step_advance {
                Some(next) => {
                    self.quests.set(i, QuestProgress { id: progress.id, state: next });
                    progressed.push(progress.id);
                },
                None => {},
            }
            i = i + 1;
        }
        progressed
    }

    /// How many of `amount` of item `item_id` the character can carry
    /// under its weight limit.
    pub fn can_hold(&self, item_id: i32, amount: i32, item_db: &Vec<ItemRecord>) -> (n: i32)
        requires
            amount >= 0,
        ensures
            n == holdable(item_db@, self.weight as int, self.max_weight as int, item_id, amount as int),
            0 <= n <= amount,
    {
        match item_record(item_db, item_id) {
            None => 0,
            Some(record) => {
                if record.weight <= 0 {
                    amount
                } else {
                    let remaining: i64 = self.max_weight as i64 - self.weight as i64;
                    if remaining <= 0 {
                        0
                    } else {
                        let fit: i64 = remaining / (record.weight as i64);
                        if fit < amount as i64 {
                            fit as i32
                        } else {
                            amount
                        }
                    }
                }
            },
        }
    }
}

} // verus!
