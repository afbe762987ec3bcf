//! What the server does with each packet a player sends before a handler
//! sees it: reading its action and family, checking the client's sequence
//! number, and choosing the handler. The connection's state and sequence
//! live with the player's connection, so this is a small state machine.
use crate::codec::{decode_char, eo_char_value};
use crate::packets::{is_packet_action, is_packet_family, known_packet_action, known_packet_family};
use crate::session::{ClientState, CloseReason};
use vstd::prelude::*;

verus! {

/// The family byte of the handshake packets.
pub const FAMILY_INIT: u8 = 255;
/// The family byte of connection packets.
pub const FAMILY_CONNECTION: u8 = 1;
/// The action byte of a ping.
pub const ACTION_PING: u8 = 240;

/// The packet families the server has handlers for.
pub open spec fn is_handled_family(f: u8) -> bool {
    f == 2 || f == 48 || f == 11 || f == 36 || f == 43 || f == 8 || f == 3 || f == 33 || f == 49 || f == 1
        || f == 34 || f == 9 || f == 7 || f == 17 || f == 255 || f == 14 || f == 37 || f == 4 || f == 35
        || f == 28 || f == 30 || f == 27 || f == 22 || f == 29 || f == 25 || f == 13 || f == 41 || f == 12
        || f == 16 || f == 18 || f == 32 || f == 6 || f == 19 || f == 5
}

/// Whether the server has a handler for packet family `family`: account,
/// admin interact, attack, bank, board, chair, character, chest, citizen,
/// connection, door, emote, face, global, init, item, locker, login,
/// message, npc range, paperdoll, player range, players, range, refresh,
/// shop, sit, spell, stat skill, talk, trade, walk, warp and welcome.
pub fn handled_family(family: u8) -> (handled: bool)
    ensures
        handled == is_handled_family(family),
{
    match family {
        2 | 48 | 11 | 36 | 43 | 8 | 3 | 33 | 49 | 1 | 34 | 9 | 7 | 17 | 255 | 14 | 37 | 4 | 35 | 28 | 30 | 27
        | 22 | 29 | 25 | 13 | 41 | 12 | 16 | 18 | 32 | 6 | 19 | 5 => true,
        _ => false,
    }
}

/// Where a packet stands.
#[derive(Clone, Copy, Debug, PartialEq, Eq, Structural)]
pub enum PacketStage {
    AwaitState,
    AwaitSequence,
    /// A handshake packet waits for the sequence number it drops.
    AwaitSkippedSequence,
    Finished,
}

/// An answer from the player's connection.
#[derive(Debug, PartialEq, Eq)]
pub enum PacketEvent {
    /// The connection's state.
    State(ClientState),
    /// The next server sequence number.
    Sequence(u32),
    /// The connection could not answer, with its error.
    Failed(String),
}

/// What handling the packet does next.
#[derive(Debug, PartialEq, Eq)]
pub enum PacketStep {
    GetState,
    /// Start a new sequence, as a ping asks.
    PongNewSequence,
    /// Take the next sequence number and report it.
    GenSequence,
    /// Take the next sequence number and drop it.
    SkipSequence,
    Close(CloseReason),
    /// Hand the packet to the handler of its family; its payload starts at
    /// `payload_start`.
    Dispatch { family: u8, action: u8, payload_start: usize },
    /// No handler takes this family.
    Unhandled { family: u8, action: u8 },
    /// The player is ready for the next packet.
    ClearBusy,
    /// Handling stops and returns the connection's error.
    ReturnError(String),
}

/// A packet being handled.
#[derive(Debug)]
pub struct IncomingPacket {
    pub data: Vec<u8>,
    pub action: u8,
    pub family: u8,
    pub stage: PacketStage,
}

/// The steps that end the handling: the handler (or the note that there
/// is none), then ready for the next packet.
pub open spec fn dispatch_steps(family: u8, action: u8, payload_start: usize) -> Seq<PacketStep> {
    if is_handled_family(family) {
        seq![PacketStep::Dispatch { family, action, payload_start }, PacketStep::ClearBusy]
    } else {
        seq![PacketStep::Unhandled { family, action }, PacketStep::ClearBusy]
    }
}


/// The client's sequence number in a packet: the EO char after the
/// family byte.
pub open spec fn client_sequence(data: Seq<u8>) -> u32 {
    eo_char_value(data.subrange(2, if data.len() > 2 { 3 } else { 2 }))
}

/// Where a packet's payload starts once its sequence number is read.
pub open spec fn after_sequence(data: Seq<u8>) -> usize {
    if data.len() > 2 {
        3
    } else {
        2
    }
}

/// One step of handling a packet: the next stage and the steps to take.
/// - State: before the handshake the packet goes straight to its
///   handler; a handshake packet skips a sequence number and goes to its
///   handler; any other asks for the sequence number (after a new
///   sequence, for a ping).
/// - Sequence: when the settings enforce it, a client sequence number
///   that differs closes the connection; the packet goes to its handler
///   all the same.
pub open spec fn packet_step(p: IncomingPacket, event: PacketEvent, enforce_sequence: bool) -> (PacketStage, Seq<PacketStep>) {
    match (p.stage, event) {
        (PacketStage::AwaitState, PacketEvent::State(state)) => if state == ClientState::Uninitialized {
            (PacketStage::Finished, dispatch_steps(p.family, p.action, 2))
        } else if p.family == FAMILY_INIT {
            (PacketStage::AwaitSkippedSequence, seq![PacketStep::SkipSequence])
        } else if p.family == FAMILY_CONNECTION && p.action == ACTION_PING {
            (PacketStage::AwaitSequence, seq![PacketStep::PongNewSequence, PacketStep::GenSequence])
        } else {
            (PacketStage::AwaitSequence, seq![PacketStep::GenSequence])
        },
        (PacketStage::AwaitSequence, PacketEvent::Sequence(server)) => {
            let tail = dispatch_steps(p.family, p.action, after_sequence(p.data@));
            let client = client_sequence(p.data@);
            (
                PacketStage::Finished,
                if enforce_sequence && server != client {
                    seq![PacketStep::Close(CloseReason::InvalidSequence { got: client, expected: server })] + tail
                } else {
                    tail
                },
            )
        },
        (PacketStage::AwaitSkippedSequence, PacketEvent::Sequence(_)) => (
            PacketStage::Finished,
            dispatch_steps(p.family, p.action, 2),
        ),
        (PacketStage::AwaitState, PacketEvent::Failed(e))
        | (PacketStage::AwaitSequence, PacketEvent::Failed(e))
        | (PacketStage::AwaitSkippedSequence, PacketEvent::Failed(e)) => (
            PacketStage::Finished,
            seq![PacketStep::ReturnError(e)],
        ),
        _ => (PacketStage::Finished, Seq::empty()),
    }
}

/// How many of `steps` hand the packet on (to a handler, or to the
/// unhandled-packet note).
pub open spec fn handoffs(steps: Seq<PacketStep>) -> nat
    decreases steps.len(),
{
    if steps.len() == 0 {
        0
    } else {
        let rest = handoffs(steps.drop_last());
        match steps.last() {
            PacketStep::Dispatch { .. } | PacketStep::Unhandled { .. } => rest + 1,
            _ => rest,
        }
    }
}

proof fn lemma_handoffs_concat(a: Seq<PacketStep>, b: Seq<PacketStep>)
    ensures
        handoffs(a + b) == handoffs(a) + handoffs(b),
    decreases b.len(),
{
    if b.len() > 0 {
        lemma_handoffs_concat(a, b.drop_last());
        assert((a + b).drop_last() =~= a + b.drop_last());
    } else {
        assert(a + b =~= a);
    }
}

/// Each packet whose action and family are known is handed on exactly
/// once, whatever state and sequence number the connection answers, and
/// the player is then ready for the next packet.
pub proof fn law_packet_handed_on_once(p: IncomingPacket, state: ClientState, server: u32, enforce_sequence: bool)
    requires
        p.stage == PacketStage::AwaitState,
    ensures
        ({
            let first = packet_step(p, PacketEvent::State(state), enforce_sequence);
            let second = if first.0 == PacketStage::AwaitSequence || first.0 == PacketStage::AwaitSkippedSequence {
                packet_step(IncomingPacket { stage: first.0, ..p }, PacketEvent::Sequence(server), enforce_sequence).1
            } else {
                Seq::empty()
            };
            let steps = first.1 + second;
            &&& handoffs(steps) == 1
            &&& steps.last() == PacketStep::ClearBusy
        }),
{
    let first = packet_step(p, PacketEvent::State(state), enforce_sequence);
    let d2 = dispatch_steps(p.family, p.action, 2);
    let d3 = dispatch_steps(p.family, p.action, after_sequence(p.data@));
    assert(handoffs(d2) == 1) by {
        reveal_with_fuel(handoffs, 3);
    }
    assert(handoffs(d3) == 1) by {
        reveal_with_fuel(handoffs, 3);
    }
    let client = client_sequence(p.data@);
    let close = seq![PacketStep::Close(CloseReason::InvalidSequence { got: client, expected: server })];
    assert(handoffs(close) == 0) by {
        reveal_with_fuel(handoffs, 2);
    }
    lemma_handoffs_concat(close, d3);
    let skip = seq![PacketStep::SkipSequence];
    assert(handoffs(skip) == 0) by {
        reveal_with_fuel(handoffs, 2);
    }
    let pong = seq![PacketStep::PongNewSequence, PacketStep::GenSequence];
    assert(handoffs(pong) == 0) by {
        reveal_with_fuel(handoffs, 3);
    }
    let gen = seq![PacketStep::GenSequence];
    assert(handoffs(gen) == 0) by {
        reveal_with_fuel(handoffs, 2);
    }
    if first.0 == PacketStage::AwaitSequence || first.0 == PacketStage::AwaitSkippedSequence {
        let second = packet_step(IncomingPacket { stage: first.0, ..p }, PacketEvent::Sequence(server), enforce_sequence).1;
        lemma_handoffs_concat(first.1, second);
    } else {
        lemma_handoffs_concat(first.1, Seq::empty());
    }
}

/// When the connection cannot answer, the handling stops with its error:
/// the packet goes to no handler and the player is not marked ready.
pub proof fn law_failed_answer_returns_error(p: IncomingPacket, e: String, enforce_sequence: bool)
    requires
        p.stage != PacketStage::Finished,
    ensures
        packet_step(p, PacketEvent::Failed(e), enforce_sequence) == (
            PacketStage::Finished,
            seq![PacketStep::ReturnError(e)],
        ),
        handoffs(seq![PacketStep::ReturnError(e)]) == 0,
{
    reveal_with_fuel(handoffs, 2);
}

/// The bytes of the packet families the server has a handler for:
/// connection 1, account 2, character 3, login 4, welcome 5, walk 6,
/// face 7, chair 8, emote 9, attack 11, spell 12, shop 13, item 14,
/// stat skill 16, global 17, talk 18, warp 19, players 22, refresh 25,
/// player range 27, npc range 28, range 29, paperdoll 30, trade 32,
/// chest 33, door 34, message 35, bank 36, locker 37, sit 41, board 43,
/// admin interact 48, citizen 49 and init 255.
pub open spec fn families_with_handlers() -> Seq<u8> {
    seq![
        1u8, 2, 3, 4, 5, 6, 7, 8, 9, 11, 12, 13, 14, 16, 17, 18, 19, 22, 25, 27, 28, 29, 30, 32, 33, 34, 35, 36,
        37, 41, 43, 48, 49, 255,
    ]
}

/// A packet of a family with a handler goes to that handler, with its
/// action, and then the player is ready; a packet of any other family
/// goes to no handler.
pub proof fn law_families_with_handlers_are_dispatched(family: u8, action: u8, payload_start: usize)
    ensures
        families_with_handlers().contains(family) ==> dispatch_steps(family, action, payload_start) == seq![
            PacketStep::Dispatch { family, action, payload_start },
            PacketStep::ClearBusy,
        ],
        !families_with_handlers().contains(family) ==> dispatch_steps(family, action, payload_start) == seq![
            PacketStep::Unhandled { family, action },
            PacketStep::ClearBusy,
        ],
{
    let fs = families_with_handlers();
    if fs.contains(family) {
        let i = choose|i: int| 0 <= i < fs.len() && fs[i] == family;
        assert(is_handled_family(fs[i]));
    } else {
        if is_handled_family(family) {
            let i: int = if family == 1 { 0 } else if family == 2 { 1 } else if family == 3 { 2 } else if family == 4 {
                3
            } else if family == 5 { 4 } else if family == 6 { 5 } else if family == 7 { 6 } else if family == 8 {
                7
            } else if family == 9 { 8 } else if family == 11 { 9 } else if family == 12 { 10 } else if family
                == 13 { 11 } else if family == 14 { 12 } else if family == 16 { 13 } else if family == 17 {
                14
            } else if family == 18 { 15 } else if family == 19 { 16 } else if family == 22 { 17 } else if family
                == 25 { 18 } else if family == 27 { 19 } else if family == 28 { 20 } else if family == 29 {
                21
            } else if family == 30 { 22 } else if family == 32 { 23 } else if family == 33 { 24 } else if family
                == 34 { 25 } else if family == 35 { 26 } else if family == 36 { 27 } else if family == 37 {
                28
            } else if family == 41 { 29 } else if family == 43 { 30 } else if family == 48 { 31 } else if family
                == 49 { 32 } else { 33 };
            assert(fs[i] == family);
        }
    }
}

/// A packet of a family with a handler, once the connection has answered
/// its state and sequence number, ends with that handler being called
/// with its family and action, and the player then being ready.
pub proof fn law_handled_packet_reaches_its_handler(p: IncomingPacket, state: ClientState, server: u32, enforce_sequence: bool)
    requires
        p.stage == PacketStage::AwaitState,
        families_with_handlers().contains(p.family),
    ensures
        ({
            let first = packet_step(p, PacketEvent::State(state), enforce_sequence);
            let second = if first.0 == PacketStage::AwaitSequence || first.0 == PacketStage::AwaitSkippedSequence {
                packet_step(IncomingPacket { stage: first.0, ..p }, PacketEvent::Sequence(server), enforce_sequence).1
            } else {
                Seq::empty()
            };
            let steps = first.1 + second;
            &&& steps.len() >= 2
            &&& steps[steps.len() - 2] matches PacketStep::Dispatch { family, action, .. } && family == p.family
                && action == p.action
            &&& steps[steps.len() - 1] == PacketStep::ClearBusy
        }),
{
    law_families_with_handlers_are_dispatched(p.family, p.action, 2);
    law_families_with_handlers_are_dispatched(p.family, p.action, after_sequence(p.data@));
    let first = packet_step(p, PacketEvent::State(state), enforce_sequence);
    if first.0 == PacketStage::AwaitSequence || first.0 == PacketStage::AwaitSkippedSequence {
        let second = packet_step(IncomingPacket { stage: first.0, ..p }, PacketEvent::Sequence(server), enforce_sequence).1;
        let steps = first.1 + second;
        assert(steps[steps.len() - 2] == second[second.len() - 2]);
        assert(steps[steps.len() - 1] == second[second.len() - 1]);
    } else {
        let steps = first.1 + Seq::<PacketStep>::empty();
        assert(steps =~= first.1);
    }
}

fn dispatch(family: u8, action: u8, payload_start: usize, steps: &mut Vec<PacketStep>)
    ensures
        final(steps)@ == old(steps)@ + dispatch_steps(family, action, payload_start),
{
    if handled_family(family) {
        steps.push(PacketStep::Dispatch { family, action, payload_start });
    } else {
        steps.push(PacketStep::Unhandled { family, action });
    }
    steps.push(PacketStep::ClearBusy);
}

/// Starts handling a packet: its first byte is the action, its second the
/// family. A byte that names no action or family closes the connection;
/// otherwise the connection's state is asked for.
pub fn handle_packet(packet: Vec<u8>) -> (r: (Option<IncomingPacket>, Vec<PacketStep>))
    requires
        packet@.len() >= 2,
    ensures
        !is_packet_action(packet@[0]) ==> r.0 is None && r.1@ == seq![PacketStep::Close(CloseReason::InvalidPacketAction)],
        is_packet_action(packet@[0]) && !is_packet_family(packet@[1]) ==> r.0 is None && r.1@ == seq![
            PacketStep::Close(CloseReason::InvalidPacketFamily),
        ],
        is_packet_action(packet@[0]) && is_packet_family(packet@[1]) ==> {
            &&& r.1@ == seq![PacketStep::GetState]
            &&& r.0 matches Some(p) && p.data@ == packet@ && p.action == packet@[0] && p.family == packet@[1]
                && p.stage == PacketStage::AwaitState
        },
{
    let action = packet[0];
    let family = packet[1];
    let mut steps: Vec<PacketStep> = Vec::new();
    if !known_packet_action(action) {
        steps.push(PacketStep::Close(CloseReason::InvalidPacketAction));
        return (None, steps);
    }
    if !known_packet_family(family) {
        steps.push(PacketStep::Close(CloseReason::InvalidPacketFamily));
        return (None, steps);
    }
    steps.push(PacketStep::GetState);
    (Some(IncomingPacket { data: packet, action, family, stage: PacketStage::AwaitState }), steps)
}

impl IncomingPacket {
    /// Takes the next answer from the connection.
    /// - State: before the handshake the packet goes straight to its
    ///   handler; a handshake packet skips a sequence number and goes to
    ///   its handler; any other asks for the sequence number (after a new
    ///   sequence, for a ping).
    /// - Sequence: when the settings enforce it, a client sequence number
    ///   that differs closes the connection; the packet goes to its
    ///   handler all the same.
    pub fn step(&mut self, event: PacketEvent, enforce_sequence: bool) -> (steps: Vec<PacketStep>)
        requires
            old(self).data@.len() >= 2,
        ensures
            final(self).data == old(self).data,
            final(self).action == old(self).action,
            final(self).family == old(self).family,
            (final(self).stage, steps@) == packet_step(*old(self), event, enforce_sequence),
    {
        let mut steps: Vec<PacketStep> = Vec::new();
        match (self.stage, event) {
            (PacketStage::AwaitState, PacketEvent::State(state)) => {
                if state == ClientState::Uninitialized {
                    self.stage = PacketStage::Finished;
                    dispatch(self.family, self.action, 2, &mut steps);
                } else if self.family == FAMILY_INIT {
                    self.stage = PacketStage::AwaitSkippedSequence;
                    steps.push(PacketStep::SkipSequence);
                } else {
                    self.stage = PacketStage::AwaitSequence;
                    if self.family == FAMILY_CONNECTION && self.action == ACTION_PING {
                        steps.push(PacketStep::PongNewSequence);
                    }
                    steps.push(PacketStep::GenSequence);
                }
            },
            (PacketStage::AwaitSequence, PacketEvent::Sequence(server)) => {
                self.stage = PacketStage::Finished;
                let end: usize = if self.data.len() > 2 { 3 } else { 2 };
                let client = decode_char(&self.data.as_slice()[2..end]);
                if enforce_sequence && server != client {
                    steps.push(PacketStep::Close(CloseReason::InvalidSequence { got: client, expected: server }));
                }
                dispatch(self.family, self.action, end, &mut steps);
            },
            (PacketStage::AwaitSkippedSequence, PacketEvent::Sequence(_)) => {
                self.stage = PacketStage::Finished;
                dispatch(self.family, self.action, 2, &mut steps);
            },
            (PacketStage::AwaitState, PacketEvent::Failed(e))
            | (PacketStage::AwaitSequence, PacketEvent::Failed(e))
            | (PacketStage::AwaitSkippedSequence, PacketEvent::Failed(e)) => {
                self.stage = PacketStage::Finished;
                steps.push(PacketStep::ReturnError(e));
            },
            _ => {
                self.stage = PacketStage::Finished;
            },
        }
        steps
    }
}

} // verus!
