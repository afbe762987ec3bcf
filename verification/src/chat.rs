//! Server-wide messages.
use crate::packets::{encode_server_message, talk_server_bytes};
use crate::session::ClientState;
use vstd::prelude::*;

verus! {

/// The ids of the players in `players` (id and connection state) who are
/// in the game, in order.
pub open spec fn playing_ids(players: Seq<(i32, ClientState)>) -> Seq<i32>
    decreases players.len(),
{
    if players.len() == 0 {
        Seq::empty()
    } else {
        let rest = playing_ids(players.drop_last());
        if players.last().1 == ClientState::Playing {
            rest.push(players.last().0)
        } else {
            rest
        }
    }
}

/// A server message to every player in the game: the message packet,
/// written once, and the players (of `players`, with their connection
/// states) to send it to.
pub fn broadcast_server_message(message: &String, players: &Vec<(i32, ClientState)>) -> (r: (Vec<u8>, Vec<i32>))
    ensures
        r.0@ == talk_server_bytes(message@),
        r.1@ == playing_ids(players@),
{
    let packet = encode_server_message(message);
    let mut recipients: Vec<i32> = Vec::new();
    let mut i: usize = 0;
    while i < players.len()
        invariant
            i <= players@.len(),
            recipients@ == playing_ids(players@.subrange(0, i as int)),
        decreases players.len() - i,
    {
        let (id, state) = players[i];
        proof {
            assert(players@.subrange(0, i + 1).drop_last() =~= players@.subrange(0, i as int));
        }
        if state == ClientState::Playing {
            recipients.push(id);
        }
        i = i + 1;
    }
    proof {
        assert(players@.subrange(0, players@.len() as int) =~= players@);
    }
    (packet, recipients)
}

} // verus!
