//! Creating a character: the request goes to the world, and its reply (or
//! a refusal) goes back to the player.
use crate::packets::{character_create_fields, decode_character_create, CharacterCreatePacket};
use vstd::prelude::*;

verus! {

/// What the player is sent after asking to create a character.
#[derive(Debug, PartialEq, Eq)]
pub enum CreateReply {
    /// The world's reply packet.
    World(Vec<u8>),
    /// The request is refused as invalid.
    Rejected,
}

/// Reads a character creation request from its packet payload; the world
/// is asked to create the character only when the payload holds one.
pub fn create(payload: &Vec<u8>) -> (request: Option<CharacterCreatePacket>)
    ensures
        match request {
            Some(p) => character_create_fields(payload@) == Some(
                (p.session_id, p.gender, p.hair_style, p.hair_color, p.skin, p.name@),
            ),
            None => character_create_fields(payload@) is None,
        },
{
    decode_character_create(payload)
}

/// The reply to a creation request: the world's, or a refusal when the
/// world failed.
pub fn create_reply(world_reply: Option<Vec<u8>>) -> (reply: CreateReply)
    ensures
        reply == match world_reply {
            Some(bytes) => CreateReply::World(bytes),
            None => CreateReply::Rejected,
        },
{
    match world_reply {
        Some(bytes) => CreateReply::World(bytes),
        None => CreateReply::Rejected,
    }
}

} // verus!
