//! Joining a guild, and the packet that tells the new member.
use crate::character::Character;
use crate::map::{updated_at, GameMap};
use eolib::data::{EoSerialize, EoSerializeError, EoWriter};
use eolib::protocol::net::server::GuildAgreeServerPacket;
use vstd::prelude::*;

verus! {

broadcast use vstd::std_specs::hash::group_hash_axioms;

/// The error `eolib` reports when a packet cannot be written.
#[verifier::external_type_specification]
#[verifier::external_body]
pub struct ExEoSerializeError(EoSerializeError);

/// The bytes of a guild-agree packet as `eolib` writes them.
pub uninterp spec fn guild_agree_bytes(
    recruiter_id: i32,
    guild_tag: Seq<char>,
    guild_name: Seq<char>,
    rank_name: Seq<char>,
) -> Seq<u8>;

/// `eolib`'s `EoSerialize::serialize` for `GuildAgreeServerPacket`, into a
/// fresh `EoWriter`. The packet writes the recruiter id as an EO short,
/// which fails outside 0 to 64009 (`SHORT_MAX`), then the three strings,
/// each after a break byte, which cannot fail. The bytes written are named,
/// not spelled out.
#[verifier::external_body]
fn serialize_guild_agree(recruiter_id: i32, guild_tag: &String, guild_name: &String, rank_name: &String) -> (r: Result<Vec<u8>, EoSerializeError>)
    ensures
        r is Ok <==> 0 <= recruiter_id <= 64009,
        r matches Ok(bytes) ==> bytes@ == guild_agree_bytes(recruiter_id, guild_tag@, guild_name@, rank_name@),
{
    let packet = GuildAgreeServerPacket {
        recruiter_id,
        guild_tag: guild_tag.clone(),
        guild_name: guild_name.clone(),
        rank_name: rank_name.clone(),
    };
    let mut writer = EoWriter::new();
    match packet.serialize(&mut writer) {
        Ok(()) => Ok(writer.to_byte_array().to_vec()),
        Err(e) => Err(e),
    }
}

/// What joining a guild leads to.
pub struct GuildJoin {
    /// The guild that the world adds the player to.
    pub guild_tag: String,
    /// The guild-agree packet for the new member, or `None` when it cannot
    /// be written; only when it is written is it sent and the character
    /// saved.
    pub agree_packet: Option<Vec<u8>>,
}

/// The rank a new guild member starts at.
pub const NEW_MEMBER_RANK: i32 = 9;

impl GameMap {
    /// The player's character joins the guild `guild_tag`, recruited by
    /// `recruiter_id`: it takes the guild's tag, name and rank name, and
    /// rank 9. Returns, if the character is on the map, the guild to add
    /// the player to and the packet to send.
    pub fn join_guild(
        &mut self,
        player_id: i32,
        recruiter_id: i32,
        guild_tag: String,
        guild_name: String,
        guild_rank_string: String,
    ) -> (joined: Option<GuildJoin>)
        requires
            old(self).characters@.contains_key(player_id) && 0 <= recruiter_id <= 64009
                ==> old(self).characters@[player_id].has_player,
        ensures
            final(self).npcs@ == old(self).npcs@,
            !old(self).characters@.contains_key(player_id) ==> {
                &&& final(self).characters@ == old(self).characters@
                &&& joined is None
            },
            old(self).characters@.contains_key(player_id) ==> {
                let c0 = old(self).characters@[player_id];
                let c1 = final(self).characters@[player_id];
                &&& updated_at(old(self).characters@, final(self).characters@, player_id)
                &&& c1 == Character {
                    guild_tag: c1.guild_tag,
                    guild_name: c1.guild_name,
                    guild_rank_string: c1.guild_rank_string,
                    guild_rank: c1.guild_rank,
                    ..c0
                }
                &&& c1.guild_tag == Some(guild_tag)
                &&& c1.guild_name == Some(guild_name)
                &&& c1.guild_rank_string == Some(guild_rank_string)
                &&& c1.guild_rank == Some(NEW_MEMBER_RANK)
                &&& joined matches Some(j) && {
                    &&& j.guild_tag == guild_tag
                    &&& j.agree_packet is Some <==> 0 <= recruiter_id <= 64009
                    &&& j.agree_packet matches Some(bytes) ==> bytes@ == guild_agree_bytes(
                        recruiter_id,
                        guild_tag@,
                        guild_name@,
                        guild_rank_string@,
                    )
                }
            },
    {
        let ghost old_characters = self.characters@;
        let mut character = match self.characters.remove(&player_id) {
            Some(c) => c,
            None => {
                proof {
                    assert(self.characters@ =~= old_characters);
                }
                return None;
            },
        };
        character.guild_tag = Some(guild_tag.clone());
        character.guild_name = Some(guild_name.clone());
        character.guild_rank_string = Some(guild_rank_string.clone());
        character.guild_rank = Some(NEW_MEMBER_RANK);
        self.characters.insert(player_id, character);
        proof {
            assert(self.characters@ =~= old_characters.insert(player_id, self.characters@[player_id]));
        }
        let agree_packet = match serialize_guild_agree(recruiter_id, &guild_tag, &guild_name, &guild_rank_string) {
            Ok(bytes) => Some(bytes),
            Err(_) => None,
        };
        Some(GuildJoin { guild_tag, agree_packet })
    }
}

} // verus!
