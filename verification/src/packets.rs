//! The client packets that the login and account flows read, and the
//! server packets that the library writes, through `eolib`.
use bytes::Bytes;
use eolib::data::{EoReader, EoSerialize, EoWriter};
use eolib::protocol::net::client::{
    AccountAgreeClientPacket, AccountCreateClientPacket, AccountRequestClientPacket, CharacterCreateClientPacket,
    LoginRequestClientPacket,
};
use eolib::protocol::Gender;
use eolib::protocol::net::server::TalkServerServerPacket;
use eolib::protocol::net::{PacketAction, PacketFamily};
use vstd::prelude::*;

verus! {

/// A login request: account name and password.
#[derive(Debug)]
pub struct LoginRequestPacket {
    pub username: String,
    pub password: String,
}

/// A request to create an account.
#[derive(Debug)]
pub struct AccountCreatePacket {
    pub session_id: i32,
    pub username: String,
    pub password: String,
    pub full_name: String,
    pub location: String,
    pub email: String,
    pub computer: String,
    pub hdid: String,
}

/// A request to change an account's password.
#[derive(Debug)]
pub struct AccountAgreePacket {
    pub username: String,
    pub old_password: String,
    pub new_password: String,
}

/// What `eolib` reads from the payload of a login request: account name
/// and password, or nothing when the payload does not hold the packet.
pub uninterp spec fn login_request_fields(payload: Seq<u8>) -> Option<(Seq<char>, Seq<char>)>;

/// What `eolib` reads from the payload of an account-name request.
pub uninterp spec fn account_request_fields(payload: Seq<u8>) -> Option<Seq<char>>;

/// What `eolib` reads from the payload of an account-creation request:
/// session id, then account name, password, full name, location, email,
/// computer and hard disk id.
pub uninterp spec fn account_create_fields(payload: Seq<u8>) -> Option<
    (i32, Seq<char>, Seq<char>, Seq<char>, Seq<char>, Seq<char>, Seq<char>, Seq<char>),
>;

/// What `eolib` reads from the payload of a password change: account
/// name, old password, new password.
pub uninterp spec fn account_agree_fields(payload: Seq<u8>) -> Option<(Seq<char>, Seq<char>, Seq<char>)>;

/// A request to create a character.
#[derive(Debug)]
pub struct CharacterCreatePacket {
    pub session_id: i32,
    pub gender: i32,
    pub hair_style: i32,
    pub hair_color: i32,
    pub skin: i32,
    pub name: String,
}

/// What `eolib` reads from the payload of a character creation: session
/// id, gender, hair style, hair colour, skin and name.
pub uninterp spec fn character_create_fields(payload: Seq<u8>) -> Option<(i32, i32, i32, i32, i32, Seq<char>)>;

/// The bytes of a server message packet as `eolib` writes them.
pub uninterp spec fn talk_server_bytes(message: Seq<char>) -> Seq<u8>;

/// Whether `eolib` knows `b` as a packet action: the action values of its
/// protocol (1 to 18, 20 to 31, 33, 34, 240 to 244, 250 and 255). Older
/// descriptions of the protocol, such as the one the `eo` crate carries,
/// lack some of these (243, 244 and 250); the server reads actions
/// through `eolib`.
pub open spec fn is_packet_action(b: u8) -> bool {
    (1 <= b <= 18) || (20 <= b <= 31) || b == 33 || b == 34 || (240 <= b <= 244) || b == 250 || b == 255
}

/// Whether `eolib` knows `b` as a packet family: the family values of its
/// protocol (1 to 9, 11 to 14, 16 to 19, 21 to 51, 250 and 255). Older
/// descriptions of the protocol, such as the one the `eo` crate carries,
/// lack family 250; the server reads families through `eolib`.
pub open spec fn is_packet_family(b: u8) -> bool {
    (1 <= b <= 9) || (11 <= b <= 14) || (16 <= b <= 19) || (21 <= b <= 51) || b == 250 || b == 255
}

/// `LoginRequestClientPacket::deserialize` of `eolib`, on a reader over
/// `payload`. Its fields are named, not spelled out.
#[verifier::external_body]
pub(crate) fn decode_login_request(payload: &Vec<u8>) -> (r: Option<LoginRequestPacket>)
    ensures
        match r {
            Some(p) => login_request_fields(payload@) == Some((p.username@, p.password@)),
            None => login_request_fields(payload@) is None,
        },
{
    let reader = EoReader::new(Bytes::copy_from_slice(payload));
    match LoginRequestClientPacket::deserialize(&reader) {
        Ok(p) => Some(LoginRequestPacket { username: p.username, password: p.password }),
        Err(_) => None,
    }
}

/// `AccountRequestClientPacket::deserialize` of `eolib`, on a reader over
/// `payload`.
#[verifier::external_body]
pub(crate) fn decode_account_request(payload: &Vec<u8>) -> (r: Option<String>)
    ensures
        match r {
            Some(name) => account_request_fields(payload@) == Some(name@),
            None => account_request_fields(payload@) is None,
        },
{
    let reader = EoReader::new(Bytes::copy_from_slice(payload));
    match AccountRequestClientPacket::deserialize(&reader) {
        Ok(p) => Some(p.username),
        Err(_) => None,
    }
}

/// `AccountCreateClientPacket::deserialize` of `eolib`, on a reader over
/// `payload`.
#[verifier::external_body]
pub(crate) fn decode_account_create(payload: &Vec<u8>) -> (r: Option<AccountCreatePacket>)
    ensures
        match r {
            Some(p) => account_create_fields(payload@) == Some(
                (p.session_id, p.username@, p.password@, p.full_name@, p.location@, p.email@, p.computer@, p.hdid@),
            ),
            None => account_create_fields(payload@) is None,
        },
{
    let reader = EoReader::new(Bytes::copy_from_slice(payload));
    match AccountCreateClientPacket::deserialize(&reader) {
        Ok(p) => Some(AccountCreatePacket { session_id: p.session_id, username: p.username,
            password: p.password, full_name: p.full_name, location: p.location, email: p.email,
            computer: p.computer, hdid: p.hdid }),
        Err(_) => None,
    }
}

/// `AccountAgreeClientPacket::deserialize` of `eolib`, on a reader over
/// `payload`.
#[verifier::external_body]
pub(crate) fn decode_account_agree(payload: &Vec<u8>) -> (r: Option<AccountAgreePacket>)
    ensures
        match r {
            Some(p) => account_agree_fields(payload@) == Some((p.username@, p.old_password@, p.new_password@)),
            None => account_agree_fields(payload@) is None,
        },
{
    let reader = EoReader::new(Bytes::copy_from_slice(payload));
    match AccountAgreeClientPacket::deserialize(&reader) {
        Ok(p) => Some(AccountAgreePacket { username: p.username, old_password: p.old_password, new_password: p.new_password }),
        Err(_) => None,
    }
}

/// `CharacterCreateClientPacket::deserialize` of `eolib`, on a reader
/// over `payload`; the gender is given by its protocol value (female 0,
/// male 1).
#[verifier::external_body]
pub(crate) fn decode_character_create(payload: &Vec<u8>) -> (r: Option<CharacterCreatePacket>)
    ensures
        match r {
            Some(p) => character_create_fields(payload@) == Some(
                (p.session_id, p.gender, p.hair_style, p.hair_color, p.skin, p.name@),
            ),
            None => character_create_fields(payload@) is None,
        },
{
    let reader = EoReader::new(Bytes::copy_from_slice(payload));
    let p = match CharacterCreateClientPacket::deserialize(&reader) { Ok(p) => p, Err(_) => return None };
    let gender = match p.gender { Gender::Female => 0, Gender::Male => 1, Gender::Unrecognized(v) => v };
    Some(CharacterCreatePacket { session_id: p.session_id, gender, hair_style: p.hair_style,
        hair_color: p.hair_color, skin: p.skin, name: p.name })
}

/// `EoSerialize::serialize` of `eolib` for `TalkServerServerPacket`: the
/// message string, which cannot fail to be written.
#[verifier::external_body]
pub(crate) fn encode_server_message(message: &String) -> (bytes: Vec<u8>)
    ensures
        bytes@ == talk_server_bytes(message@),
{
    let packet = TalkServerServerPacket { message: message.clone() };
    let mut writer = EoWriter::new();
    let _ = packet.serialize(&mut writer);
    writer.to_byte_array().to_vec()
}

/// `PacketAction::from` of `eolib`: whether the byte is a known action
/// rather than `Unrecognized`. The conversion matches each value of the
/// protocol's action enum and maps any other byte to `Unrecognized`.
#[verifier::external_body]
pub(crate) fn known_packet_action(b: u8) -> (known: bool)
    ensures
        known == is_packet_action(b),
{
    match PacketAction::from(b) {
        PacketAction::Unrecognized(_) => false,
        _ => true,
    }
}

/// `PacketFamily::from` of `eolib`: whether the byte is a known family
/// rather than `Unrecognized`. The conversion matches each value of the
/// protocol's family enum and maps any other byte to `Unrecognized`.
#[verifier::external_body]
pub(crate) fn known_packet_family(b: u8) -> (known: bool)
    ensures
        known == is_packet_family(b),
{
    match PacketFamily::from(b) {
        PacketFamily::Unrecognized(_) => false,
        _ => true,
    }
}

} // verus!
