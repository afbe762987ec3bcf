//! EO number encoding, through the `eo` crate.
use vstd::prelude::*;

verus! {

/// Largest value one EO byte holds.
pub const MAX1: u32 = 253;
/// Largest value two EO bytes hold.
pub const MAX2: u32 = 64009;
/// Largest value three EO bytes hold.
pub const MAX3: u32 = 16194277;
/// Values from here on cannot be encoded.
pub const MAX4: u32 = 4097152080;

/// The four bytes in which EO stores `n`: base-253 digits plus one, with
/// 254 standing for each unused high digit.
pub open spec fn eo_number_bytes(n: int) -> Seq<u8> {
    let b3: int = if n >= MAX3 { n / MAX3 as int + 1 } else { 254 };
    let r3: int = n % MAX3 as int;
    let b2: int = if n >= MAX2 { r3 / MAX2 as int + 1 } else { 254 };
    let r2: int = r3 % MAX2 as int;
    let b1: int = if n >= MAX1 { r2 / MAX1 as int + 1 } else { 254 };
    let b0: int = r2 % MAX1 as int + 1;
    seq![b0 as u8, b1 as u8, b2 as u8, b3 as u8]
}

/// `eo::data::encode_number`: the four-byte EO encoding of `n`, as the
/// crate's source computes it digit by digit. It panics above `MAX4`,
/// which `requires` rules out.
#[verifier::external_body]
pub fn encode_number(n: u32) -> (bytes: [u8; 4])
    requires
        n <= MAX4,
    ensures
        bytes@ == eo_number_bytes(n as int),
{
    eo::data::encode_number(n)
}


/// The EO char that one byte holds: the byte less one, where 0 and 254
/// both stand for 0; with no byte, 0.
pub open spec fn eo_char_value(bytes: Seq<u8>) -> u32 {
    if bytes.len() == 0 || bytes[0] == 0 || bytes[0] == 254 {
        0
    } else {
        (bytes[0] - 1) as u32
    }
}

/// `eo::data::decode_number` on at most one byte, as the crate's stream
/// reader uses it for a char: the crate's source maps each byte of 0 or
/// 254 (and each missing byte) to 0 and any other to itself less one.
#[verifier::external_body]
pub fn decode_char(bytes: &[u8]) -> (n: u32)
    requires
        bytes@.len() <= 1,
    ensures
        n == eo_char_value(bytes@),
{
    eo::data::decode_number(bytes)
}


/// A number below 253, encoded, reads back as itself from its first byte,
/// as the packet reader reads a sequence number.
pub proof fn law_char_round_trip(n: u32)
    requires
        n < MAX1,
    ensures
        eo_char_value(eo_number_bytes(n as int).subrange(0, 1)) == n,
{
    let b = eo_number_bytes(n as int);
    assert(n as int % MAX3 as int == n);
    assert(n as int % MAX3 as int % MAX2 as int == n);
    assert(n as int % MAX3 as int % MAX2 as int % MAX1 as int == n);
    assert(b[0] == (n + 1) as u8);
    assert(b.subrange(0, 1)[0] == b[0]);
}

} // verus!
