use vstd::prelude::*;

verus! {

/// `std::io::Error`, the error of the borsh codec. Nothing in this crate
/// looks inside it.
#[verifier::external_type_specification]
#[verifier::external_body]
pub struct ExIoError(std::io::Error);

/// The number that eight bytes spell, least significant byte first.
pub open spec fn u64_from_le(s: Seq<u8>) -> u64
    recommends
        s.len() == 8,
{
    (s[0] as int + s[1] as int * 0x100 + s[2] as int * 0x1_0000 + s[3] as int * 0x100_0000
        + s[4] as int * 0x1_0000_0000 + s[5] as int * 0x100_0000_0000 + s[6] as int
        * 0x1_0000_0000_0000 + s[7] as int * 0x100_0000_0000_0000) as u64
}

/// The eight bytes of a number, least significant byte first.
pub open spec fn u64_to_le(v: u64) -> Seq<u8> {
    seq![
        (v % 0x100) as u8,
        (v / 0x100 % 0x100) as u8,
        (v / 0x1_0000 % 0x100) as u8,
        (v / 0x100_0000 % 0x100) as u8,
        (v / 0x1_0000_0000 % 0x100) as u8,
        (v / 0x100_0000_0000 % 0x100) as u8,
        (v / 0x1_0000_0000_0000 % 0x100) as u8,
        (v / 0x100_0000_0000_0000 % 0x100) as u8,
    ]
}

/// Decoding what was encoded gives the number back.
pub proof fn lemma_u64_le_round_trip(v: u64)
    ensures
        u64_to_le(v).len() == 8,
        u64_from_le(u64_to_le(v)) == v,
{
    assert(v == (v % 0x100) + (v / 0x100 % 0x100) * 0x100 + (v / 0x1_0000 % 0x100) * 0x1_0000 + (v
        / 0x100_0000 % 0x100) * 0x100_0000 + (v / 0x1_0000_0000 % 0x100) * 0x1_0000_0000 + (v
        / 0x100_0000_0000 % 0x100) * 0x100_0000_0000 + (v / 0x1_0000_0000_0000 % 0x100)
        * 0x1_0000_0000_0000 + (v / 0x100_0000_0000_0000 % 0x100) * 0x100_0000_0000_0000)
        by (bit_vector);
}

/// Encoding what eight bytes spell gives the bytes back.
pub proof fn lemma_u64_le_bytes_round_trip(s: Seq<u8>)
    requires
        s.len() == 8,
    ensures
        u64_to_le(u64_from_le(s)) == s,
{
    let (b0, b1, b2, b3, b4, b5, b6, b7) = (s[0], s[1], s[2], s[3], s[4], s[5], s[6], s[7]);
    let v = u64_from_le(s);
    assert(v % 0x100 == b0 && v / 0x100 % 0x100 == b1 && v / 0x1_0000 % 0x100 == b2 && v
        / 0x100_0000 % 0x100 == b3 && v / 0x1_0000_0000 % 0x100 == b4 && v / 0x100_0000_0000
        % 0x100 == b5 && v / 0x1_0000_0000_0000 % 0x100 == b6 && v / 0x100_0000_0000_0000 % 0x100
        == b7) by (bit_vector)
        requires
            v == b0 as int + b1 as int * 0x100 + b2 as int * 0x1_0000 + b3 as int * 0x100_0000
                + b4 as int * 0x1_0000_0000 + b5 as int * 0x100_0000_0000 + b6 as int
                * 0x1_0000_0000_0000 + b7 as int * 0x100_0000_0000_0000,
    ;
}

/// `borsh::from_slice` at `u64`. Not proved: that it accepts exactly eight
/// bytes, refuses shorter and longer inputs, and reads the eight least
/// significant byte first.
#[verifier::external_body]
pub(crate) fn u64_from_slice(data: &[u8]) -> (r: Result<u64, std::io::Error>)
    ensures
        r is Ok <==> data@.len() == 8,
        r matches Ok(v) ==> v == u64_from_le(data@),
{
    borsh::from_slice::<u64>(data)
}

/// `borsh::to_vec` at `u64`. Not proved: that it never fails, and that it
/// returns the eight bytes of the number, least significant byte first.
#[verifier::external_body]
pub(crate) fn u64_to_vec(value: u64) -> (r: Result<Vec<u8>, std::io::Error>)
    ensures
        r is Ok,
        r matches Ok(bytes) ==> bytes@ == u64_to_le(value),
{
    borsh::to_vec(&value)
}

/// `borsh::from_slice` at `u8`. Not proved: that it accepts exactly one
/// byte, refuses shorter and longer inputs, and returns that byte.
#[verifier::external_body]
pub(crate) fn u8_from_slice(data: &[u8]) -> (r: Result<u8, std::io::Error>)
    ensures
        r is Ok <==> data@.len() == 1,
        r matches Ok(v) ==> v == data@[0],
{
    borsh::from_slice::<u8>(data)
}

} // verus!
