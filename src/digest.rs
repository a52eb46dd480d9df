use vstd::prelude::*;

verus! {

/// The SHA-256 digest of a byte string.
pub uninterp spec fn sha256_of(data: Seq<u8>) -> Seq<u8>;

/// Relies on soroban_sdk's `Crypto::sha256`: the SHA-256 digest of `data`, which
/// depends on the bytes alone. It runs on a fresh default host, whose fixed budget
/// a long input would exhaust (a panic), so inputs are kept short.
#[verifier::external_body]
fn sha256(data: &Vec<u8>) -> (r: [u8; 32])
    requires
        data@.len() <= 1024,
    ensures
        r@ == sha256_of(data@),
{
    let env = soroban_sdk::Env::default();
    let bytes = soroban_sdk::Bytes::from_slice(&env, data.as_slice());
    env.crypto().sha256(&bytes).to_array()
}

/// The bytes hashed to name seat `index`: the tag `zkpoker_player_` followed by the
/// index in big-endian order.
pub open spec fn seat_preimage(index: u32) -> Seq<u8> {
    seq![122u8, 107, 112, 111, 107, 101, 114, 95, 112, 108, 97, 121, 101, 114, 95]
        + Seq::new(4, |k: int| (index >> ((8 * (3 - k)) as u32)) as u8)
}

/// A stable 32-byte identifier for seat `index`, handed to the proof backend.
pub fn player_id_bytes32(index: u32) -> (r: [u8; 32])
    ensures
        r@ == sha256_of(seat_preimage(index)),
{
    let mut pre: Vec<u8> = vec![122u8, 107, 112, 111, 107, 101, 114, 95, 112, 108, 97, 121, 101, 114, 95];
    let mut k: u32 = 0;
    while k < 4
        invariant
            0 <= k <= 4,
            pre@ == seq![122u8, 107, 112, 111, 107, 101, 114, 95, 112, 108, 97, 121, 101, 114, 95]
                + Seq::new(k as nat, |j: int| (index >> ((8 * (3 - j)) as u32)) as u8),
        decreases 4 - k,
    {
        let b = (index >> (8 * (3 - k))) as u8;
        pre.push(b);
        k = k + 1;
        assert(pre@ =~= seq![122u8, 107, 112, 111, 107, 101, 114, 95, 112, 108, 97, 121, 101, 114, 95]
            + Seq::new(k as nat, |j: int| (index >> ((8 * (3 - j)) as u32)) as u8));
    }
    assert(pre@ =~= seat_preimage(index));
    sha256(&pre)
}

} // verus!
