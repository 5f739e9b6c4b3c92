//! Output scripts of payment transactions.

use vstd::prelude::*;

verus! {

/// Length in bytes of a pay-to-public-key-hash script.
pub const P2PKH_LEN: usize = 25;

/// Whether `script` is a pay-to-public-key-hash script:
/// `OP_DUP OP_HASH160 <20 bytes> OP_EQUALVERIFY OP_CHECKSIG`.
pub open spec fn is_p2pkh(script: Seq<u8>) -> bool {
    &&& script.len() == 25
    &&& script[0] == 0x76
    &&& script[1] == 0xa9
    &&& script[2] == 0x14
    &&& script[23] == 0x88
    &&& script[24] == 0xac
}

/// The public-key hash that a pay-to-public-key-hash script locks to.
pub open spec fn p2pkh_hash(script: Seq<u8>) -> Seq<u8> {
    script.subrange(3, 23)
}

/// Tests whether `script` is pay-to-public-key-hash.
pub fn script_is_p2pkh(script: &[u8]) -> (r: bool)
    ensures
        r == is_p2pkh(script@),
{
    script.len() == P2PKH_LEN && script[0] == 0x76 && script[1] == 0xa9 && script[2] == 0x14
        && script[23] == 0x88 && script[24] == 0xac
}

/// The pay-to-public-key-hash script that locks to `hash`.
pub open spec fn p2pkh_script(hash: Seq<u8>) -> Seq<u8> {
    seq![0x76u8, 0xa9u8, 0x14u8] + hash + seq![0x88u8, 0xacu8]
}

/// The script made for a hash of twenty bytes is pay-to-public-key-hash and
/// locks to that hash.
pub proof fn lemma_p2pkh_script(hash: Seq<u8>)
    requires
        hash.len() == 20,
    ensures
        is_p2pkh(p2pkh_script(hash)),
        p2pkh_hash(p2pkh_script(hash)) == hash,
{
    assert(p2pkh_hash(p2pkh_script(hash)) =~= hash);
}

/// Makes the pay-to-public-key-hash script that locks to `hash`.
pub fn make_p2pkh_script(hash: &[u8]) -> (script: Vec<u8>)
    ensures
        script@ == p2pkh_script(hash@),
{
    let mut script: Vec<u8> = Vec::new();
    script.push(0x76);
    script.push(0xa9);
    script.push(0x14);
    script.extend_from_slice(hash);
    script.push(0x88);
    script.push(0xac);
    assert(script@ =~= p2pkh_script(hash@));
    script
}

} // verus!
