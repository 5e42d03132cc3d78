use vstd::prelude::*;

use crate::address::Address;
use crate::state::{UserDetails, WingsType};

verus! {

/// The Keccak-256 digest of a byte string.
pub uninterp spec fn keccak256(data: Seq<u8>) -> Seq<u8>;

/// Relies on `solana_program::keccak::hashv` (re-exported by anchor_lang):
/// the Keccak-256 digest of the concatenation of the given slices.
#[verifier::external_body]
fn keccak_hashv(first: &[u8], second: &[u8]) -> (r: [u8; 32])
    ensures
        r@ == keccak256(first@ + second@),
{
    anchor_lang::solana_program::keccak::hashv(&[first, second]).0
}

/// Lexicographic order on byte strings of one length: at the first position
/// where they differ, `a` holds the smaller byte (equal strings are ordered).
pub open spec fn bytes_le(a: Seq<u8>, b: Seq<u8>) -> bool {
    forall|i: int|
        0 <= i < a.len() && #[trigger] a[i] != b[i] && (forall|j: int| 0 <= j < i ==> a[j] == b[j])
            ==> a[i] < b[i]
}

/// One level of a sorted-pair Merkle path: the lesser node is hashed first.
pub open spec fn merkle_step(node: Seq<u8>, sibling: Seq<u8>) -> Seq<u8> {
    if bytes_le(node, sibling) {
        keccak256(node + sibling)
    } else {
        keccak256(sibling + node)
    }
}

/// The root reached from `leaf` along `proof`.
pub open spec fn merkle_fold(leaf: Seq<u8>, proof: Seq<[u8; 32]>) -> Seq<u8>
    decreases proof.len(),
{
    if proof.len() == 0 {
        leaf
    } else {
        merkle_step(merkle_fold(leaf, proof.drop_last()), proof.last()@)
    }
}

/// Domain tag of an organizer's allow-list leaf: the bytes of "win-whitelist-user".
pub open spec fn whitelist_user_tag() -> Seq<u8> {
    seq![119u8, 105, 110, 45, 119, 104, 105, 116, 101, 108, 105, 115, 116, 45, 117, 115, 101, 114]
}

/// The allow-list leaf of an organizer.
pub open spec fn organizer_leaf(organizer: Seq<u8>) -> Seq<u8> {
    keccak256(whitelist_user_tag() + organizer)
}

/// Whether an organizer may create a game of the given tier: a tiered game
/// needs no proof; an untiered one needs a valid allow-list proof.
pub open spec fn may_create_game(proof: Seq<[u8; 32]>, organizer: Address, root: [u8; 32], wings_type: WingsType) -> bool {
    wings_type != WingsType::NoWings || merkle_fold(organizer_leaf(organizer@), proof) == root@
}

fn whitelist_user_tag_bytes() -> (r: [u8; 18])
    ensures
        r@ == whitelist_user_tag(),
{
    let r: [u8; 18] = [119u8, 105, 110, 45, 119, 104, 105, 116, 101, 108, 105, 115, 116, 45, 117, 115, 101, 114];
    assert(r@ =~= whitelist_user_tag());
    r
}

/// Lexicographic `a <= b` on 32-byte strings.
pub fn bytes32_le(a: &[u8; 32], b: &[u8; 32]) -> (r: bool)
    ensures
        r == bytes_le(a@, b@),
{
    let mut i: usize = 0;
    while i < 32
        invariant
            0 <= i <= 32,
            forall|j: int| 0 <= j < i ==> a@[j] == b@[j],
        decreases 32 - i,
    {
        if a[i] != b[i] {
            let r = a[i] < b[i];
            assert forall|k: int|
                0 <= k < a@.len() && #[trigger] a@[k] != b@[k] && (forall|j: int| 0 <= j < k ==> a@[j] == b@[j])
                implies (a@[k] < b@[k]) == r by {
                if k > i {
                    assert(a@[i as int] == b@[i as int]);
                }
            }
            return r;
        }
        i = i + 1;
    }
    true
}

/// Returns true when `leaf` is proved by `proof` to belong to the Merkle tree
/// whose root is `root`; each pair of siblings is hashed in sorted order.
pub fn merkle_tree_verify(proof: Vec<[u8; 32]>, root: [u8; 32], leaf: [u8; 32]) -> (r: bool)
    ensures
        r == (merkle_fold(leaf@, proof@) == root@),
{
    let mut computed: [u8; 32] = leaf;
    let mut i: usize = 0;
    while i < proof.len()
        invariant
            0 <= i <= proof@.len(),
            computed@ == merkle_fold(leaf@, proof@.take(i as int)),
        decreases proof@.len() - i,
    {
        let element: [u8; 32] = proof[i];
        if bytes32_le(&computed, &element) {
            computed = keccak_hashv(computed.as_slice(), element.as_slice());
        } else {
            computed = keccak_hashv(element.as_slice(), computed.as_slice());
        }
        assert(proof@.take(i + 1).drop_last() =~= proof@.take(i as int));
        i = i + 1;
    }
    assert(proof@.take(proof@.len() as int) =~= proof@);
    let mut j: usize = 0;
    while j < 32
        invariant
            0 <= j <= 32,
            computed@ == merkle_fold(leaf@, proof@),
            forall|k: int| 0 <= k < j ==> computed@[k] == root@[k],
        decreases 32 - j,
    {
        if computed[j] != root[j] {
            assert(computed@[j as int] != root@[j as int]);
            return false;
        }
        j = j + 1;
    }
    assert(computed@ =~= root@);
    true
}

/// The allow-list leaf of an organizer, as bytes.
pub fn organizer_leaf_bytes(organizer: &Address) -> (r: [u8; 32])
    ensures
        r@ == organizer_leaf(organizer@),
{
    let tag = whitelist_user_tag_bytes();
    keccak_hashv(tag.as_slice(), organizer.bytes.as_slice())
}

impl UserDetails {
    /// Whether the organizer may create a game: a valid allow-list proof is
    /// needed only when no prize tier is declared.
    pub fn verify_create_game(&self, proof: Vec<[u8; 32]>, organizer_wallet: Address, root: [u8; 32], wings_type: WingsType) -> (r: bool)
        ensures
            r == may_create_game(proof@, organizer_wallet, root, wings_type),
    {
        match wings_type {
            WingsType::NoWings => {
                let node = organizer_leaf_bytes(&organizer_wallet);
                merkle_tree_verify(proof, root, node)
            },
            _ => true,
        }
    }
}

} // verus!
