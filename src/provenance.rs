use vstd::prelude::*;

use crate::address::Address;
use crate::error::WinError;

verus! {

/// One entry of a token's creator list.
#[derive(Clone, Copy, Debug)]
pub struct Creator {
    pub address: Address,
    pub verified: bool,
    pub share: u8,
}

/// What provenance checks read of a token's metadata.
#[derive(Clone, Debug)]
pub struct NftMetadata {
    /// The token the metadata describes.
    pub mint: Address,
    pub creators: Option<Vec<Creator>>,
}

/// The creator list of the metadata, empty when it has none.
pub open spec fn creators_of(metadata: NftMetadata) -> Seq<Creator> {
    match metadata.creators {
        Some(v) => v@,
        None => Seq::empty(),
    }
}

/// Some verified creator of the list is `wanted`.
pub open spec fn has_verified_creator(creators: Seq<Creator>, wanted: Address) -> bool {
    exists|i: int| 0 <= i < creators.len() && #[trigger] creators[i].verified && creators[i].address@ == wanted@
}

/// The creator is verified and is the `j`-th freely creator.
pub open spec fn is_freely_creator(c: Creator, freely: [Address; 3], j: int) -> bool {
    c.verified && c.address@ == freely[j]@
}

/// The first freely category that one creator stands for.
pub open spec fn creator_category(c: Creator, freely: [Address; 3]) -> Option<int> {
    if is_freely_creator(c, freely, 0) {
        Some(0)
    } else if is_freely_creator(c, freely, 1) {
        Some(1)
    } else if is_freely_creator(c, freely, 2) {
        Some(2)
    } else {
        None
    }
}

/// The freely category of a creator list: that of its first creator that
/// stands for one.
pub open spec fn freely_category(creators: Seq<Creator>, freely: [Address; 3]) -> Option<int>
    decreases creators.len(),
{
    if creators.len() == 0 {
        None
    } else {
        match creator_category(creators[0], freely) {
            Some(j) => Some(j),
            None => freely_category(creators.drop_first(), freely),
        }
    }
}

/// Whether a verified creator of the list is `wanted`.
pub fn verified_creator_present(creators: &Vec<Creator>, wanted: &Address) -> (r: bool)
    ensures
        r == has_verified_creator(creators@, *wanted),
{
    let mut i: usize = 0;
    while i < creators.len()
        invariant
            0 <= i <= creators@.len(),
            forall|k: int| 0 <= k < i ==> !(#[trigger] creators@[k].verified && creators@[k].address@ == wanted@),
        decreases creators@.len() - i,
    {
        if creators[i].verified && creators[i].address.same(wanted) {
            assert(creators@[i as int].verified);
            return true;
        }
        i = i + 1;
    }
    false
}

/// The freely category of a creator list.
pub fn freely_creator_index(creators: &Vec<Creator>, freely: &[Address; 3]) -> (r: Option<usize>)
    ensures
        match r {
            Some(j) => freely_category(creators@, *freely) == Some(j as int) && j < 3,
            None => freely_category(creators@, *freely) is None,
        },
{
    let mut i: usize = 0;
    assert(creators@.skip(0) =~= creators@);
    while i < creators.len()
        invariant
            0 <= i <= creators@.len(),
            freely_category(creators@, *freely) == freely_category(creators@.skip(i as int), *freely),
        decreases creators@.len() - i,
    {
        let c = creators[i];
        assert(creators@.skip(i as int)[0] == c);
        assert(creators@.skip(i as int).len() > 0);
        assert(creators@.skip(i as int).drop_first() =~= creators@.skip(i + 1));
        let mut j: usize = 0;
        while j < 3
            invariant
                0 <= j <= 3,
                0 <= i < creators@.len(),
                c == creators@.skip(i as int)[0],
                creators@.skip(i as int).len() > 0,
                freely_category(creators@, *freely) == freely_category(creators@.skip(i as int), *freely),
                forall|k: int| 0 <= k < j ==> !is_freely_creator(c, *freely, k),
            decreases 3 - j,
        {
            if c.verified && c.address.same(&freely[j]) {
                assert(is_freely_creator(c, *freely, j as int));
                return Some(j);
            }
            j = j + 1;
        }
        i = i + 1;
    }
    None
}

/// The metadata refusal shared by both provenance checks: it could not be
/// read, or it describes another token.
pub open spec fn metadata_error(metadata: Option<NftMetadata>, mint: Address) -> bool {
    match metadata {
        Some(m) => m.mint@ != mint@,
        None => true,
    }
}

/// Checks that `mint` is a prize-category token: readable metadata for this
/// token with the configured creator among its verified creators.
pub fn check_wings_provenance(metadata: &Option<NftMetadata>, mint: &Address, wings_creator: &Address) -> (r: Result<(), WinError>)
    ensures
        metadata_error(*metadata, *mint) ==> r == Err::<(), WinError>(WinError::WrongMetadata),
        !metadata_error(*metadata, *mint) ==> (r is Ok <==> has_verified_creator(creators_of(metadata->0), *wings_creator)),
        !metadata_error(*metadata, *mint) && r is Err ==> r == Err::<(), WinError>(WinError::NoWingsNft),
{
    match metadata {
        None => Err(WinError::WrongMetadata),
        Some(m) => {
            if !m.mint.same(mint) {
                return Err(WinError::WrongMetadata);
            }
            match &m.creators {
                None => Err(WinError::NoWingsNft),
                Some(creators) => {
                    if verified_creator_present(creators, wings_creator) {
                        Ok(())
                    } else {
                        Err(WinError::NoWingsNft)
                    }
                },
            }
        },
    }
}

/// Checks that `mint` is a freely token and returns its category: readable
/// metadata for this token whose creators include a verified freely creator.
pub fn check_freely_provenance(metadata: &Option<NftMetadata>, mint: &Address, freely: &[Address; 3]) -> (r: Result<usize, WinError>)
    ensures
        metadata_error(*metadata, *mint) ==> r == Err::<usize, WinError>(WinError::WrongMetadata),
        !metadata_error(*metadata, *mint) ==> match freely_category(creators_of(metadata->0), *freely) {
            Some(j) => r == Ok::<usize, WinError>(j as usize) && 0 <= j < 3,
            None => r == Err::<usize, WinError>(WinError::NoFreelyTicketNft),
        },
{
    match metadata {
        None => Err(WinError::WrongMetadata),
        Some(m) => {
            if !m.mint.same(mint) {
                return Err(WinError::WrongMetadata);
            }
            match &m.creators {
                None => Err(WinError::NoFreelyTicketNft),
                Some(creators) => {
                    match freely_creator_index(creators, freely) {
                        Some(j) => Ok(j),
                        None => Err(WinError::NoFreelyTicketNft),
                    }
                },
            }
        },
    }
}

} // verus!
