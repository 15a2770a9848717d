use vstd::prelude::*;
use crate::error::DexloanError;
use crate::key::AccountKey;

verus! {

/// A staking arrangement of a collection: where stakes go, and at what rate.
#[derive(Clone, Copy, Debug)]
pub struct Staking {
    pub vault: AccountKey,
    pub basis_points: u32,
}

/// A collection registered with the protocol.
#[derive(Clone, Copy, Debug)]
pub struct Collection {
    /// Who registered it.
    pub authority: AccountKey,
    /// The collection's mint.
    pub collection: AccountKey,
    pub staking: Option<Staking>,
    pub bump: u8,
}

impl Collection {
    /// Bytes that a collection account takes on chain.
    pub fn space() -> (r: usize)
        ensures
            r == 8 + 32 + 32 + 4 + 32 + 4 + 1 + 128,
    {
        8 + 32 + 32 + 4 + 32 + 4 + 1 + 128
    }
}

/// The bytes of the one wallet allowed to register collections.
pub open spec fn admin_key() -> Seq<u8> {
    seq![
        137u8, 217, 136, 104, 154, 197, 166, 215, 253, 95, 215, 10, 212, 24, 202, 173,
        71, 102, 20, 229, 230, 43, 230, 59, 151, 91, 220, 78, 161, 198, 176, 45,
    ]
}

/// The one wallet allowed to register collections.
pub fn collection_admin() -> (r: AccountKey)
    ensures
        r@ == admin_key(),
{
    let r = AccountKey::new(
        [
            137u8, 217, 136, 104, 154, 197, 166, 215, 253, 95, 215, 10, 212, 24, 202, 173,
            71, 102, 20, 229, 230, 43, 230, 59, 151, 91, 220, 78, 161, 198, 176, 45,
        ],
    );
    proof {
        assert(r@ =~= admin_key());
    }
    r
}

/// The admin registers a collection by its mint; nobody else may.
pub fn handle_init_collection(authority: &AccountKey, collection_mint: &AccountKey, bump: u8) -> (r:
    Result<Collection, DexloanError>)
    ensures
        authority@ != admin_key() ==> r == Err::<Collection, DexloanError>(
            DexloanError::IdentityMismatch,
        ),
        authority@ == admin_key() ==> r == Ok::<Collection, DexloanError>(
            (Collection {
                authority: *authority,
                collection: *collection_mint,
                staking: None,
                bump,
            }),
        ),
{
    let admin = collection_admin();
    if !authority.same(&admin) {
        return Err(DexloanError::IdentityMismatch);
    }
    Ok(Collection { authority: *authority, collection: *collection_mint, staking: None, bump })
}

} // verus!
