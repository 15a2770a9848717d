use vstd::prelude::*;
use crate::error::DexloanError;
use crate::fees::{fee_of, share_fee, shares_fee_sum, split_creator_fees, split_succeeds, sum_of};
use crate::key::AccountKey;

verus! {

/// The address of the metadata account that the token metadata program
/// derives for a mint.
pub uninterp spec fn metadata_address_of(mint: Seq<u8>) -> Seq<u8>;

/// Relies on `mpl_token_metadata::pda::find_metadata_account`: the address of
/// the metadata account is derived from the mint's bytes alone. That function
/// panics only when none of the 255 bump seeds gives an address off the
/// curve, an event of negligible probability that no input can be chosen
/// to cause.
#[verifier::external_body]
fn find_metadata_address(mint: &AccountKey) -> (r: AccountKey)
    ensures
        r@ == metadata_address_of(mint@),
{
    let mint = anchor_lang::prelude::Pubkey::new_from_array(mint.bytes);
    let (address, _bump) = mpl_token_metadata::pda::find_metadata_account(&mint);
    AccountKey { bytes: address.to_bytes() }
}

/// A creator named in a token's metadata, with its percentage of royalties.
#[derive(Clone, Copy, Debug)]
pub struct Creator {
    pub address: AccountKey,
    pub share: u8,
}

/// What the asset registry records of a token: its mint, its royalty rate and
/// its creators.
#[derive(Clone, Debug)]
pub struct AssetMetadata {
    pub mint: AccountKey,
    pub seller_fee_basis_points: u16,
    pub creators: Option<Vec<Creator>>,
    /// The collection the token belongs to, if it names one.
    pub collection: Option<AccountKey>,
}

impl AssetMetadata {
    /// The creators' percentage shares, in order; none when no creator is named.
    pub open spec fn shares(self) -> Seq<u8> {
        match self.creators {
            None => Seq::empty(),
            Some(c) => c@.map_values(|c: Creator| c.share),
        }
    }

    /// The creators, in order; none when no creator is named.
    pub open spec fn creator_list(self) -> Seq<Creator> {
        match self.creators {
            None => Seq::empty(),
            Some(c) => c@,
        }
    }
}

/// The outcome of [`assert_metadata_valid`] for a metadata account at
/// `address` whose data is empty or not, for the mint whose derived metadata
/// address is `derived`.
pub open spec fn metadata_check(derived: Seq<u8>, address: Seq<u8>, data_is_empty: bool) -> Result<
    (),
    DexloanError,
> {
    if derived != address {
        Err(DexloanError::DerivedKeyInvalid)
    } else if data_is_empty {
        Err(DexloanError::MetadataDoesntExist)
    } else {
        Ok(())
    }
}

/// Checks a metadata account against the address derived from its mint:
/// the account must be the derived one, and must hold data.
pub fn check_metadata_address(
    derived: &AccountKey,
    address: &AccountKey,
    data_is_empty: bool,
) -> (r: Result<(), DexloanError>)
    ensures
        r == metadata_check(derived@, address@, data_is_empty),
{
    if !derived.same(address) {
        Err(DexloanError::DerivedKeyInvalid)
    } else if data_is_empty {
        Err(DexloanError::MetadataDoesntExist)
    } else {
        Ok(())
    }
}

/// Checks that the metadata account at `address` is the one derived from
/// `mint`, and that it holds data.
pub fn assert_metadata_valid(address: &AccountKey, data_is_empty: bool, mint: &AccountKey) -> (r:
    Result<(), DexloanError>)
    ensures
        r == metadata_check(metadata_address_of(mint@), address@, data_is_empty),
{
    let derived = find_metadata_address(mint);
    check_metadata_address(&derived, address, data_is_empty)
}

/// A lamport payment from one wallet to another.
#[derive(Clone, Copy, Debug)]
pub struct Payment {
    pub from: AccountKey,
    pub to: AccountKey,
    pub amount: u64,
}

/// The royalties owed on a sale, and what is left for the seller.
#[derive(Clone, Debug)]
pub struct CreatorFees {
    /// One payment per creator whose cut is not zero, from the fee payer.
    pub payments: Vec<Payment>,
    /// What the seller receives: the price less the royalties paid.
    pub remaining: u64,
}

/// The royalty payments made to `creators` out of `fees`, skipping cuts of
/// zero lamports.
pub open spec fn royalty_payments(payer: Seq<u8>, creators: Seq<Creator>, fees: Seq<u64>) -> Seq<
    (Seq<u8>, Seq<u8>, u64),
>
    decreases creators.len(),
{
    if creators.len() == 0 || fees.len() == 0 {
        Seq::empty()
    } else {
        let rest = royalty_payments(payer, creators.drop_last(), fees.drop_last());
        if fees.last() == 0 {
            rest
        } else {
            rest.push((payer, creators.last().address@, fees.last()))
        }
    }
}

/// The plain view of a payment: payer, payee and amount.
pub open spec fn payment_view(p: Payment) -> (Seq<u8>, Seq<u8>, u64) {
    (p.from@, p.to@, p.amount)
}

/// Whether the registry record fits the sale: it describes `mint`, its
/// account is the one derived from `mint` and holds data.
pub open spec fn metadata_accepted(
    metadata: AssetMetadata,
    mint: Seq<u8>,
    address: Seq<u8>,
    data_is_empty: bool,
) -> bool {
    &&& metadata.mint@ == mint
    &&& metadata_check(metadata_address_of(mint), address, data_is_empty) is Ok
}

/// Why paying royalties on a sale of `amount` is refused, if it is.
pub open spec fn creator_fees_refusal(
    amount: u64,
    mint: Seq<u8>,
    address: Seq<u8>,
    data_is_empty: bool,
    metadata: AssetMetadata,
) -> Option<DexloanError> {
    if metadata.mint@ != mint {
        Some(DexloanError::InvalidMint)
    } else if metadata_check(metadata_address_of(mint), address, data_is_empty) is Err {
        Some(metadata_check(metadata_address_of(mint), address, data_is_empty)->Err_0)
    } else if !split_succeeds(amount as nat, metadata.seller_fee_basis_points as nat, metadata.shares()) {
        Some(DexloanError::NumericalOverflow)
    } else {
        None
    }
}

/// What the seller keeps of a sale of `amount`: the price less the creators' cuts.
pub open spec fn seller_proceeds(amount: u64, metadata: AssetMetadata) -> nat {
    let total_fee = fee_of(amount as nat, metadata.seller_fee_basis_points as nat);
    (amount - shares_fee_sum(total_fee, metadata.shares())) as nat
}

/// The royalty payments on a sale of `amount`, from `payer` to each creator
/// whose cut is not zero.
pub open spec fn creator_payments(payer: Seq<u8>, amount: u64, metadata: AssetMetadata) -> Seq<
    (Seq<u8>, Seq<u8>, u64),
> {
    let total_fee = fee_of(amount as nat, metadata.seller_fee_basis_points as nat);
    let cuts = Seq::new(
        metadata.shares().len(),
        |i: int| share_fee(total_fee, metadata.shares()[i] as nat) as u64,
    );
    royalty_payments(payer, metadata.creator_list(), cuts)
}

/// Pays the creators' royalties on a sale of `amount` lamports, from
/// `fee_payer`, as the token's registry record sets them, and returns what is
/// left for the seller. The record must describe `mint`, and its account at
/// `metadata_address` must be the one derived from `mint` and hold data.
pub fn pay_creator_fees(
    amount: u64,
    mint: &AccountKey,
    metadata_address: &AccountKey,
    metadata_is_empty: bool,
    metadata: &AssetMetadata,
    fee_payer: &AccountKey,
) -> (r: Result<CreatorFees, DexloanError>)
    ensures
        metadata.mint@ != mint@ ==> r == Err::<CreatorFees, DexloanError>(
            DexloanError::InvalidMint,
        ),
        metadata.mint@ == mint@ ==> match metadata_check(
            metadata_address_of(mint@),
            metadata_address@,
            metadata_is_empty,
        ) {
            Err(e) => r == Err::<CreatorFees, DexloanError>(e),
            Ok(_) => (r is Ok <==> split_succeeds(
                amount as nat,
                metadata.seller_fee_basis_points as nat,
                metadata.shares(),
            )) && (r is Err ==> r->Err_0 == DexloanError::NumericalOverflow),
        },
        creator_fees_refusal(amount, mint@, metadata_address@, metadata_is_empty, *metadata) matches Some(
            e,
        ) ==> r == Err::<CreatorFees, DexloanError>(e),
        creator_fees_refusal(amount, mint@, metadata_address@, metadata_is_empty, *metadata) is None
            ==> r is Ok,
        r matches Ok(fees) ==> fees.remaining == seller_proceeds(amount, *metadata)
            && fees.payments@.map_values(|p: Payment| payment_view(p)) == creator_payments(
            fee_payer@,
            amount,
            *metadata,
        ),
        r matches Ok(fees) ==> {
            let total_fee = fee_of(amount as nat, metadata.seller_fee_basis_points as nat);
            let cuts = Seq::new(
                metadata.shares().len(),
                |i: int| share_fee(total_fee, metadata.shares()[i] as nat) as u64,
            );
            &&& fees.remaining == amount - shares_fee_sum(total_fee, metadata.shares())
            &&& fees.payments@.map_values(|p: Payment| payment_view(p)) == royalty_payments(
                fee_payer@,
                metadata.creator_list(),
                cuts,
            )
            &&& fees.remaining + sum_of(fees.payments@.map_values(|p: Payment| p.amount))
                == amount
        },
{
    if !metadata.mint.same(mint) {
        return Err(DexloanError::InvalidMint);
    }
    match assert_metadata_valid(metadata_address, metadata_is_empty, mint) {
        Err(e) => {
            return Err(e);
        },
        Ok(()) => {},
    }
    let empty: Vec<Creator> = Vec::new();
    let creators = match &metadata.creators {
        Some(c) => c,
        None => &empty,
    };
    let mut shares: Vec<u8> = Vec::new();
    let mut i: usize = 0;
    while i < creators.len()
        invariant
            0 <= i <= creators@.len(),
            creators@ == metadata.creator_list(),
            shares@ == metadata.shares().take(i as int),
            metadata.shares().len() == creators@.len(),
        decreases creators@.len() - i,
    {
        shares.push(creators[i].share);
        i = i + 1;
        proof {
            assert(shares@ =~= metadata.shares().take(i as int));
        }
    }
    proof {
        assert(shares@ =~= metadata.shares());
    }
    let split = match split_creator_fees(amount, metadata.seller_fee_basis_points, &shares) {
        Ok(s) => s,
        Err(e) => {
            return Err(e);
        },
    };
    let ghost total_fee = fee_of(amount as nat, metadata.seller_fee_basis_points as nat);
    let ghost cuts = Seq::new(
        metadata.shares().len(),
        |i: int| share_fee(total_fee, metadata.shares()[i] as nat) as u64,
    );
    proof {
        assert(split.creator_fees@ =~= cuts);
    }
    let mut payments: Vec<Payment> = Vec::new();
    let mut j: usize = 0;
    while j < creators.len()
        invariant
            0 <= j <= creators@.len(),
            creators@ == metadata.creator_list(),
            split.creator_fees@ == cuts,
            cuts.len() == creators@.len(),
            payments@.map_values(|p: Payment| payment_view(p)) == royalty_payments(
                fee_payer@,
                creators@.take(j as int),
                cuts.take(j as int),
            ),
            sum_of(payments@.map_values(|p: Payment| p.amount)) == sum_of(cuts.take(j as int)),
        decreases creators@.len() - j,
    {
        let fee = split.creator_fees[j];
        let ghost before = payments@;
        proof {
            assert(creators@.take(j + 1).drop_last() =~= creators@.take(j as int));
            assert(cuts.take(j + 1).drop_last() =~= cuts.take(j as int));
        }
        if fee > 0 {
            payments.push(Payment { from: *fee_payer, to: creators[j].address, amount: fee });
            proof {
                assert(payments@.map_values(|p: Payment| payment_view(p)).drop_last()
                    =~= before.map_values(|p: Payment| payment_view(p)));
                assert(payments@.map_values(|p: Payment| p.amount).drop_last()
                    =~= before.map_values(|p: Payment| p.amount));
            }
        }
        j = j + 1;
    }
    proof {
        assert(creators@.take(j as int) =~= creators@);
        assert(cuts.take(j as int) =~= cuts);
    }
    Ok(CreatorFees { payments, remaining: split.remaining })
}

} // verus!
