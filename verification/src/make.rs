use vstd::prelude::*;
use crate::state::{Address, LamportMove, Offer, Party, QuidError};

verus! {

/// What `make_offer_for_nft` reads and writes of its accounts.
#[derive(Clone, Copy, Debug)]
pub struct Make {
    /// The offer account being created.
    pub offer: Offer,
    /// The address of the maker, who signs and pays.
    pub offer_maker: Address,
    /// The mint of the NFT the offer is for.
    pub nft_mint: Address,
    /// The cluster's unix time.
    pub clock: i64,
}

/// The offer as `make_offer_for_nft` records it before checking the validity.
pub open spec fn recorded(ctx: Make, nft_offer_amount: u64) -> Offer {
    Offer {
        maker: ctx.offer_maker,
        offer_made_for: ctx.nft_mint,
        offer_amount: nft_offer_amount,
        offer_expired: false,
        ..ctx.offer
    }
}

/// The deposit that escrows an offer: the maker's lamports into the offer account.
pub open spec fn deposit(nft_offer_amount: u64) -> LamportMove {
    LamportMove { from: Party::OfferMaker, to: Party::Offer, amount: nft_offer_amount }
}

/// The accounts after `make_offer_for_nft` succeeded.
pub open spec fn made(ctx: Make, nft_offer_amount: u64, offer_valid: i64) -> Make {
    Make {
        offer: Offer { offer_valid_till: Some(offer_valid), ..recorded(ctx, nft_offer_amount) },
        ..ctx
    }
}

/// Makes a binding offer of `nft_offer_amount` lamports for the NFT, valid
/// until the unix time `offer_valid`, which must lie in the future. On success
/// it returns the deposit that the system program must make into the offer
/// account.
pub fn make_offer_for_nft(ctx: &mut Make, _offer_bump: u8, nft_offer_amount: u64, offer_valid: i64) -> (r: Result<LamportMove, QuidError>)
    ensures
        old(ctx).clock >= offer_valid ==> r == Err::<LamportMove, QuidError>(QuidError::OfferExpired)
            && *final(ctx) == (Make { offer: recorded(*old(ctx), nft_offer_amount), ..*old(ctx) }),
        old(ctx).clock < offer_valid ==> r == Ok::<LamportMove, QuidError>(deposit(nft_offer_amount))
            && *final(ctx) == made(*old(ctx), nft_offer_amount, offer_valid),
{
    ctx.offer.maker = ctx.offer_maker;
    ctx.offer.offer_amount = nft_offer_amount;
    ctx.offer.offer_made_for = ctx.nft_mint;
    ctx.offer.offer_expired = false;
    if ctx.clock >= offer_valid {
        return Err(QuidError::OfferExpired);
    }
    ctx.offer.offer_valid_till = Some(offer_valid);
    Ok(LamportMove { from: Party::OfferMaker, to: Party::Offer, amount: nft_offer_amount })
}

} // verus!
