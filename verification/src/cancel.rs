use vstd::prelude::*;
use crate::state::{same_address, Address, Data, LamportMove, Offer, Party, QuidError, Stick};

verus! {

/// What `cancel` reads and writes of its accounts.
#[derive(Clone, Copy, Debug)]
pub struct Cancel {
    /// The offer being cancelled.
    pub offer: Offer,
    /// The cluster's unix time.
    pub clock: i64,
}

/// The refund of a cancelled offer: the escrow back to the maker.
pub open spec fn refund(offer: Offer) -> LamportMove {
    LamportMove { from: Party::Offer, to: Party::OfferMaker, amount: offer.offer_amount }
}

/// How `cancel` ends: it refunds the maker once the offer's validity has passed.
pub open spec fn cancel_outcome(ctx: Cancel) -> Result<LamportMove, QuidError> {
    if ctx.clock <= ctx.offer.offer_valid_till.unwrap() {
        Err(QuidError::OfferStillValid)
    } else {
        Ok(refund(ctx.offer))
    }
}

/// The accounts after `cancel` succeeded.
pub open spec fn cancelled(ctx: Cancel) -> Cancel {
    Cancel { offer: Offer { offer_expired: true, ..ctx.offer }, ..ctx }
}

/// Cancels an offer whose validity has passed: marks it as expired and
/// returns the refund of the escrow to the maker. The offer must have a
/// validity (every offer made has one).
pub fn cancel(ctx: &mut Cancel, _offer_bump: u8) -> (r: Result<LamportMove, QuidError>)
    requires
        old(ctx).offer.offer_valid_till is Some,
    ensures
        r == cancel_outcome(*old(ctx)),
        r is Err ==> *final(ctx) == *old(ctx),
        r is Ok ==> *final(ctx) == cancelled(*old(ctx)),
{
    let valid_till = ctx.offer.offer_valid_till.unwrap();
    if ctx.clock <= valid_till {
        return Err(QuidError::OfferStillValid);
    }
    ctx.offer.offer_expired = true;
    Ok(LamportMove { from: Party::Offer, to: Party::OfferMaker, amount: ctx.offer.offer_amount })
}

/// What `close_offer_pda` reads of its accounts.
#[derive(Clone, Copy, Debug)]
pub struct CloseOfferPDA {
    /// The offer account to close.
    pub offer: Offer,
    /// The account that is to receive the offer account's rent.
    pub pda_rent: Address,
    /// The marketplace's configuration.
    pub data_acc: Data,
}

/// How `close_offer_pda` ends.
pub open spec fn close_offer_outcome(ctx: CloseOfferPDA) -> Result<(), QuidError> {
    if ctx.data_acc.pda_rent@ != ctx.pda_rent@ {
        Err(QuidError::WrongPdaRent)
    } else if !ctx.offer.offer_expired {
        Err(QuidError::OfferNotExpired)
    } else {
        Ok(())
    }
}

/// Decides whether the offer account may be closed: the rent account given
/// must be the configured one, and the offer must have been accepted or
/// cancelled.
pub fn close_offer_pda(ctx: &CloseOfferPDA, _offer_bump: u8) -> (r: Result<(), QuidError>)
    ensures
        r == close_offer_outcome(*ctx),
{
    if !same_address(&ctx.data_acc.pda_rent, &ctx.pda_rent) {
        return Err(QuidError::WrongPdaRent);
    }
    if !ctx.offer.offer_expired {
        return Err(QuidError::OfferNotExpired);
    }
    Ok(())
}

/// What `close_stick_pda` reads of its accounts.
#[derive(Clone, Copy, Debug)]
pub struct CloseStickPDA {
    /// The stick account to close.
    pub stick: Stick,
    /// The account that is to receive the stick account's rent.
    pub pda_rent: Address,
    /// The marketplace's configuration.
    pub data_acc: Data,
}

/// How `close_stick_pda` ends.
pub open spec fn close_stick_outcome(ctx: CloseStickPDA) -> Result<(), QuidError> {
    if ctx.data_acc.pda_rent@ != ctx.pda_rent@ {
        Err(QuidError::WrongPdaRent)
    } else if !ctx.stick.offer_expired {
        Err(QuidError::OfferNotExpired)
    } else {
        Ok(())
    }
}

/// Decides whether the stick account may be closed: the rent account given
/// must be the configured one, and the offer it records must have been
/// accepted.
pub fn close_stick_pda(ctx: &CloseStickPDA, _stick_bump: u8) -> (r: Result<(), QuidError>)
    ensures
        r == close_stick_outcome(*ctx),
{
    if !same_address(&ctx.data_acc.pda_rent, &ctx.pda_rent) {
        return Err(QuidError::WrongPdaRent);
    }
    if !ctx.stick.offer_expired {
        return Err(QuidError::OfferNotExpired);
    }
    Ok(())
}

} // verus!
