use vstd::prelude::*;
use crate::metadata::{decode_metadata, decoded_metadata, creator_view, metadata_failure_code, Creator};
use crate::state::{same_address, Address, Data, LamportMove, Offer, Party, QuidError, Stick};

verus! {

/// What `accept` reads of its accounts.
#[derive(Clone, Debug)]
pub struct Accept {
    /// The offer being accepted.
    pub offer: Offer,
    /// The record of this acceptance.
    pub stick: Stick,
    /// The address of the offer maker's account.
    pub offer_maker: Address,
    /// The data of the NFT's metadata account.
    pub token_metadata_account: Vec<u8>,
    /// The account that should receive the market place's cut.
    pub market_maker: Address,
    /// The cluster's unix time.
    pub clock: i64,
    /// The account that should receive the rent of the taker's closed token account.
    pub tokenrent: Address,
    /// The marketplace's configuration.
    pub data_acc: Data,
    /// The accounts `creator0` to `creator4`.
    pub creators: [Address; 5],
}

/// What `accept` settles once its checks pass: the lamports for the taker,
/// the market place and the creators, and the NFT tokens the taker hands over.
#[derive(Clone, Copy, Debug, PartialEq, Eq, Structural)]
pub struct AcceptPlan {
    pub taker_amount: u64,
    pub market_cut: u64,
    pub royalty_cut: u64,
    pub nft_amount: u64,
}

/// The lamports that `accept` moves out of the escrow, in order, and how it ends.
#[derive(Debug)]
pub struct Payout {
    pub moves: Vec<LamportMove>,
    pub result: Result<(), QuidError>,
}

/// The market place's cut: `market_place_cut` is in tenths of a percent.
pub open spec fn market_cut_of(market_place_cut: u64, amount: u64) -> int {
    (market_place_cut * amount) / 1000
}

/// The creators' royalty: the seller fee is in hundredths of a percent.
pub open spec fn royalty_cut_of(seller_fee_basis_points: u16, amount: u64) -> int {
    (seller_fee_basis_points * amount) / 10000
}

/// Whether `accept`'s arithmetic stays in range and the offer has a validity,
/// once the seller fee is known; elsewhere the instruction aborts.
pub open spec fn accept_fits(ctx: Accept, seller_fee_basis_points: u16) -> bool {
    let amount = ctx.offer.offer_amount;
    &&& ctx.data_acc.market_place_cut * amount <= u64::MAX
    &&& seller_fee_basis_points * amount <= u64::MAX
    &&& market_cut_of(ctx.data_acc.market_place_cut, amount)
        + royalty_cut_of(seller_fee_basis_points, amount) <= amount
    &&& ctx.offer.offer_valid_till is Some
}

/// The checks of `accept` and the split of the offer, for a given seller fee.
pub open spec fn accept_outcome(ctx: Accept, seller_fee_basis_points: u16) -> Result<AcceptPlan, QuidError> {
    let amount = ctx.offer.offer_amount;
    let mc = market_cut_of(ctx.data_acc.market_place_cut, amount);
    let rc = royalty_cut_of(seller_fee_basis_points, amount);
    if ctx.clock >= ctx.offer.offer_valid_till.unwrap() {
        Err(QuidError::OfferExpired)
    } else if ctx.tokenrent@ != ctx.data_acc.ata_rent@ {
        Err(QuidError::WrongRentAccount)
    } else if ctx.offer_maker@ != ctx.offer.maker@ {
        Err(QuidError::WrongMaker)
    } else {
        Ok(AcceptPlan {
            taker_amount: (amount - mc - rc) as u64,
            market_cut: mc as u64,
            royalty_cut: rc as u64,
            nft_amount: 1,
        })
    }
}

/// The accounts after `accept` marked the offer and the stick as expired.
pub open spec fn accepted(ctx: Accept) -> Accept {
    Accept {
        offer: Offer { offer_expired: true, ..ctx.offer },
        stick: Stick { offer_expired: true },
        ..ctx
    }
}

/// Checks an acceptance and splits the offer, given the seller fee that the
/// NFT's metadata holds.
pub fn accept_checks(ctx: &Accept, seller_fee_basis_points: u16) -> (r: Result<AcceptPlan, QuidError>)
    requires
        accept_fits(*ctx, seller_fee_basis_points),
    ensures
        r == accept_outcome(*ctx, seller_fee_basis_points),
{
    let amount = ctx.offer.offer_amount;
    let market_cut = ctx.data_acc.market_place_cut * amount / 1000;
    let royalty_cut = seller_fee_basis_points as u64 * amount / 10000;
    let taker_amount = amount - (market_cut + royalty_cut);
    let valid_till = ctx.offer.offer_valid_till.unwrap();
    if ctx.clock >= valid_till {
        return Err(QuidError::OfferExpired);
    }
    if !same_address(&ctx.tokenrent, &ctx.data_acc.ata_rent) {
        return Err(QuidError::WrongRentAccount);
    }
    if !same_address(&ctx.offer_maker, &ctx.offer.maker) {
        return Err(QuidError::WrongMaker);
    }
    Ok(AcceptPlan { taker_amount, market_cut, royalty_cut, nft_amount: 1 })
}

/// Accepts an offer: marks the offer and the stick as expired, reads the
/// seller fee from the NFT's metadata and checks the acceptance. `None` where
/// the instruction aborts (its arithmetic overflows, the metadata account is
/// empty, or the offer has no validity).
pub fn accept(ctx: &mut Accept, _offer_bump: u8, _stick_bump: u8, _data_bump: u8) -> (r: Option<Result<AcceptPlan, QuidError>>)
    ensures
        *final(ctx) == accepted(*old(ctx)),
        old(ctx).data_acc.market_place_cut * old(ctx).offer.offer_amount > u64::MAX ==> r is None,
        old(ctx).token_metadata_account@.len() == 0 ==> r is None,
        old(ctx).data_acc.market_place_cut * old(ctx).offer.offer_amount <= u64::MAX
            && old(ctx).token_metadata_account@.len() > 0 ==> match decoded_metadata(old(ctx).token_metadata_account@) {
                None => r matches Some(Err(e)) && e is Metadata
                    && e.spec_code() == metadata_failure_code(old(ctx).token_metadata_account@),
                Some(d) => if accept_fits(*old(ctx), d.0) {
                    r == Some(accept_outcome(*old(ctx), d.0))
                } else {
                    r is None
                },
            },
{
    ctx.offer.offer_expired = true;
    ctx.stick.offer_expired = true;
    let amount = ctx.offer.offer_amount;
    if ctx.data_acc.market_place_cut.checked_mul(amount).is_none() {
        return None;
    }
    if ctx.token_metadata_account.len() == 0 {
        return None;
    }
    match decode_metadata(ctx.token_metadata_account.as_slice()) {
        Err(e) => Some(Err(QuidError::Metadata(e))),
        Ok(m) => {
            let sfb = m.seller_fee_basis_points;
            let market_cut = ctx.data_acc.market_place_cut * amount / 1000;
            let royalty = match (sfb as u64).checked_mul(amount) {
                Some(p) => p / 10000,
                None => return None,
            };
            if market_cut + royalty > amount || ctx.offer.offer_valid_till.is_none() {
                return None;
            }
            Some(accept_checks(ctx, sfb))
        },
    }
}

/// The creator account that `accept` checks against the creator at position
/// `y` of the metadata: `creator{y}`, except that the fifth is checked against
/// `creator1` (and paid to `creator4`).
pub open spec fn checked_creator(ctx: Accept, y: int) -> Seq<u8> {
    if y == 4 {
        ctx.creators@[1]@
    } else {
        ctx.creators@[y]@
    }
}

/// A payment out of the escrow.
pub open spec fn escrow_move(to: Party, amount: u64) -> LamportMove {
    LamportMove { from: Party::Offer, to, amount }
}

/// The royalty payments to the first `k` creators of the metadata, in order,
/// and how they end; `None` where the instruction aborts on an overflow.
/// Only the first five creators are looked at; each must match its account,
/// and gets `royalty_cut * share / 100`.
pub open spec fn creator_run(
    ctx: Accept,
    cs: Seq<(Seq<u8>, bool, u8)>,
    royalty_cut: u64,
    k: nat,
) -> Option<(Seq<LamportMove>, Result<(), QuidError>)>
    decreases k,
{
    if k == 0 {
        Some((Seq::empty(), Ok(())))
    } else {
        match creator_run(ctx, cs, royalty_cut, (k - 1) as nat) {
            None => None,
            Some((ms, res)) => {
                let y = k - 1;
                if res is Err || y >= 5 {
                    Some((ms, res))
                } else if cs[y].0 != checked_creator(ctx, y) {
                    Some((ms, Err(QuidError::WrongCreator)))
                } else if royalty_cut * cs[y].2 > u64::MAX {
                    None
                } else {
                    Some((ms.push(escrow_move(Party::Creator(y as usize), (royalty_cut * cs[y].2 / 100) as u64)), Ok(())))
                }
            },
        }
    }
}

/// Once the creators' run has stopped (by an error or an abort) it stays so.
proof fn lemma_run_stays(ctx: Accept, cs: Seq<(Seq<u8>, bool, u8)>, royalty_cut: u64, k: nat, k2: nat)
    requires
        k <= k2,
        creator_run(ctx, cs, royalty_cut, k) is None
            || creator_run(ctx, cs, royalty_cut, k).unwrap().1 is Err,
    ensures
        creator_run(ctx, cs, royalty_cut, k2) == creator_run(ctx, cs, royalty_cut, k),
    decreases k2 - k,
{
    if k < k2 {
        lemma_run_stays(ctx, cs, royalty_cut, k, (k2 - 1) as nat);
    }
}

/// The metadata's creators as plain values.
pub open spec fn creators_plain(creators: Seq<Creator>) -> Seq<(Seq<u8>, bool, u8)> {
    creators.map_values(|c: Creator| creator_view(c))
}

/// Pays the creators their royalties out of the escrow, given the creators
/// that the NFT's metadata names.
pub fn creator_payouts(ctx: &Accept, royalty_cut: u64, creators: &Vec<Creator>) -> (r: Option<(Vec<LamportMove>, Result<(), QuidError>)>)
    ensures
        match creator_run(*ctx, creators_plain(creators@), royalty_cut, creators@.len()) {
            None => r is None,
            Some((ms, res)) => r matches Some((v, res2)) && v@ == ms && res2 == res,
        },
{
    let ghost cs = creators_plain(creators@);
    let mut moves: Vec<LamportMove> = Vec::new();
    let mut y: usize = 0;
    while y < creators.len()
        invariant
            y <= creators@.len(),
            cs == creators_plain(creators@),
            creator_run(*ctx, cs, royalty_cut, y as nat) == Some((moves@, Ok::<(), QuidError>(()))),
        decreases creators@.len() - y,
    {
        if y < 5 {
            let c = &creators[y];
            assert(cs[y as int] == creator_view(*c));
            let expected = if y == 4 { &ctx.creators[1] } else { &ctx.creators[y] };
            if !same_address(&c.address, expected) {
                proof {
                    lemma_run_stays(*ctx, cs, royalty_cut, (y + 1) as nat, creators@.len());
                }
                return Some((moves, Err(QuidError::WrongCreator)));
            }
            match royalty_cut.checked_mul(c.share as u64) {
                None => {
                    proof {
                        lemma_run_stays(*ctx, cs, royalty_cut, (y + 1) as nat, creators@.len());
                    }
                    return None;
                },
                Some(p) => {
                    moves.push(LamportMove { from: Party::Offer, to: Party::Creator(y), amount: p / 100 });
                },
            }
        }
        y += 1;
    }
    Some((moves, Ok(())))
}

/// The lamports `accept` moves out of the escrow once the NFT has changed
/// hands, and how it ends, given the creators that the metadata names (read
/// only where a royalty is due); `None` where the instruction aborts.
pub open spec fn payout_outcome(
    ctx: Accept,
    plan: AcceptPlan,
    creators: Option<Seq<(Seq<u8>, bool, u8)>>,
) -> Option<(Seq<LamportMove>, Result<(), QuidError>)> {
    let to_taker = seq![escrow_move(Party::OfferTaker, plan.taker_amount)];
    if ctx.market_maker@ != ctx.data_acc.market_place@ {
        Some((to_taker, Err(QuidError::WrongMarketMaker)))
    } else {
        let to_market = to_taker.push(escrow_move(Party::MarketMaker, plan.market_cut));
        if plan.royalty_cut == 0 {
            Some((to_market, Ok(())))
        } else {
            match creators {
                None => Some((to_market, Ok(()))),
                Some(cs) => match creator_run(ctx, cs, plan.royalty_cut, cs.len()) {
                    None => None,
                    Some((ms, res)) => Some((to_market + ms, res)),
                },
            }
        }
    }
}

/// Whether a payout is the one described.
pub open spec fn payout_is(r: Option<Payout>, s: Option<(Seq<LamportMove>, Result<(), QuidError>)>) -> bool {
    match s {
        None => r is None,
        Some((ms, res)) => r matches Some(p) && p.moves@ == ms && p.result == res,
    }
}

/// Settles an accepted offer once the NFT has moved to the maker: pays the
/// taker and the market place out of the escrow and, where a royalty is due,
/// the creators that the NFT's metadata names. `None` where the instruction
/// aborts (an overflow, or an empty metadata account where it is read).
pub fn accept_payouts(ctx: &Accept, plan: &AcceptPlan) -> (r: Option<Payout>)
    ensures
        ctx.market_maker@ != ctx.data_acc.market_place@ || plan.royalty_cut == 0
            ==> payout_is(r, payout_outcome(*ctx, *plan, None)),
        ctx.market_maker@ == ctx.data_acc.market_place@ && plan.royalty_cut > 0
            && ctx.token_metadata_account@.len() == 0 ==> r is None,
        ctx.market_maker@ == ctx.data_acc.market_place@ && plan.royalty_cut > 0
            && ctx.token_metadata_account@.len() > 0 ==> match decoded_metadata(ctx.token_metadata_account@) {
                Some(d) => payout_is(r, payout_outcome(*ctx, *plan, d.1)),
                None => r matches Some(p) && p.moves@ == seq![
                    escrow_move(Party::OfferTaker, plan.taker_amount),
                    escrow_move(Party::MarketMaker, plan.market_cut),
                ] && (p.result matches Err(e) && e is Metadata
                    && e.spec_code() == metadata_failure_code(ctx.token_metadata_account@)),
            },
{
    let mut moves: Vec<LamportMove> = Vec::new();
    moves.push(LamportMove { from: Party::Offer, to: Party::OfferTaker, amount: plan.taker_amount });
    if !same_address(&ctx.market_maker, &ctx.data_acc.market_place) {
        return Some(Payout { moves, result: Err(QuidError::WrongMarketMaker) });
    }
    moves.push(LamportMove { from: Party::Offer, to: Party::MarketMaker, amount: plan.market_cut });
    if plan.royalty_cut > 0 {
        if ctx.token_metadata_account.len() == 0 {
            return None;
        }
        match decode_metadata(ctx.token_metadata_account.as_slice()) {
            Err(e) => {
                return Some(Payout { moves, result: Err(QuidError::Metadata(e)) });
            },
            Ok(m) => {
                if let Some(cs) = m.creators {
                    match creator_payouts(ctx, plan.royalty_cut, &cs) {
                        None => {
                            return None;
                        },
                        Some((mut more, res)) => {
                            moves.append(&mut more);
                            return Some(Payout { moves, result: res });
                        },
                    }
                }
            },
        }
    }
    Some(Payout { moves, result: Ok(()) })
}

} // verus!
