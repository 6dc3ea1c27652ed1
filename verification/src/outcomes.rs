use vstd::prelude::*;
use crate::accept::{accept_fits, accept_outcome, accepted, creator_run, creators_plain, payout_outcome, Accept, AcceptPlan};
use crate::cancel::{cancel_outcome, cancelled, close_offer_outcome, close_stick_outcome, Cancel, CloseOfferPDA, CloseStickPDA};
use crate::make::{deposit, made, recorded, Make};
use crate::metadata::{metadata_failure_code, Creator, Royalties};
use crate::setup::{configured, Initialize};
use crate::state::{LamportMove, Offer, Party, Stick};
use crate::state::QuidError;

verus! {

/// When `accept` goes through with its arithmetic, in terms of the offer, the
/// configuration and the seller fee: both products fit in 64 bits, the two
/// rounded-down cuts together do not exceed the offer, and the offer has a
/// validity. Elsewhere it aborts.
pub proof fn lemma_accept_fits_exact(ctx: Accept, seller_fee_basis_points: u16)
    ensures
        accept_fits(ctx, seller_fee_basis_points) <==> {
            &&& ctx.data_acc.market_place_cut * ctx.offer.offer_amount <= u64::MAX
            &&& seller_fee_basis_points * ctx.offer.offer_amount <= u64::MAX
            &&& (ctx.data_acc.market_place_cut * ctx.offer.offer_amount) / 1000
                + (seller_fee_basis_points * ctx.offer.offer_amount) / 10000 <= ctx.offer.offer_amount
            &&& ctx.offer.offer_valid_till is Some
        },
{
}

/// What an accepted offer is split into, in terms of the offer and the
/// configuration alone: the market place's cut is the offer times the cut in
/// tenths of a percent, rounded down; the royalty is the offer times the seller
/// fee in hundredths of a percent, rounded down; the taker gets the rest; one
/// NFT token changes hands. The checks refuse, in this order, an offer whose
/// validity has passed, a wrong rent account and a wrong maker.
pub proof fn lemma_accept_split_exact(ctx: Accept, seller_fee_basis_points: u16)
    requires
        ctx.data_acc.market_place_cut * ctx.offer.offer_amount <= u64::MAX,
        seller_fee_basis_points * ctx.offer.offer_amount <= u64::MAX,
        (ctx.data_acc.market_place_cut * ctx.offer.offer_amount) / 1000
            + (seller_fee_basis_points * ctx.offer.offer_amount) / 10000 <= ctx.offer.offer_amount,
        ctx.offer.offer_valid_till is Some,
    ensures
        accept_fits(ctx, seller_fee_basis_points),
        ctx.clock >= ctx.offer.offer_valid_till.unwrap() ==> accept_outcome(ctx, seller_fee_basis_points)
            == Err::<AcceptPlan, QuidError>(QuidError::OfferExpired),
        ctx.clock < ctx.offer.offer_valid_till.unwrap() && ctx.tokenrent@ != ctx.data_acc.ata_rent@
            ==> accept_outcome(ctx, seller_fee_basis_points) == Err::<AcceptPlan, QuidError>(QuidError::WrongRentAccount),
        ctx.clock < ctx.offer.offer_valid_till.unwrap() && ctx.tokenrent@ == ctx.data_acc.ata_rent@
            && ctx.offer_maker@ != ctx.offer.maker@
            ==> accept_outcome(ctx, seller_fee_basis_points) == Err::<AcceptPlan, QuidError>(QuidError::WrongMaker),
        ctx.clock < ctx.offer.offer_valid_till.unwrap() && ctx.tokenrent@ == ctx.data_acc.ata_rent@
            && ctx.offer_maker@ == ctx.offer.maker@ ==> (accept_outcome(ctx, seller_fee_basis_points) matches Ok(plan) && {
                let a = ctx.offer.offer_amount as int;
                let c = ctx.data_acc.market_place_cut as int;
                let f = seller_fee_basis_points as int;
                &&& plan.market_cut * 1000 <= c * a < (plan.market_cut + 1) * 1000
                &&& plan.royalty_cut * 10000 <= f * a < (plan.royalty_cut + 1) * 10000
                &&& plan.taker_amount + plan.market_cut + plan.royalty_cut == a
                &&& plan.nft_amount == 1
            }),
{
    let a = ctx.offer.offer_amount as int;
    let c = ctx.data_acc.market_place_cut as int;
    let f = seller_fee_basis_points as int;
    let mc = (c * a) / 1000;
    let rc = (f * a) / 10000;
    assert(mc * 1000 <= c * a < (mc + 1) * 1000) by (nonlinear_arith)
        requires c >= 0, a >= 0, mc == (c * a) / 1000;
    assert(rc * 10000 <= f * a < (rc + 1) * 10000) by (nonlinear_arith)
        requires f >= 0, a >= 0, rc == (f * a) / 10000;
    assert(mc >= 0 && rc >= 0) by (nonlinear_arith)
        requires c >= 0, a >= 0, f >= 0, mc == (c * a) / 1000, rc == (f * a) / 10000;
}

/// The creator account that a metadata creator at position `i` must match:
/// `creator{i}`, and `creator1` for the fifth.
pub open spec fn creator_account_checked(ctx: Accept, i: int) -> Seq<u8> {
    if i == 4 {
        ctx.creators@[1]@
    } else {
        ctx.creators@[i]@
    }
}

/// How the creators are paid, in terms of the metadata's creators: the run
/// pays the creators at positions 0, 1, ... in order, the one at position `i`
/// (which matched its account) to the creator account `i`, its share in
/// percent of the royalty rounded down. It pays at most five. It ends in `Ok`
/// once it has paid the first five (or all, if fewer), and otherwise with
/// `WrongCreator` at the first creator that does not match its account; it
/// aborts only where a share product overflows.
pub proof fn lemma_creator_run_exact(ctx: Accept, cs: Seq<(Seq<u8>, bool, u8)>, royalty_cut: u64, k: nat)
    ensures
        creator_run(ctx, cs, royalty_cut, k) matches Some((ms, res)) ==> {
            &&& ms.len() <= k
            &&& ms.len() <= 5
            &&& forall|i: int| 0 <= i < ms.len() ==> {
                &&& #[trigger] ms[i] == LamportMove {
                    from: Party::Offer,
                    to: Party::Creator(i as usize),
                    amount: (royalty_cut * cs[i].2 / 100) as u64,
                }
                &&& royalty_cut * cs[i].2 <= u64::MAX
                &&& cs[i].0 == creator_account_checked(ctx, i)
            }
            &&& res is Ok ==> ms.len() == (if k < 5 { k as int } else { 5 })
            &&& res is Err ==> res == Err::<(), QuidError>(QuidError::WrongCreator) && ms.len() < k
                && ms.len() < 5 && cs[ms.len() as int].0 != creator_account_checked(ctx, ms.len() as int)
        },
        creator_run(ctx, cs, royalty_cut, k) is None ==> exists|j: int| 0 <= j < k && j < 5
            && #[trigger] cs[j].0 == creator_account_checked(ctx, j) && royalty_cut * cs[j].2 > u64::MAX,
    decreases k,
{
    if k > 0 {
        lemma_creator_run_exact(ctx, cs, royalty_cut, (k - 1) as nat);
        let y = k - 1;
        match creator_run(ctx, cs, royalty_cut, (k - 1) as nat) {
            None => {},
            Some((ms, res)) => {
                if res is Ok && y < 5 && cs[y].0 == creator_account_checked(ctx, y) && royalty_cut * cs[y].2 <= u64::MAX {
                    let m = LamportMove { from: Party::Offer, to: Party::Creator(y as usize), amount: (royalty_cut * cs[y].2 / 100) as u64 };
                    assert(ms.push(m)[y as int] == m);
                    assert forall|i: int| 0 <= i < ms.len() implies #[trigger] ms.push(m)[i] == ms[i] by {}
                }
                if res is Ok && y < 5 && cs[y].0 == creator_account_checked(ctx, y) && royalty_cut * cs[y].2 > u64::MAX {
                    assert(cs[y].0 == creator_account_checked(ctx, y));
                }
            },
        }
    }
}

/// How an accepted offer is paid out once the NFT has changed hands: first
/// the taker's amount to the taker; then, where the market maker given is the
/// configured market place, its cut to the market maker (whatever the
/// royalty), and otherwise nothing more and `WrongMarketMaker`; then, where a
/// royalty is due and the metadata names creators, the creators' run, and
/// nothing else.
pub proof fn lemma_payout_exact(ctx: Accept, plan: AcceptPlan, creators: Option<Seq<(Seq<u8>, bool, u8)>>)
    ensures
        ({
            let to_taker = LamportMove { from: Party::Offer, to: Party::OfferTaker, amount: plan.taker_amount };
            let to_market = LamportMove { from: Party::Offer, to: Party::MarketMaker, amount: plan.market_cut };
            &&& ctx.market_maker@ != ctx.data_acc.market_place@ ==> payout_outcome(ctx, plan, creators)
                == Some((seq![to_taker], Err::<(), QuidError>(QuidError::WrongMarketMaker)))
            &&& ctx.market_maker@ == ctx.data_acc.market_place@ && (plan.royalty_cut == 0 || creators is None)
                ==> payout_outcome(ctx, plan, creators) == Some((seq![to_taker, to_market], Ok::<(), QuidError>(())))
            &&& ctx.market_maker@ == ctx.data_acc.market_place@ && plan.royalty_cut > 0 && creators is Some
                ==> match creator_run(ctx, creators.unwrap(), plan.royalty_cut, creators.unwrap().len()) {
                    None => payout_outcome(ctx, plan, creators) is None,
                    Some((ms, res)) => payout_outcome(ctx, plan, creators) == Some((seq![to_taker, to_market] + ms, res)),
                }
            &&& ctx.market_maker@ == ctx.data_acc.market_place@ ==> (payout_outcome(ctx, plan, creators) matches Some((ms, _))
                ==> ms.len() >= 2 && ms[0] == to_taker && ms[1] == to_market
                && forall|i: int| 2 <= i < ms.len() ==> (#[trigger] ms[i]).to != Party::MarketMaker
                    && ms[i].to != Party::OfferTaker)
        }),
{
    let to_taker = LamportMove { from: Party::Offer, to: Party::OfferTaker, amount: plan.taker_amount };
    let to_market = LamportMove { from: Party::Offer, to: Party::MarketMaker, amount: plan.market_cut };
    assert(seq![to_taker].push(to_market) =~= seq![to_taker, to_market]);
    if ctx.market_maker@ == ctx.data_acc.market_place@ && plan.royalty_cut > 0 && creators is Some {
        let cs = creators.unwrap();
        lemma_creator_run_exact(ctx, cs, plan.royalty_cut, cs.len());
        if let Some((ms, res)) = creator_run(ctx, cs, plan.royalty_cut, cs.len()) {
            let all = seq![to_taker, to_market] + ms;
            assert forall|i: int| 2 <= i < all.len() implies (#[trigger] all[i]).to != Party::MarketMaker
                && all[i].to != Party::OfferTaker by {
                assert(all[i] == ms[i - 2]);
            }
        }
    }
}

/// A successful make records the offer from its inputs alone: the maker, the
/// NFT's mint, the amount and validity given, not expired; the other accounts
/// are untouched; and the deposit moves exactly the amount from the maker into
/// the offer account. A refused make records the same but the validity.
pub proof fn lemma_make_records_inputs(m: Make, nft_offer_amount: u64, offer_valid: i64)
    ensures
        made(m, nft_offer_amount, offer_valid).offer == (Offer {
            maker: m.offer_maker,
            offer_made_for: m.nft_mint,
            offer_amount: nft_offer_amount,
            offer_valid_till: Some(offer_valid),
            offer_expired: false,
        }),
        made(m, nft_offer_amount, offer_valid).offer_maker == m.offer_maker,
        made(m, nft_offer_amount, offer_valid).nft_mint == m.nft_mint,
        made(m, nft_offer_amount, offer_valid).clock == m.clock,
        recorded(m, nft_offer_amount) == (Offer {
            maker: m.offer_maker,
            offer_made_for: m.nft_mint,
            offer_amount: nft_offer_amount,
            offer_valid_till: m.offer.offer_valid_till,
            offer_expired: false,
        }),
        deposit(nft_offer_amount) == (LamportMove { from: Party::OfferMaker, to: Party::Offer, amount: nft_offer_amount }),
{
}

/// `new` stores its inputs unchanged: the market place, the rent accounts and
/// both cuts are exactly the ones given.
pub proof fn lemma_new_stores_inputs(ctx: Initialize, mk_cut: u64, rent_cut: u64)
    ensures
        configured(ctx, mk_cut, rent_cut).market_place == ctx.beneficiary,
        configured(ctx, mk_cut, rent_cut).market_place_cut == mk_cut,
        configured(ctx, mk_cut, rent_cut).ata_rent == ctx.rent_account,
        configured(ctx, mk_cut, rent_cut).pda_rent == ctx.pda_rent_account,
        configured(ctx, mk_cut, rent_cut).rent_cut == rent_cut,
{
}

/// Cancelling, in terms of the offer and the clock: refused while the clock
/// is at or before the validity; after it, the whole offered amount goes back
/// from the offer account to the maker and the offer is marked expired, all
/// else unchanged.
pub proof fn lemma_cancel_exact(c: Cancel)
    requires
        c.offer.offer_valid_till is Some,
    ensures
        c.clock <= c.offer.offer_valid_till.unwrap() ==> cancel_outcome(c)
            == Err::<LamportMove, QuidError>(QuidError::OfferStillValid),
        c.clock > c.offer.offer_valid_till.unwrap() ==> cancel_outcome(c) == Ok::<LamportMove, QuidError>(
            LamportMove { from: Party::Offer, to: Party::OfferMaker, amount: c.offer.offer_amount },
        ),
        cancelled(c).offer == (Offer { offer_expired: true, ..c.offer }),
        cancelled(c).clock == c.clock,
{
}

/// Accepting marks the offer and the stick as expired and changes nothing else.
pub proof fn lemma_accepted_marks_expired(ctx: Accept)
    ensures
        accepted(ctx).offer == (Offer { offer_expired: true, ..ctx.offer }),
        accepted(ctx).stick == (Stick { offer_expired: true }),
        accepted(ctx).offer_maker == ctx.offer_maker,
        accepted(ctx).token_metadata_account == ctx.token_metadata_account,
        accepted(ctx).market_maker == ctx.market_maker,
        accepted(ctx).clock == ctx.clock,
        accepted(ctx).tokenrent == ctx.tokenrent,
        accepted(ctx).data_acc == ctx.data_acc,
        accepted(ctx).creators == ctx.creators,
{
}

/// Closing, in terms of the accounts: refused unless the rent account given
/// is the configured one, then refused unless the offer (or stick) has expired.
pub proof fn lemma_close_exact(o: CloseOfferPDA, s: CloseStickPDA)
    ensures
        o.data_acc.pda_rent@ != o.pda_rent@ ==> close_offer_outcome(o) == Err::<(), QuidError>(QuidError::WrongPdaRent),
        o.data_acc.pda_rent@ == o.pda_rent@ && !o.offer.offer_expired ==> close_offer_outcome(o)
            == Err::<(), QuidError>(QuidError::OfferNotExpired),
        o.data_acc.pda_rent@ == o.pda_rent@ && o.offer.offer_expired ==> close_offer_outcome(o) is Ok,
        s.data_acc.pda_rent@ != s.pda_rent@ ==> close_stick_outcome(s) == Err::<(), QuidError>(QuidError::WrongPdaRent),
        s.data_acc.pda_rent@ == s.pda_rent@ && !s.stick.offer_expired ==> close_stick_outcome(s)
            == Err::<(), QuidError>(QuidError::OfferNotExpired),
        s.data_acc.pda_rent@ == s.pda_rent@ && s.stick.offer_expired ==> close_stick_outcome(s) is Ok,
{
}

/// The error codes: the program's own custom codes, and the decoder's codes,
/// a type mismatch (63) where the data is not 679 bytes starting with 4 or 0,
/// a Borsh error (`0xf_0000_0000`) otherwise.
pub proof fn lemma_error_codes(data: Seq<u8>, failure: crate::state::MetadataFailure)
    ensures
        QuidError::OfferExpired.spec_code() == 4,
        QuidError::OfferStillValid.spec_code() == 4,
        QuidError::WrongRentAccount.spec_code() == 1,
        QuidError::WrongMaker.spec_code() == 0x11,
        QuidError::WrongMarketMaker.spec_code() == 1,
        QuidError::WrongCreator.spec_code() == 1,
        QuidError::WrongPdaRent.spec_code() == 6,
        QuidError::OfferNotExpired.spec_code() == 7,
        QuidError::Metadata(failure).spec_code() == failure.code,
        !(data.len() == 679 && (data[0] == 4 || data[0] == 0)) ==> metadata_failure_code(data) == 63,
        data.len() == 679 && (data[0] == 4 || data[0] == 0) ==> metadata_failure_code(data) == 0xf_0000_0000,
{
}

/// The plain values of the metadata keep every field: the seller fee, and
/// each creator's address, verified flag and share, in order.
pub proof fn lemma_royalties_plain(r: Royalties, cs: Seq<Creator>)
    ensures
        r.plain().0 == r.seller_fee_basis_points,
        r.creators is None <==> r.plain().1 is None,
        r.creators matches Some(v) ==> r.plain().1 == Some(creators_plain(v@)),
        creators_plain(cs).len() == cs.len(),
        forall|i: int| 0 <= i < cs.len() ==> #[trigger] creators_plain(cs)[i]
            == (cs[i].address@, cs[i].verified, cs[i].share),
{
    if let Some(v) = r.creators {
        assert(r.plain().1.unwrap() =~= creators_plain(v@));
    }
}

} // verus!
