use vstd::prelude::*;
use crate::accept::{
    accept_fits, accept_outcome, accepted, creator_run, escrow_move, market_cut_of, payout_outcome,
    royalty_cut_of, Accept, AcceptPlan,
};
use crate::cancel::{
    cancel_outcome, cancelled, close_offer_outcome, close_stick_outcome, Cancel, CloseOfferPDA, CloseStickPDA,
};
use crate::make::{deposit, made, Make};
use crate::state::{total_moved, Address, Data, LamportMove, Offer, Party, QuidError};

verus! {

/// The sum of the shares of the creators that `accept` looks at: the first
/// five among the first `k`.
pub open spec fn shares_looked_at(cs: Seq<(Seq<u8>, bool, u8)>, k: nat) -> int
    decreases k,
{
    if k == 0 {
        0
    } else if k - 1 < 5 {
        shares_looked_at(cs, (k - 1) as nat) + cs[k - 1].2
    } else {
        shares_looked_at(cs, (k - 1) as nat)
    }
}

/// Every move of the sequence pays out of the escrow to another account: the
/// taker, the market place or one of the five creator accounts.
pub open spec fn all_from_escrow(ms: Seq<LamportMove>) -> bool {
    forall|i: int| 0 <= i < ms.len() ==> {
        &&& (#[trigger] ms[i]).from == Party::Offer
        &&& ms[i].to != Party::Offer
        &&& ms[i].to != Party::OfferMaker
        &&& (ms[i].to matches Party::Creator(y) ==> y < 5)
    }
}

/// The amounts of two sequences of moves add up.
pub proof fn lemma_total_moved_concat(a: Seq<LamportMove>, b: Seq<LamportMove>)
    ensures
        total_moved(a + b) == total_moved(a) + total_moved(b),
    decreases b.len(),
{
    if b.len() == 0 {
        assert(a + b =~= a);
    } else {
        lemma_total_moved_concat(a, b.drop_last());
        assert((a + b).drop_last() =~= a + b.drop_last());
    }
}

proof fn lemma_share_payment(rc: u64, share: u8)
    ensures
        (rc * share / 100) * 100 <= rc * share,
        rc * share / 100 >= 0,
{
    assert((rc * share / 100) * 100 <= rc * share) by (nonlinear_arith);
    assert(rc * share / 100 >= 0) by (nonlinear_arith);
}

/// The creators' royalties: each creator payment comes out of the escrow, and
/// together they are at most `royalty_cut` times the shares looked at, in percent.
pub proof fn lemma_creator_payments(ctx: Accept, cs: Seq<(Seq<u8>, bool, u8)>, rc: u64, k: nat)
    requires
        creator_run(ctx, cs, rc, k) is Some,
    ensures
        all_from_escrow(creator_run(ctx, cs, rc, k).unwrap().0),
        total_moved(creator_run(ctx, cs, rc, k).unwrap().0) * 100 <= rc * shares_looked_at(cs, k),
    decreases k,
{
    if k > 0 {
        lemma_creator_payments(ctx, cs, rc, (k - 1) as nat);
        let (ms, res) = creator_run(ctx, cs, rc, (k - 1) as nat).unwrap();
        let y = k - 1;
        if y < 5 {
            assert(rc * shares_looked_at(cs, k) == rc * shares_looked_at(cs, (k - 1) as nat) + rc * cs[y].2)
                by (nonlinear_arith)
                requires shares_looked_at(cs, k) == shares_looked_at(cs, (k - 1) as nat) + cs[y].2;
            if res is Ok && cs[y].0 == crate::accept::checked_creator(ctx, y) && rc * cs[y].2 <= u64::MAX {
                lemma_share_payment(rc, cs[y].2);
                let m = escrow_move(Party::Creator(y as usize), (rc * cs[y].2 / 100) as u64);
                assert(ms.push(m).drop_last() =~= ms);
            }
        }
    }
}

/// The split of an accepted offer adds up: the taker's amount, the market
/// place's cut and the creators' royalty together are the offer's amount.
pub proof fn lemma_split_adds_up(ctx: Accept, seller_fee_basis_points: u16)
    requires
        accept_fits(ctx, seller_fee_basis_points),
        accept_outcome(ctx, seller_fee_basis_points) is Ok,
    ensures
        ({
            let plan = accept_outcome(ctx, seller_fee_basis_points).unwrap();
            &&& plan.taker_amount + plan.market_cut + plan.royalty_cut == ctx.offer.offer_amount
            &&& plan.market_cut == market_cut_of(ctx.data_acc.market_place_cut, ctx.offer.offer_amount)
            &&& plan.royalty_cut == royalty_cut_of(seller_fee_basis_points, ctx.offer.offer_amount)
            &&& plan.nft_amount == 1
        }),
{
    let amount = ctx.offer.offer_amount;
    assert(market_cut_of(ctx.data_acc.market_place_cut, amount) >= 0) by (nonlinear_arith);
    assert(royalty_cut_of(seller_fee_basis_points, amount) >= 0) by (nonlinear_arith);
}

/// The market place's cut (in tenths of a percent) and the seller fee (in
/// hundredths of a percent) never take more than the offer while together they
/// stay within one hundred percent; then `accept`'s split cannot underflow.
pub proof fn lemma_cuts_within_offer(market_place_cut: u64, seller_fee_basis_points: u16, amount: u64)
    requires
        10 * market_place_cut + seller_fee_basis_points <= 10000,
    ensures
        market_cut_of(market_place_cut, amount) + royalty_cut_of(seller_fee_basis_points, amount) <= amount,
        market_cut_of(market_place_cut, amount) >= 0,
        royalty_cut_of(seller_fee_basis_points, amount) >= 0,
{
    let mc = market_place_cut as int;
    let sf = seller_fee_basis_points as int;
    let a = amount as int;
    assert((mc * a) / 1000 + (sf * a) / 10000 <= a) by (nonlinear_arith)
        requires 10 * mc + sf <= 10000, mc >= 0, sf >= 0, a >= 0;
    assert((mc * a) / 1000 >= 0) by (nonlinear_arith) requires mc >= 0, a >= 0;
    assert((sf * a) / 10000 >= 0) by (nonlinear_arith) requires sf >= 0, a >= 0;
}

/// The escrow covers what `accept` pays: every lamport it moves comes out of
/// the offer account, and in all at most the offer's amount, provided the
/// shares of the creators it looks at stay within one hundred percent. When it
/// pays everyone, what is left in escrow is the part of the royalty that the
/// creators' rounded shares leave.
pub proof fn lemma_escrow_covers_payout(
    ctx: Accept,
    seller_fee_basis_points: u16,
    creators: Option<Seq<(Seq<u8>, bool, u8)>>,
)
    requires
        accept_fits(ctx, seller_fee_basis_points),
        accept_outcome(ctx, seller_fee_basis_points) is Ok,
        payout_outcome(ctx, accept_outcome(ctx, seller_fee_basis_points).unwrap(), creators) is Some,
        creators matches Some(cs) ==> shares_looked_at(cs, cs.len()) <= 100,
    ensures
        ({
            let plan = accept_outcome(ctx, seller_fee_basis_points).unwrap();
            let (ms, res) = payout_outcome(ctx, plan, creators).unwrap();
            &&& all_from_escrow(ms)
            &&& total_moved(ms) <= ctx.offer.offer_amount
            &&& res is Ok ==> total_moved(ms) >= ctx.offer.offer_amount - plan.royalty_cut
        }),
{
    lemma_split_adds_up(ctx, seller_fee_basis_points);
    let plan = accept_outcome(ctx, seller_fee_basis_points).unwrap();
    let t = escrow_move(Party::OfferTaker, plan.taker_amount);
    let m = escrow_move(Party::MarketMaker, plan.market_cut);
    let to_taker = seq![t];
    let to_market = to_taker.push(m);
    assert(to_taker.drop_last() =~= Seq::<LamportMove>::empty());
    assert(to_market.drop_last() =~= to_taker);
    assert(total_moved(Seq::<LamportMove>::empty()) == 0);
    assert(to_taker.last() == t);
    assert(total_moved(to_taker) == plan.taker_amount);
    assert(total_moved(to_market) == plan.taker_amount + plan.market_cut);
    if ctx.market_maker@ == ctx.data_acc.market_place@ && plan.royalty_cut != 0 {
        if let Some(cs) = creators {
            lemma_creator_payments(ctx, cs, plan.royalty_cut, cs.len());
            let (ms, res) = creator_run(ctx, cs, plan.royalty_cut, cs.len()).unwrap();
            lemma_total_moved_concat(to_market, ms);
            let rc = plan.royalty_cut as int;
            let sh = shares_looked_at(cs, cs.len());
            assert(total_moved(ms) <= rc) by (nonlinear_arith)
                requires total_moved(ms) * 100 <= rc * sh, sh <= 100, rc >= 0;
            assert(total_moved(ms) >= 0) by {
                lemma_total_moved_nonneg(ms);
            }
            assert forall|i: int| 0 <= i < (to_market + ms).len() implies {
                &&& (#[trigger] (to_market + ms)[i]).from == Party::Offer
                &&& (to_market + ms)[i].to != Party::Offer
                &&& (to_market + ms)[i].to != Party::OfferMaker
                &&& ((to_market + ms)[i].to matches Party::Creator(y) ==> y < 5)
            } by {
                if i >= 2 {
                    assert((to_market + ms)[i] == ms[i - 2]);
                }
            }
        }
    }
}

/// A sum of amounts is never negative.
pub proof fn lemma_total_moved_nonneg(ms: Seq<LamportMove>)
    ensures
        total_moved(ms) >= 0,
    decreases ms.len(),
{
    if ms.len() > 0 {
        lemma_total_moved_nonneg(ms.drop_last());
    }
}

/// Accepting and cancelling exclude each other: at one clock, an offer that
/// `accept` lets through cannot be cancelled, and an offer that can be
/// cancelled is refused by `accept` as expired.
pub proof fn lemma_accept_excludes_cancel(a: Accept, c: Cancel, seller_fee_basis_points: u16)
    requires
        a.offer == c.offer,
        a.clock == c.clock,
        a.offer.offer_valid_till is Some,
    ensures
        accept_outcome(a, seller_fee_basis_points) is Ok ==> cancel_outcome(c) == Err::<LamportMove, QuidError>(QuidError::OfferStillValid),
        cancel_outcome(c) is Ok ==> accept_outcome(a, seller_fee_basis_points) == Err::<AcceptPlan, QuidError>(QuidError::OfferExpired),
{
}

/// An offer is open for exactly its validity: once made, `accept` refuses it
/// as expired from its validity on and not before, and `cancel` refunds it
/// after its validity and not before.
pub proof fn lemma_validity_window(m: Make, nft_offer_amount: u64, offer_valid: i64, a: Accept, c: Cancel, seller_fee_basis_points: u16)
    requires
        a.offer == made(m, nft_offer_amount, offer_valid).offer,
        c.offer == made(m, nft_offer_amount, offer_valid).offer,
    ensures
        a.clock >= offer_valid <==> accept_outcome(a, seller_fee_basis_points) == Err::<AcceptPlan, QuidError>(QuidError::OfferExpired),
        c.clock > offer_valid <==> cancel_outcome(c) is Ok,
{
}

/// Cancelling undoes the deposit: the refund of a made offer moves the
/// deposited lamports back, from the offer account to the maker.
pub proof fn lemma_refund_undoes_deposit(m: Make, nft_offer_amount: u64, offer_valid: i64, c: Cancel)
    requires
        c.offer == made(m, nft_offer_amount, offer_valid).offer,
        c.clock > offer_valid,
    ensures
        cancel_outcome(c) == Ok::<LamportMove, QuidError>(LamportMove {
            from: deposit(nft_offer_amount).to,
            to: deposit(nft_offer_amount).from,
            amount: deposit(nft_offer_amount).amount,
        }),
{
}

/// A freshly made offer is open: its account cannot be closed until the offer
/// is accepted or cancelled.
pub proof fn lemma_made_offer_not_closable(m: Make, nft_offer_amount: u64, offer_valid: i64, data_acc: Data, pda_rent: Address)
    ensures
        close_offer_outcome(CloseOfferPDA { offer: made(m, nft_offer_amount, offer_valid).offer, pda_rent, data_acc }) is Err,
        data_acc.pda_rent@ == pda_rent@ ==> close_offer_outcome(
            CloseOfferPDA { offer: made(m, nft_offer_amount, offer_valid).offer, pda_rent, data_acc },
        ) == Err::<(), QuidError>(QuidError::OfferNotExpired),
{
}

/// Once accepted, the offer account and the stick account can be closed into
/// the configured rent account (and into no other).
pub proof fn lemma_accepted_closable(ctx: Accept, data_acc: Data, pda_rent: Address)
    ensures
        close_offer_outcome(CloseOfferPDA { offer: accepted(ctx).offer, pda_rent, data_acc }) is Ok
            <==> data_acc.pda_rent@ == pda_rent@,
        close_stick_outcome(CloseStickPDA { stick: accepted(ctx).stick, pda_rent, data_acc }) is Ok
            <==> data_acc.pda_rent@ == pda_rent@,
{
}

/// Once cancelled, the offer account can be closed into the configured rent
/// account (and into no other).
pub proof fn lemma_cancelled_closable(c: Cancel, data_acc: Data, pda_rent: Address)
    ensures
        close_offer_outcome(CloseOfferPDA { offer: cancelled(c).offer, pda_rent, data_acc }) is Ok
            <==> data_acc.pda_rent@ == pda_rent@,
{
}

/// An instruction that can change an offer account after it was made: an
/// `accept` (with its accounts, the seller fee and the creators its metadata
/// names) or a `cancel` (with its accounts). The offer it acts on is the one
/// the account holds at that point.
pub enum OfferEvent {
    Accepted(Accept, u16, Option<Seq<(Seq<u8>, bool, u8)>>),
    Cancelled(Cancel),
}

/// Whether the instruction succeeds on the offer the account holds: both
/// phases of `accept` end in `Ok`, or `cancel` ends in `Ok`. A refused or
/// aborted instruction leaves the account as it was.
pub open spec fn event_succeeds(offer: Offer, e: OfferEvent) -> bool {
    match e {
        OfferEvent::Accepted(ctx, sfb, creators) => {
            let c = Accept { offer, ..ctx };
            &&& accept_fits(c, sfb)
            &&& accept_outcome(c, sfb) is Ok
            &&& payout_outcome(c, accept_outcome(c, sfb).unwrap(), creators) matches Some((_, res))
            &&& res is Ok
        },
        OfferEvent::Cancelled(ctx) => {
            let c = Cancel { offer, ..ctx };
            &&& offer.offer_valid_till is Some
            &&& cancel_outcome(c) is Ok
        },
    }
}

/// The offer after one instruction: what it leaves where it succeeds.
pub open spec fn event_effect(offer: Offer, e: OfferEvent) -> Offer {
    if !event_succeeds(offer, e) {
        offer
    } else {
        match e {
            OfferEvent::Accepted(ctx, _, _) => accepted(Accept { offer, ..ctx }).offer,
            OfferEvent::Cancelled(ctx) => cancelled(Cancel { offer, ..ctx }).offer,
        }
    }
}

/// The offer after a sequence of instructions.
pub open spec fn run_events(offer: Offer, events: Seq<OfferEvent>) -> Offer
    decreases events.len(),
{
    if events.len() == 0 {
        offer
    } else {
        event_effect(run_events(offer, events.drop_last()), events.last())
    }
}

/// Whether one of the instructions succeeded on the offer as it then was.
pub open spec fn some_event_succeeded(offer: Offer, events: Seq<OfferEvent>) -> bool {
    exists|i: int| 0 <= i < events.len() && #[trigger] event_succeeds(run_events(offer, events.take(i)), events[i])
}

/// An offer account closes only after a successful `accept` or `cancel`:
/// however a made offer goes through later instructions, `close_offer_pda`
/// lets its account close only if one of them succeeded on it, and then
/// exactly when the rent account given is the configured one.
pub proof fn lemma_close_only_after_accept_or_cancel(
    m: Make,
    nft_offer_amount: u64,
    offer_valid: i64,
    events: Seq<OfferEvent>,
    data_acc: Data,
    pda_rent: Address,
)
    ensures
        ({
            let offer = run_events(made(m, nft_offer_amount, offer_valid).offer, events);
            close_offer_outcome(CloseOfferPDA { offer, pda_rent, data_acc }) is Ok
                <==> (some_event_succeeded(made(m, nft_offer_amount, offer_valid).offer, events)
                    && data_acc.pda_rent@ == pda_rent@)
        }),
{
    lemma_expired_iff_event(made(m, nft_offer_amount, offer_valid).offer, events);
}

/// An offer that starts open is expired after a sequence of instructions
/// exactly when one of them succeeded on it.
pub proof fn lemma_expired_iff_event(offer: Offer, events: Seq<OfferEvent>)
    requires
        !offer.offer_expired,
    ensures
        run_events(offer, events).offer_expired <==> some_event_succeeded(offer, events),
    decreases events.len(),
{
    if events.len() == 0 {
    } else {
        let prefix = events.drop_last();
        let n = events.len() - 1;
        lemma_expired_iff_event(offer, prefix);
        let before = run_events(offer, prefix);
        assert(events.take(n) =~= prefix);
        if some_event_succeeded(offer, prefix) {
            let i = choose|i: int| 0 <= i < prefix.len() && #[trigger] event_succeeds(run_events(offer, prefix.take(i)), prefix[i]);
            assert(events.take(i) =~= prefix.take(i));
            assert(event_succeeds(run_events(offer, events.take(i)), events[i]));
            lemma_expired_stays(before, events.last());
        } else if event_succeeds(before, events.last()) {
            assert(event_succeeds(run_events(offer, events.take(n)), events[n]));
        } else {
            assert forall|i: int| 0 <= i < events.len() implies !#[trigger] event_succeeds(run_events(offer, events.take(i)), events[i]) by {
                if i < n {
                    assert(events.take(i) =~= prefix.take(i));
                    assert(!event_succeeds(run_events(offer, prefix.take(i)), prefix[i]));
                }
            }
        }
    }
}

/// An expired offer stays expired.
proof fn lemma_expired_stays(offer: Offer, e: OfferEvent)
    requires
        offer.offer_expired,
    ensures
        event_effect(offer, e).offer_expired,
{
}

} // verus!
