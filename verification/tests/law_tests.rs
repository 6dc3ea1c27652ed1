use quidproquo::accept::{accept_checks, accept_payouts, creator_payouts, Accept, AcceptPlan};
use quidproquo::metadata::Creator;
use quidproquo::state::{Data, LamportMove, Offer, Party, Stick};

fn addr(b: u8) -> [u8; 32] {
    [b; 32]
}

fn ctx(amount: u64, market_place_cut: u64) -> Accept {
    Accept {
        offer: Offer {
            maker: addr(1),
            offer_made_for: addr(2),
            offer_amount: amount,
            offer_valid_till: Some(10),
            offer_expired: false,
        },
        stick: Stick { offer_expired: false },
        offer_maker: addr(1),
        token_metadata_account: Vec::new(),
        market_maker: addr(7),
        clock: 0,
        tokenrent: addr(8),
        data_acc: Data { market_place: addr(7), market_place_cut, ata_rent: addr(8), pda_rent: addr(9), rent_cut: 0 },
        creators: [addr(20), addr(21), addr(22), addr(23), addr(24)],
    }
}

#[test]
fn whole_cut_leaves_taker_nothing() {
    // 1000 tenths of a percent and no seller fee: the whole offer to the market place.
    let plan = accept_checks(&ctx(12_345, 1_000), 0).unwrap();
    assert_eq!(plan, AcceptPlan { taker_amount: 0, market_cut: 12_345, royalty_cut: 0, nft_amount: 1 });
}

#[test]
fn cut_and_fee_at_one_hundred_percent_fit() {
    // 50% market cut and 50% seller fee.
    let plan = accept_checks(&ctx(1_001, 500), 5_000).unwrap();
    assert_eq!(plan.market_cut, 500);
    assert_eq!(plan.royalty_cut, 500);
    assert_eq!(plan.taker_amount, 1);
    assert_eq!(plan.taker_amount + plan.market_cut + plan.royalty_cut, 1_001);
}

#[test]
fn full_shares_pay_the_whole_royalty() {
    let c = ctx(0, 0);
    let cs = vec![
        Creator { address: addr(20), verified: true, share: 33 },
        Creator { address: addr(21), verified: false, share: 33 },
        Creator { address: addr(22), verified: true, share: 34 },
    ];
    let (moves, res) = creator_payouts(&c, 100, &cs).unwrap();
    assert!(res.is_ok());
    let paid: u64 = moves.iter().map(|m| m.amount).sum();
    assert_eq!(paid, 100);
}

#[test]
fn rounding_keeps_remainder_in_escrow() {
    let c = ctx(0, 0);
    let cs = vec![
        Creator { address: addr(20), verified: true, share: 50 },
        Creator { address: addr(21), verified: true, share: 50 },
    ];
    let (moves, _) = creator_payouts(&c, 3, &cs).unwrap();
    assert_eq!(
        moves,
        vec![
            LamportMove { from: Party::Offer, to: Party::Creator(0), amount: 1 },
            LamportMove { from: Party::Offer, to: Party::Creator(1), amount: 1 },
        ]
    );
}

#[test]
fn payouts_never_exceed_offer() {
    let c = ctx(1_000, 100);
    let plan = accept_checks(&c, 0).unwrap();
    let p = accept_payouts(&c, &plan).unwrap();
    let paid: u64 = p.moves.iter().map(|m| m.amount).sum();
    assert_eq!(paid, 1_000);
    assert!(p.moves.iter().all(|m| m.from == Party::Offer && m.to != Party::Offer));
}
