use quidproquo::accept::{accept, accept_checks, accept_payouts, creator_payouts, Accept, AcceptPlan};
use quidproquo::metadata::{Creator, BORSH_IO_ERROR, DATA_TYPE_MISMATCH, METADATA_ACCOUNT_LEN};
use quidproquo::state::{Data, LamportMove, Offer, Party, QuidError, Stick};

fn addr(b: u8) -> [u8; 32] {
    [b; 32]
}

fn push_string(out: &mut Vec<u8>, s: &str) {
    out.extend_from_slice(&(s.len() as u32).to_le_bytes());
    out.extend_from_slice(s.as_bytes());
}

/// The bytes of a metadata account, laid out as the metadata program stores them.
fn metadata_bytes(key: u8, fee: u16, creators: Option<&[([u8; 32], u8)]>) -> Vec<u8> {
    let mut out = vec![key];
    out.extend_from_slice(&addr(90));
    out.extend_from_slice(&addr(91));
    push_string(&mut out, "Name");
    push_string(&mut out, "SYM");
    push_string(&mut out, "https://example.com");
    out.extend_from_slice(&fee.to_le_bytes());
    match creators {
        None => out.push(0),
        Some(cs) => {
            out.push(1);
            out.extend_from_slice(&(cs.len() as u32).to_le_bytes());
            for (a, share) in cs {
                out.extend_from_slice(a);
                out.push(1);
                out.push(*share);
            }
        }
    }
    out.push(0);
    out.push(1);
    out.push(0);
    out.resize(METADATA_ACCOUNT_LEN, 0);
    out
}

fn data_acc() -> Data {
    Data { market_place: addr(7), market_place_cut: 25, ata_rent: addr(8), pda_rent: addr(9), rent_cut: 0 }
}

fn ctx(amount: u64, metadata: Vec<u8>) -> Accept {
    Accept {
        offer: Offer {
            maker: addr(1),
            offer_made_for: addr(2),
            offer_amount: amount,
            offer_valid_till: Some(1_000),
            offer_expired: false,
        },
        stick: Stick { offer_expired: false },
        offer_maker: addr(1),
        token_metadata_account: metadata,
        market_maker: addr(7),
        clock: 500,
        tokenrent: addr(8),
        data_acc: data_acc(),
        creators: [addr(20), addr(21), addr(22), addr(23), addr(24)],
    }
}

fn plan_of(c: &mut Accept) -> AcceptPlan {
    match accept(c, 0, 0, 0) {
        Some(Ok(p)) => p,
        other => panic!("unexpected {:?}", other),
    }
}

#[test]
fn accept_splits_offer_and_marks_expired() {
    let md = metadata_bytes(4, 500, Some(&[(addr(20), 60), (addr(21), 40)]));
    let mut c = ctx(1_000_000, md);
    let plan = plan_of(&mut c);
    // 2.5% to the market place, 5% royalty, the rest to the taker.
    assert_eq!(plan, AcceptPlan { taker_amount: 925_000, market_cut: 25_000, royalty_cut: 50_000, nft_amount: 1 });
    assert!(c.offer.offer_expired);
    assert!(c.stick.offer_expired);
}

#[test]
fn accept_pays_taker_market_and_creators() {
    let md = metadata_bytes(4, 500, Some(&[(addr(20), 60), (addr(21), 40)]));
    let mut c = ctx(1_000_000, md);
    let plan = plan_of(&mut c);
    let payout = accept_payouts(&c, &plan).unwrap();
    assert!(payout.result.is_ok());
    assert_eq!(
        payout.moves,
        vec![
            LamportMove { from: Party::Offer, to: Party::OfferTaker, amount: 925_000 },
            LamportMove { from: Party::Offer, to: Party::MarketMaker, amount: 25_000 },
            LamportMove { from: Party::Offer, to: Party::Creator(0), amount: 30_000 },
            LamportMove { from: Party::Offer, to: Party::Creator(1), amount: 20_000 },
        ]
    );
    let total: u64 = payout.moves.iter().map(|m| m.amount).sum();
    assert_eq!(total, 1_000_000);
}

#[test]
fn accept_without_creators_pays_no_royalty() {
    let md = metadata_bytes(4, 500, None);
    let mut c = ctx(1_000_000, md);
    let plan = plan_of(&mut c);
    let payout = accept_payouts(&c, &plan).unwrap();
    assert!(payout.result.is_ok());
    assert_eq!(payout.moves.len(), 2);
}

#[test]
fn accept_zero_fee_reads_no_creators() {
    let md = metadata_bytes(4, 0, Some(&[(addr(66), 100)]));
    let mut c = ctx(1_000_000, md);
    let plan = plan_of(&mut c);
    assert_eq!(plan.royalty_cut, 0);
    assert_eq!(plan.taker_amount, 975_000);
    let payout = accept_payouts(&c, &plan).unwrap();
    assert!(payout.result.is_ok());
    assert_eq!(payout.moves.len(), 2);
}

#[test]
fn accept_refuses_expired_offer() {
    let md = metadata_bytes(4, 500, None);
    let mut c = ctx(1_000_000, md);
    c.clock = 1_000;
    let r = accept(&mut c, 0, 0, 0);
    assert!(matches!(r, Some(Err(QuidError::OfferExpired))));
    assert_eq!(QuidError::OfferExpired.code(), 4);
    assert!(c.offer.offer_expired);
}

#[test]
fn accept_refuses_wrong_rent_account() {
    let mut c = ctx(1_000_000, metadata_bytes(4, 500, None));
    c.tokenrent = addr(55);
    assert!(matches!(accept(&mut c, 0, 0, 0), Some(Err(QuidError::WrongRentAccount))));
}

#[test]
fn accept_refuses_wrong_maker() {
    let mut c = ctx(1_000_000, metadata_bytes(4, 500, None));
    c.offer_maker = addr(56);
    assert!(matches!(accept(&mut c, 0, 0, 0), Some(Err(QuidError::WrongMaker))));
    assert_eq!(QuidError::WrongMaker.code(), 0x11);
}

#[test]
fn accept_refuses_metadata_of_wrong_kind() {
    let mut c = ctx(1_000_000, metadata_bytes(6, 500, None));
    match accept(&mut c, 0, 0, 0) {
        Some(Err(e @ QuidError::Metadata(_))) => assert_eq!(e.code(), DATA_TYPE_MISMATCH),
        other => panic!("unexpected {:?}", other),
    }
}

#[test]
fn accept_reports_borsh_error_of_metadata_body() {
    let mut md = metadata_bytes(4, 500, None);
    // The byte of the creators' option: 2 is no valid option tag.
    let tag = 1 + 32 + 32 + (4 + 4) + (4 + 3) + (4 + 19) + 2;
    md[tag] = 2;
    let mut c = ctx(1_000_000, md);
    match accept(&mut c, 0, 0, 0) {
        Some(Err(e @ QuidError::Metadata(_))) => assert_eq!(e.code(), BORSH_IO_ERROR),
        other => panic!("unexpected {:?}", other),
    }
}

#[test]
fn accept_refuses_metadata_of_wrong_length() {
    let mut md = metadata_bytes(4, 500, None);
    md.push(0);
    let mut c = ctx(1_000_000, md);
    let r = accept(&mut c, 0, 0, 0);
    assert!(matches!(r, Some(Err(QuidError::Metadata(_)))));
    if let Some(Err(e)) = r {
        assert_eq!(e.code(), DATA_TYPE_MISMATCH);
    }
}

#[test]
fn accept_aborts_on_empty_metadata() {
    let mut c = ctx(1_000_000, Vec::new());
    assert!(accept(&mut c, 0, 0, 0).is_none());
}

#[test]
fn accept_aborts_on_overflowing_cut() {
    let mut c = ctx(u64::MAX / 10, metadata_bytes(4, 500, None));
    assert!(accept(&mut c, 0, 0, 0).is_none());
}

#[test]
fn accept_aborts_when_cuts_exceed_offer() {
    let mut c = ctx(1_000_000, metadata_bytes(4, 10_000, None));
    c.data_acc.market_place_cut = 10;
    assert!(accept(&mut c, 0, 0, 0).is_none());
}

#[test]
fn accept_aborts_without_validity() {
    let mut c = ctx(1_000_000, metadata_bytes(4, 500, None));
    c.offer.offer_valid_till = None;
    assert!(accept(&mut c, 0, 0, 0).is_none());
}

#[test]
fn accept_checks_takes_fee_directly() {
    let c = ctx(2_000, Vec::new());
    let r = accept_checks(&c, 1_000).unwrap();
    assert_eq!(r, AcceptPlan { taker_amount: 1_750, market_cut: 50, royalty_cut: 200, nft_amount: 1 });
}

#[test]
fn payouts_stop_at_wrong_market_maker() {
    let mut c = ctx(1_000_000, metadata_bytes(4, 500, None));
    let plan = plan_of(&mut c);
    c.market_maker = addr(99);
    let payout = accept_payouts(&c, &plan).unwrap();
    assert!(matches!(payout.result, Err(QuidError::WrongMarketMaker)));
    assert_eq!(payout.moves, vec![LamportMove { from: Party::Offer, to: Party::OfferTaker, amount: 925_000 }]);
    assert_eq!(QuidError::WrongMarketMaker.code(), 1);
}

#[test]
fn payouts_stop_at_wrong_creator() {
    let md = metadata_bytes(4, 500, Some(&[(addr(20), 50), (addr(77), 50)]));
    let mut c = ctx(1_000_000, md);
    let plan = plan_of(&mut c);
    let payout = accept_payouts(&c, &plan).unwrap();
    assert!(matches!(payout.result, Err(QuidError::WrongCreator)));
    assert_eq!(payout.moves.len(), 3);
    assert_eq!(payout.moves[2], LamportMove { from: Party::Offer, to: Party::Creator(0), amount: 25_000 });
}

#[test]
fn fifth_creator_is_checked_against_second_account() {
    let cs = [(addr(20), 20), (addr(21), 20), (addr(22), 20), (addr(23), 20), (addr(21), 20)];
    let md = metadata_bytes(4, 500, Some(&cs));
    let mut c = ctx(1_000_000, md);
    let plan = plan_of(&mut c);
    let payout = accept_payouts(&c, &plan).unwrap();
    assert!(payout.result.is_ok());
    assert_eq!(payout.moves[6], LamportMove { from: Party::Offer, to: Party::Creator(4), amount: 10_000 });
}

#[test]
fn creators_beyond_five_are_ignored() {
    let cs = [(addr(20), 20), (addr(21), 20), (addr(22), 20), (addr(23), 20), (addr(21), 10), (addr(88), 10)];
    let md = metadata_bytes(4, 500, Some(&cs));
    let mut c = ctx(1_000_000, md);
    let plan = plan_of(&mut c);
    let payout = accept_payouts(&c, &plan).unwrap();
    assert!(payout.result.is_ok());
    assert_eq!(payout.moves.len(), 7);
}

#[test]
fn creator_payouts_round_down() {
    let c = ctx(0, Vec::new());
    let cs = vec![Creator { address: addr(20), verified: true, share: 33 }];
    let (moves, res) = creator_payouts(&c, 10, &cs).unwrap();
    assert!(res.is_ok());
    assert_eq!(moves, vec![LamportMove { from: Party::Offer, to: Party::Creator(0), amount: 3 }]);
}

#[test]
fn creator_payouts_abort_on_overflow() {
    let c = ctx(0, Vec::new());
    let cs = vec![Creator { address: addr(20), verified: true, share: 100 }];
    assert!(creator_payouts(&c, u64::MAX / 2, &cs).is_none());
}

#[test]
fn payouts_abort_on_empty_metadata_when_royalty_due() {
    let c = ctx(1_000, Vec::new());
    let plan = AcceptPlan { taker_amount: 900, market_cut: 50, royalty_cut: 50, nft_amount: 1 };
    assert!(accept_payouts(&c, &plan).is_none());
}

#[test]
fn payouts_report_undecodable_metadata() {
    let c = ctx(1_000, metadata_bytes(3, 500, None));
    let plan = AcceptPlan { taker_amount: 900, market_cut: 50, royalty_cut: 50, nft_amount: 1 };
    let p = accept_payouts(&c, &plan).unwrap();
    assert!(matches!(p.result, Err(QuidError::Metadata(_))));
    assert_eq!(p.result.unwrap_err().code(), DATA_TYPE_MISMATCH);
    assert_eq!(p.moves.len(), 2);
}
