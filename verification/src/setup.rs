use vstd::prelude::*;
use crate::state::{Address, Data, QuidError};

verus! {

/// What `new` reads and writes of its accounts.
#[derive(Clone, Copy, Debug)]
pub struct Initialize {
    /// The configuration account being created.
    pub data_acc: Data,
    /// The market place's account.
    pub beneficiary: Address,
    /// The account for the rent of closed NFT token accounts.
    pub rent_account: Address,
    /// The account for the rent of closed offer and stick accounts.
    pub pda_rent_account: Address,
}

/// The configuration that `new` writes.
pub open spec fn configured(ctx: Initialize, mk_cut: u64, rent_cut: u64) -> Data {
    Data {
        market_place: ctx.beneficiary,
        market_place_cut: mk_cut,
        ata_rent: ctx.rent_account,
        pda_rent: ctx.pda_rent_account,
        rent_cut,
    }
}

/// Sets up the marketplace's configuration: its account, its cut (in tenths
/// of a percent) and the accounts that collect rent.
pub fn new(ctx: &mut Initialize, _data_bump: u8, mk_cut: u64, rent_cut: u64) -> (r: Result<(), QuidError>)
    ensures
        r is Ok,
        *final(ctx) == (Initialize { data_acc: configured(*old(ctx), mk_cut, rent_cut), ..*old(ctx) }),
{
    ctx.data_acc.market_place = ctx.beneficiary;
    ctx.data_acc.ata_rent = ctx.rent_account;
    ctx.data_acc.pda_rent = ctx.pda_rent_account;
    ctx.data_acc.market_place_cut = mk_cut;
    ctx.data_acc.rent_cut = rent_cut;
    Ok(())
}

} // verus!
