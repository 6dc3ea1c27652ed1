use vstd::prelude::*;
use solana_program::program_error::ProgramError;

verus! {

/// The runtime's error type; failures of the metadata decoder are carried in it.
#[verifier::external_type_specification]
#[verifier::external_body]
pub struct ExProgramError(ProgramError);

/// A 32-byte account address: the bytes of a public key.
pub type Address = [u8; 32];

/// Compares two addresses byte by byte.
pub fn same_address(a: &Address, b: &Address) -> (r: bool)
    ensures
        r == (a@ == b@),
{
    let mut i: usize = 0;
    while i < 32
        invariant
            0 <= i <= 32,
            a@.len() == 32,
            b@.len() == 32,
            forall|j: int| 0 <= j < i ==> a@[j] == b@[j],
        decreases 32 - i,
    {
        if a[i] != b[i] {
            return false;
        }
        i += 1;
    }
    assert(a@ =~= b@);
    true
}

/// The marketplace's configuration account.
#[derive(Clone, Copy, Debug)]
pub struct Data {
    /// Receives the market place's cut of every accepted offer.
    pub market_place: Address,
    /// The market place's cut, in tenths of a percent of the offer.
    pub market_place_cut: u64,
    /// The account that receives the rent of closed NFT token accounts.
    pub ata_rent: Address,
    /// The account that receives the rent of closed offer and stick accounts.
    pub pda_rent: Address,
    pub rent_cut: u64,
}

/// A binding offer of lamports for an NFT, escrowed in the offer account.
#[derive(Clone, Copy, Debug)]
pub struct Offer {
    /// Who made the offer (and must sign to cancel it).
    pub maker: Address,
    /// The mint of the NFT that the offer is for.
    pub offer_made_for: Address,
    /// The escrowed lamports.
    pub offer_amount: u64,
    /// The unix time up to which the offer can be accepted.
    pub offer_valid_till: Option<i64>,
    /// Set once the offer has been accepted or cancelled.
    pub offer_expired: bool,
}

/// The record that a taker accepted an offer.
#[derive(Clone, Copy, Debug)]
pub struct Stick {
    pub offer_expired: bool,
}

/// A failure of the metadata decoder: the runtime error it returned, and that
/// error's code as the runtime reports it.
#[derive(Debug)]
pub struct MetadataFailure {
    pub error: ProgramError,
    pub code: u64,
}

/// Why an instruction is refused.
#[derive(Debug)]
pub enum QuidError {
    /// The offer's validity has passed (making or accepting it).
    OfferExpired,
    /// The offer is still valid, so it cannot be cancelled yet.
    OfferStillValid,
    /// The rent account given is not the configured one.
    WrongRentAccount,
    /// The offer maker given is not the one who made the offer.
    WrongMaker,
    /// The market maker given is not the configured market place.
    WrongMarketMaker,
    /// A creator account given is not the one the metadata names.
    WrongCreator,
    /// The PDA rent account given is not the configured one.
    WrongPdaRent,
    /// The offer (or stick) has not expired yet, so it cannot be closed.
    OfferNotExpired,
    /// The NFT's metadata account could not be decoded.
    Metadata(MetadataFailure),
}

impl QuidError {
    /// The error code that the instruction fails with: this program's own
    /// custom codes, or the code of the decoder's error.
    pub open spec fn spec_code(&self) -> u64 {
        match self {
            QuidError::OfferExpired => 4,
            QuidError::OfferStillValid => 4,
            QuidError::WrongRentAccount => 1,
            QuidError::WrongMaker => 0x11,
            QuidError::WrongMarketMaker => 1,
            QuidError::WrongCreator => 1,
            QuidError::WrongPdaRent => 6,
            QuidError::OfferNotExpired => 7,
            QuidError::Metadata(f) => f.code,
        }
    }

    /// The error code that the instruction fails with.
    pub fn code(&self) -> (r: u64)
        ensures
            r == self.spec_code(),
    {
        match self {
            QuidError::OfferExpired => 4,
            QuidError::OfferStillValid => 4,
            QuidError::WrongRentAccount => 1,
            QuidError::WrongMaker => 0x11,
            QuidError::WrongMarketMaker => 1,
            QuidError::WrongCreator => 1,
            QuidError::WrongPdaRent => 6,
            QuidError::OfferNotExpired => 7,
            QuidError::Metadata(f) => f.code,
        }
    }
}

/// An account that takes part in moving lamports.
#[derive(Clone, Copy, Debug, PartialEq, Eq, Structural)]
pub enum Party {
    /// The offer account, which escrows the offered lamports.
    Offer,
    OfferMaker,
    OfferTaker,
    MarketMaker,
    /// The creator account at this position (0 to 4).
    Creator(usize),
}

/// Lamports that move from one account to another.
#[derive(Clone, Copy, Debug, PartialEq, Eq, Structural)]
pub struct LamportMove {
    pub from: Party,
    pub to: Party,
    pub amount: u64,
}

/// The sum of the amounts of a sequence of moves.
pub open spec fn total_moved(ms: Seq<LamportMove>) -> int
    decreases ms.len(),
{
    if ms.len() == 0 {
        0
    } else {
        total_moved(ms.drop_last()) + ms.last().amount
    }
}

} // verus!
