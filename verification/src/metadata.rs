use vstd::prelude::*;
use metaplex_token_metadata::state::{Key, Metadata, MAX_METADATA_LEN};
use metaplex_token_metadata::utils::try_from_slice_checked;
use crate::state::{Address, MetadataFailure};

verus! {

/// A creator named in an NFT's metadata, with its share of the royalty in percent.
#[derive(Clone, Copy, Debug)]
pub struct Creator {
    pub address: Address,
    pub verified: bool,
    pub share: u8,
}

/// What the marketplace reads from an NFT's metadata account.
#[derive(Clone, Debug)]
pub struct Royalties {
    pub seller_fee_basis_points: u16,
    pub creators: Option<Vec<Creator>>,
}

/// A creator as a plain value: address bytes, verified flag, share.
pub open spec fn creator_view(c: Creator) -> (Seq<u8>, bool, u8) {
    (c.address@, c.verified, c.share)
}

impl Royalties {
    /// The royalty information as plain values.
    pub open spec fn plain(&self) -> (u16, Option<Seq<(Seq<u8>, bool, u8)>>) {
        (self.seller_fee_basis_points, match self.creators {
            Some(cs) => Some(cs@.map_values(|c: Creator| creator_view(c))),
            None => None,
        })
    }
}

/// The seller fee and the creators that the metadata program's decoder reads
/// from the bytes of a metadata account, or `None` where it rejects them.
pub uninterp spec fn decoded_metadata(data: Seq<u8>) -> Option<(u16, Option<Seq<(Seq<u8>, bool, u8)>>)>;

/// The length that the metadata program requires of a metadata account.
pub const METADATA_ACCOUNT_LEN: usize = 679;

/// The code of the metadata program's `DataTypeMismatch` error.
pub const DATA_TYPE_MISMATCH: u64 = 63;

/// The runtime's code of a Borsh decoding error.
pub const BORSH_IO_ERROR: u64 = 0xf_0000_0000;

/// Whether data has the length and the first byte that the decoder asks of a
/// metadata account (the key of a metadata account, 4, or of an
/// uninitialised one, 0).
pub open spec fn metadata_header_ok(data: Seq<u8>) -> bool {
    data.len() == METADATA_ACCOUNT_LEN && (data[0] == 4 || data[0] == 0)
}

/// The code of the error that the decoder returns where it rejects the data:
/// a type mismatch where the header is wrong, a Borsh error beyond it.
pub open spec fn metadata_failure_code(data: Seq<u8>) -> u64 {
    if metadata_header_ok(data) {
        BORSH_IO_ERROR
    } else {
        DATA_TYPE_MISMATCH
    }
}

/// Calls `metaplex_token_metadata::utils::try_from_slice_checked` for a
/// `Metadata` with the key `MetadataV1` and the length `MAX_METADATA_LEN`, which
/// is what `Metadata::from_account_info` does with an account's data. The
/// contract claims: it succeeds exactly where the decoder does, with the
/// decoder's seller fee and creators; it fails unless the data has the
/// required length and starts with the key byte of a metadata account (4) or
/// of an uninitialised one (0), and then with the metadata program's
/// `DataTypeMismatch` error (code 63); beyond that header it fails only with
/// a Borsh error, whose code the runtime reports as `BORSH_IO_ERROR`. On a
/// failure it returns the error with its code (`u64::from` of the error).
#[verifier::external_body]
pub(crate) fn decode_metadata(data: &[u8]) -> (r: Result<Royalties, MetadataFailure>)
    requires
        data@.len() > 0,
    ensures
        r is Ok <==> decoded_metadata(data@) is Some,
        r matches Ok(m) ==> decoded_metadata(data@) == Some(m.plain()),
        r is Ok ==> metadata_header_ok(data@),
        r matches Err(f) ==> f.code == metadata_failure_code(data@),
{
    let md: Metadata = match try_from_slice_checked(data, Key::MetadataV1, MAX_METADATA_LEN) {
        Ok(md) => md,
        Err(e) => return Err(MetadataFailure { code: u64::from(e.clone()), error: e }),
    };
    let creators = md.data.creators.map(|cs| cs.iter().map(|c| Creator {
        address: c.address.to_bytes(), verified: c.verified, share: c.share,
    }).collect());
    Ok(Royalties { seller_fee_basis_points: md.data.seller_fee_basis_points, creators })
}

} // verus!
