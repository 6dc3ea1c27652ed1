//! An escrow marketplace in which a buyer offers lamports for an NFT, the
//! holder of the NFT accepts, and the escrowed lamports are split between the
//! seller, the market place and the creators that the NFT's metadata names.

pub mod state;
pub mod metadata;
pub mod setup;
pub mod make;
pub mod accept;
pub mod cancel;
pub mod laws;
pub mod outcomes;
