//! Rules of an NFT marketplace on Solana: listings, purchases, offers,
//! collections and the program's minting settings, written as verified
//! functions over plain values. Account handling, cross-program calls and
//! event emission belong to the surrounding program.

pub mod accounts;
pub mod constants;
pub mod errors;
pub mod events;
pub mod instructions;
pub mod laws;
pub mod metadata;
pub mod pda;
pub mod pubkey;
pub mod state;
pub mod transfers;
pub mod utils;

pub use accounts::{
    AcceptOffer, BuyNFT, CancelListing, CancelOffer, CreateCollection, CreateNFT, InitializeProgramState, ListNFT,
    MakeOffer, MintAccount, MintAndVerifyToCollection, MintToCollection, SetAndVerifyCollectionCtx, SetCleanupReward,
    SetMintingPrice, TokenAccountData, UpdateListing, VerifyCollectionAuthority, VerifyNFTInCollection,
};
pub use errors::{ErrorCode, MarketplaceError};
pub use events::{
    CollectionCreated, CollectionItemCountUpdated, CollectionNftMinted, ListingCanceled, ListingPriceUpdated, NftListed,
    NftMinted, NftPurchased, OfferAccepted, OfferCanceled, OfferMade, ProgramStateInitialized,
};
pub use instructions::buy_nft::{buy_nft, Purchase};
pub use instructions::cancel_listing::cancel_listing;
pub use instructions::cancel_offer::cancel_offer;
pub use instructions::create_collection::{create_collection, CollectionCreation};
pub use instructions::initialize_program_state::initialize_program_state;
pub use instructions::list_nft::{check_listed_collection, list_nft};
pub use instructions::make_offer::make_offer;
pub use instructions::mint_and_verify_to_collection::{mint_and_verify_to_collection, VerifiedCollectionMint};
pub use instructions::mint_to_collection::{mint_to_collection, CollectionMint};
pub use instructions::set_and_verify_collection::set_and_verify_collection;
pub use instructions::set_minting_price::set_minting_price;
pub use instructions::update_listing_price::update_listing_price;
pub use instructions::verify_collection_authority::verify_collection_authority;
pub use instructions::verify_nft_in_collection::{check_update_authority, verify_nft_in_collection};
pub use metadata::{CollectionRef, MetadataCreator, MetadataFields, NewMetadata, TokenCreation};
pub use pubkey::Pubkey;
pub use state::{CreatorEventData, Listing, Offer, ProgramState, UserCollection};
pub use transfers::{LamportTransfer, TokenTransfer};
pub use utils::{calculate_marketplace_fee, validate_royalty_percent};
