//! The marketplace's instructions, each a function from the accounts it
//! reads and its arguments to the accounts it writes and what it reports.

pub mod buy_nft;
pub mod cancel_listing;
pub mod cancel_offer;
pub mod create_collection;
pub mod initialize_program_state;
pub mod list_nft;
pub mod make_offer;
pub mod mint_and_verify_to_collection;
pub mod mint_to_collection;
pub mod set_and_verify_collection;
pub mod set_minting_price;
pub mod update_listing_price;
pub mod verify_collection_authority;
pub mod verify_nft_in_collection;
