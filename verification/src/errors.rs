use vstd::prelude::*;

verus! {

/// The marketplace's own error codes, numbered from 6000 in declaration order.
#[derive(Debug, Clone, Copy, PartialEq, Eq, Structural)]
pub enum ErrorCode {
    InvalidCollectionAuthority,
    CollectionVerificationFailed,
    NFTNotInCollection,
    CollectionDoesNotExist,
    SellerDoesNotOwnNFT,
    ListingNotActive,
    UnauthorizedSeller,
    SellerCannotBuy,
    OfferExpired,
    OfferNotActive,
    UnauthorizedBuyer,
    InsufficientFunds,
    Unauthorized,
    InvalidNFT,
    UnauthorizedCollectionUpdateAuthority,
    ArithmeticOverflow,
    InvalidFeeBasisPoints,
    OfferExpiryTooLong,
    UnauthorizedProgramInitialization,
    RoyaltyTooHigh,
}

/// Position of an error code in the declaration order.
pub open spec fn error_index(e: ErrorCode) -> nat {
    match e {
        ErrorCode::InvalidCollectionAuthority => 0,
        ErrorCode::CollectionVerificationFailed => 1,
        ErrorCode::NFTNotInCollection => 2,
        ErrorCode::CollectionDoesNotExist => 3,
        ErrorCode::SellerDoesNotOwnNFT => 4,
        ErrorCode::ListingNotActive => 5,
        ErrorCode::UnauthorizedSeller => 6,
        ErrorCode::SellerCannotBuy => 7,
        ErrorCode::OfferExpired => 8,
        ErrorCode::OfferNotActive => 9,
        ErrorCode::UnauthorizedBuyer => 10,
        ErrorCode::InsufficientFunds => 11,
        ErrorCode::Unauthorized => 12,
        ErrorCode::InvalidNFT => 13,
        ErrorCode::UnauthorizedCollectionUpdateAuthority => 14,
        ErrorCode::ArithmeticOverflow => 15,
        ErrorCode::InvalidFeeBasisPoints => 16,
        ErrorCode::OfferExpiryTooLong => 17,
        ErrorCode::UnauthorizedProgramInitialization => 18,
        ErrorCode::RoyaltyTooHigh => 19,
    }
}

/// The first number of the program's own error codes.
pub const ERROR_CODE_OFFSET: u32 = 6000;

impl ErrorCode {
    /// The error's number as the program reports it.
    pub fn code(&self) -> (r: u32)
        ensures
            r == ERROR_CODE_OFFSET + error_index(*self),
    {
        match self {
            ErrorCode::InvalidCollectionAuthority => 6000,
            ErrorCode::CollectionVerificationFailed => 6001,
            ErrorCode::NFTNotInCollection => 6002,
            ErrorCode::CollectionDoesNotExist => 6003,
            ErrorCode::SellerDoesNotOwnNFT => 6004,
            ErrorCode::ListingNotActive => 6005,
            ErrorCode::UnauthorizedSeller => 6006,
            ErrorCode::SellerCannotBuy => 6007,
            ErrorCode::OfferExpired => 6008,
            ErrorCode::OfferNotActive => 6009,
            ErrorCode::UnauthorizedBuyer => 6010,
            ErrorCode::InsufficientFunds => 6011,
            ErrorCode::Unauthorized => 6012,
            ErrorCode::InvalidNFT => 6013,
            ErrorCode::UnauthorizedCollectionUpdateAuthority => 6014,
            ErrorCode::ArithmeticOverflow => 6015,
            ErrorCode::InvalidFeeBasisPoints => 6016,
            ErrorCode::OfferExpiryTooLong => 6017,
            ErrorCode::UnauthorizedProgramInitialization => 6018,
            ErrorCode::RoyaltyTooHigh => 6019,
        }
    }

    /// The message the program reports with the error.
    pub fn message(&self) -> (r: &'static str)
        ensures
            r@ == error_message(*self),
    {
        match self {
            ErrorCode::InvalidCollectionAuthority => "Invalid collection authority",
            ErrorCode::CollectionVerificationFailed => "Collection verification failed",
            ErrorCode::NFTNotInCollection => "NFT is not part of the specified collection",
            ErrorCode::CollectionDoesNotExist => "Collection does not exist",
            ErrorCode::SellerDoesNotOwnNFT => "Seller does not own the NFT",
            ErrorCode::ListingNotActive => "Listing is not active",
            ErrorCode::UnauthorizedSeller => "Unauthorized seller",
            ErrorCode::SellerCannotBuy => "Seller cannot buy their own NFT",
            ErrorCode::OfferExpired => "Offer has expired",
            ErrorCode::OfferNotActive => "Offer is not active",
            ErrorCode::UnauthorizedBuyer => "Unauthorized buyer",
            ErrorCode::InsufficientFunds => "Insufficient funds",
            ErrorCode::Unauthorized => "Only the admin can perform this action",
            ErrorCode::InvalidNFT => "Invalid NFT in token account",
            ErrorCode::UnauthorizedCollectionUpdateAuthority => "Unauthorized collection update authority",
            ErrorCode::ArithmeticOverflow => "Arithmetic overflow occurred",
            ErrorCode::InvalidFeeBasisPoints => "Invalid fee basis points - must be <= 10000",
            ErrorCode::OfferExpiryTooLong => "Offer expiry time is too long - maximum 1 year",
            ErrorCode::UnauthorizedProgramInitialization => "Unauthorized program initialization - only program authority can initialize",
            ErrorCode::RoyaltyTooHigh => "Royalty percentage too high - maximum 50%",
        }
    }
}

/// The message text of each error code.
pub open spec fn error_message(e: ErrorCode) -> Seq<char> {
    match e {
        ErrorCode::InvalidCollectionAuthority => "Invalid collection authority"@,
        ErrorCode::CollectionVerificationFailed => "Collection verification failed"@,
        ErrorCode::NFTNotInCollection => "NFT is not part of the specified collection"@,
        ErrorCode::CollectionDoesNotExist => "Collection does not exist"@,
        ErrorCode::SellerDoesNotOwnNFT => "Seller does not own the NFT"@,
        ErrorCode::ListingNotActive => "Listing is not active"@,
        ErrorCode::UnauthorizedSeller => "Unauthorized seller"@,
        ErrorCode::SellerCannotBuy => "Seller cannot buy their own NFT"@,
        ErrorCode::OfferExpired => "Offer has expired"@,
        ErrorCode::OfferNotActive => "Offer is not active"@,
        ErrorCode::UnauthorizedBuyer => "Unauthorized buyer"@,
        ErrorCode::InsufficientFunds => "Insufficient funds"@,
        ErrorCode::Unauthorized => "Only the admin can perform this action"@,
        ErrorCode::InvalidNFT => "Invalid NFT in token account"@,
        ErrorCode::UnauthorizedCollectionUpdateAuthority => "Unauthorized collection update authority"@,
        ErrorCode::ArithmeticOverflow => "Arithmetic overflow occurred"@,
        ErrorCode::InvalidFeeBasisPoints => "Invalid fee basis points - must be <= 10000"@,
        ErrorCode::OfferExpiryTooLong => "Offer expiry time is too long - maximum 1 year"@,
        ErrorCode::UnauthorizedProgramInitialization => "Unauthorized program initialization - only program authority can initialize"@,
        ErrorCode::RoyaltyTooHigh => "Royalty percentage too high - maximum 50%"@,
    }
}

/// What an instruction of the marketplace fails with: one of its own codes,
/// a failed account constraint, or account data that does not decode.
#[derive(Debug, Clone, Copy, PartialEq, Eq, Structural)]
pub enum MarketplaceError {
    Program(ErrorCode),
    /// An account constraint without an error of its own does not hold.
    ConstraintRaw,
    /// An account is not at the address that its constraint names.
    ConstraintAddress,
    /// An account is not at the address derived from its seeds.
    ConstraintSeeds,
    /// Account data could not be decoded.
    BorshIoError,
}

} // verus!
