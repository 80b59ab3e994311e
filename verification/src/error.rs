use vstd::prelude::*;

verus! {

/// Anchor numbers a program's own errors from this offset on.
pub const ERROR_CODE_OFFSET: u32 = 6000;

/// The errors that the marketplace's own checks raise.
#[derive(Clone, Copy, Debug, PartialEq, Eq, Structural)]
pub enum MarketplaceError {
    BadPrice,
    AlreadyListed,
    NotListed,
    NotSeller,
    NotAssetOwner,
    NameTooLong,
    UriTooLong,
    TypeTooLong,
    BadRoyaltiesBps,
    BadCreatorPercentages,
}

/// The position of a variant in the declaration.
pub open spec fn error_index(e: MarketplaceError) -> nat {
    match e {
        MarketplaceError::BadPrice => 0,
        MarketplaceError::AlreadyListed => 1,
        MarketplaceError::NotListed => 2,
        MarketplaceError::NotSeller => 3,
        MarketplaceError::NotAssetOwner => 4,
        MarketplaceError::NameTooLong => 5,
        MarketplaceError::UriTooLong => 6,
        MarketplaceError::TypeTooLong => 7,
        MarketplaceError::BadRoyaltiesBps => 8,
        MarketplaceError::BadCreatorPercentages => 9,
    }
}

impl MarketplaceError {
    /// The error number that the program reports: the offset plus the variant's position.
    pub fn code(&self) -> (c: u32)
        ensures
            c == ERROR_CODE_OFFSET + error_index(*self),
    {
        let i: u32 = match self {
            MarketplaceError::BadPrice => 0,
            MarketplaceError::AlreadyListed => 1,
            MarketplaceError::NotListed => 2,
            MarketplaceError::NotSeller => 3,
            MarketplaceError::NotAssetOwner => 4,
            MarketplaceError::NameTooLong => 5,
            MarketplaceError::UriTooLong => 6,
            MarketplaceError::TypeTooLong => 7,
            MarketplaceError::BadRoyaltiesBps => 8,
            MarketplaceError::BadCreatorPercentages => 9,
        };
        ERROR_CODE_OFFSET + i
    }

    /// The message that the program reports with the error.
    pub fn message(&self) -> (m: &'static str)
        ensures
            m@ == error_message(*self),
    {
        match self {
            MarketplaceError::BadPrice => "Bad price.",
            MarketplaceError::AlreadyListed => "Already listed.",
            MarketplaceError::NotListed => "Not listed.",
            MarketplaceError::NotSeller => "Not seller.",
            MarketplaceError::NotAssetOwner => "Not asset owner.",
            MarketplaceError::NameTooLong => "Name too long.",
            MarketplaceError::UriTooLong => "URI too long.",
            MarketplaceError::TypeTooLong => "Type too long.",
            MarketplaceError::BadRoyaltiesBps => "Bad royalties bps.",
            MarketplaceError::BadCreatorPercentages => "Bad creator percentages (must sum to 100).",
        }
    }

    /// The variant's name.
    pub fn name(&self) -> (n: &'static str)
        ensures
            n@ == error_name(*self),
    {
        match self {
            MarketplaceError::BadPrice => "BadPrice",
            MarketplaceError::AlreadyListed => "AlreadyListed",
            MarketplaceError::NotListed => "NotListed",
            MarketplaceError::NotSeller => "NotSeller",
            MarketplaceError::NotAssetOwner => "NotAssetOwner",
            MarketplaceError::NameTooLong => "NameTooLong",
            MarketplaceError::UriTooLong => "UriTooLong",
            MarketplaceError::TypeTooLong => "TypeTooLong",
            MarketplaceError::BadRoyaltiesBps => "BadRoyaltiesBps",
            MarketplaceError::BadCreatorPercentages => "BadCreatorPercentages",
        }
    }
}

pub open spec fn error_message(e: MarketplaceError) -> Seq<char> {
    match e {
        MarketplaceError::BadPrice => "Bad price."@,
        MarketplaceError::AlreadyListed => "Already listed."@,
        MarketplaceError::NotListed => "Not listed."@,
        MarketplaceError::NotSeller => "Not seller."@,
        MarketplaceError::NotAssetOwner => "Not asset owner."@,
        MarketplaceError::NameTooLong => "Name too long."@,
        MarketplaceError::UriTooLong => "URI too long."@,
        MarketplaceError::TypeTooLong => "Type too long."@,
        MarketplaceError::BadRoyaltiesBps => "Bad royalties bps."@,
        MarketplaceError::BadCreatorPercentages => "Bad creator percentages (must sum to 100)."@,
    }
}

pub open spec fn error_name(e: MarketplaceError) -> Seq<char> {
    match e {
        MarketplaceError::BadPrice => "BadPrice"@,
        MarketplaceError::AlreadyListed => "AlreadyListed"@,
        MarketplaceError::NotListed => "NotListed"@,
        MarketplaceError::NotSeller => "NotSeller"@,
        MarketplaceError::NotAssetOwner => "NotAssetOwner"@,
        MarketplaceError::NameTooLong => "NameTooLong"@,
        MarketplaceError::UriTooLong => "UriTooLong"@,
        MarketplaceError::TypeTooLong => "TypeTooLong"@,
        MarketplaceError::BadRoyaltiesBps => "BadRoyaltiesBps"@,
        MarketplaceError::BadCreatorPercentages => "BadCreatorPercentages"@,
    }
}

/// Distinct errors have distinct numbers.
pub proof fn lemma_error_codes_distinct(a: MarketplaceError, b: MarketplaceError)
    ensures
        a != b ==> error_index(a) != error_index(b),
{
}

} // verus!
