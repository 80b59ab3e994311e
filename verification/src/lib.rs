//! A marketplace for Core assets: minting with immutable attributes, listing
//! an asset for a price (delegating and freezing it to the listing account),
//! cancelling a listing, and buying a listed asset.
pub mod core_calls;
pub mod error;
pub mod keys;
pub mod state;
pub mod marketplace;
pub mod delegation;
pub mod laws;
