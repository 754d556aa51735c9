//! The instructions of the program: for each, the accounts it receives, the
//! calls it makes, and the handler that makes them.

pub mod create_collection;
pub mod mint_nft;
pub mod verify_collection;
