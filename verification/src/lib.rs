//! The instruction handlers of a program that mints non-fungible tokens on
//! Solana: one creates a collection, one mints a token, two verify a token
//! as a member of the collection.
//!
//! The handlers do their work by calling the token program and the token
//! metadata program. This crate states, and proves, which calls each
//! handler makes: the accounts in every role, the arguments, the order, and
//! the seeds that sign. See [`contexts`] for the handlers, [`calls`] for
//! the descriptions of calls, and [`runtime`] for what is taken on trust.

use vstd::prelude::*;

pub mod calls;
pub mod contexts;
pub mod dispatch;
pub mod metadata;
pub mod runtime;
pub mod seeds;

pub use contexts::create_collection::CreateCollection;
pub use contexts::create_collection::CreateCollectionBumps;
pub use contexts::mint_nft::MintNFT;
pub use contexts::mint_nft::MintNFTBumps;
pub use contexts::verify_collection::VerifyCollectionMint;
pub use contexts::verify_collection::VerifyCollectionMintBumps;
pub use dispatch::Failure;
