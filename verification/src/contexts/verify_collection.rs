//! Marking a minted token as a verified member of the collection.

use vstd::prelude::*;
use solana_program::account_info::AccountInfo;
use crate::calls::call_views;
use crate::calls::Call;
use crate::calls::CallView;
use crate::calls::VerifyCollectionCall;
use crate::calls::VerifySizedItemCall;
use crate::dispatch::run;
use crate::dispatch::AccountSet;
use crate::dispatch::Failure;
use crate::seeds::signer_seeds;

verus! {

/// The accounts of the two instructions that verify a token's membership
/// in the collection.
pub struct VerifyCollectionMint<'info> {
    pub payer: AccountInfo<'info>,
    /// The metadata account of the token.
    pub metadata: AccountInfo<'info>,
    /// The mint of the token.
    pub mint: AccountInfo<'info>,
    /// The program-derived address with authority over both mints.
    pub mint_authority: AccountInfo<'info>,
    pub collection_mint: AccountInfo<'info>,
    pub collection_metadata: AccountInfo<'info>,
    pub collection_master_edition: AccountInfo<'info>,
    pub system_program: AccountInfo<'info>,
    pub sysvar_instruction: AccountInfo<'info>,
    pub token_metadata_program: AccountInfo<'info>,
}

/// The bumps found when the addresses of [`VerifyCollectionMint`] were
/// derived.
#[derive(Clone, Copy, Debug, PartialEq, Eq)]
pub struct VerifyCollectionMintBumps {
    pub mint_authority: u8,
}

/// The names of the accounts of [`VerifyCollectionMint`].
#[derive(Clone, Copy, Debug, PartialEq, Eq)]
pub enum VerifyCollectionMintSlot {
    Payer,
    Metadata,
    Mint,
    MintAuthority,
    CollectionMint,
    CollectionMetadata,
    CollectionMasterEdition,
    SystemProgram,
    SysvarInstruction,
    TokenMetadataProgram,
}

impl<'info> AccountSet<'info> for VerifyCollectionMint<'info> {
    type Slot = VerifyCollectionMintSlot;

    fn account(&self, slot: VerifyCollectionMintSlot) -> &AccountInfo<'info> {
        match slot {
            VerifyCollectionMintSlot::Payer => &self.payer,
            VerifyCollectionMintSlot::Metadata => &self.metadata,
            VerifyCollectionMintSlot::Mint => &self.mint,
            VerifyCollectionMintSlot::MintAuthority => &self.mint_authority,
            VerifyCollectionMintSlot::CollectionMint => &self.collection_mint,
            VerifyCollectionMintSlot::CollectionMetadata => &self.collection_metadata,
            VerifyCollectionMintSlot::CollectionMasterEdition => &self.collection_master_edition,
            VerifyCollectionMintSlot::SystemProgram => &self.system_program,
            VerifyCollectionMintSlot::SysvarInstruction => &self.sysvar_instruction,
            VerifyCollectionMintSlot::TokenMetadataProgram => &self.token_metadata_program,
        }
    }

    open spec fn at(&self, slot: VerifyCollectionMintSlot) -> AccountInfo<'info> {
        match slot {
            VerifyCollectionMintSlot::Payer => self.payer,
            VerifyCollectionMintSlot::Metadata => self.metadata,
            VerifyCollectionMintSlot::Mint => self.mint,
            VerifyCollectionMintSlot::MintAuthority => self.mint_authority,
            VerifyCollectionMintSlot::CollectionMint => self.collection_mint,
            VerifyCollectionMintSlot::CollectionMetadata => self.collection_metadata,
            VerifyCollectionMintSlot::CollectionMasterEdition => self.collection_master_edition,
            VerifyCollectionMintSlot::SystemProgram => self.system_program,
            VerifyCollectionMintSlot::SysvarInstruction => self.sysvar_instruction,
            VerifyCollectionMintSlot::TokenMetadataProgram => self.token_metadata_program,
        }
    }
}

/// The single call of `verify_collection`: the mint authority, as update
/// authority of the collection, vouches for the token. No delegate takes
/// part.
pub open spec fn verification_call() -> VerifyCollectionCall<VerifyCollectionMintSlot> {
    VerifyCollectionCall {
        program: VerifyCollectionMintSlot::TokenMetadataProgram,
        authority: VerifyCollectionMintSlot::MintAuthority,
        delegate_record: None,
        metadata: VerifyCollectionMintSlot::Metadata,
        collection_mint: VerifyCollectionMintSlot::CollectionMint,
        collection_metadata: Some(VerifyCollectionMintSlot::CollectionMetadata),
        collection_master_edition: Some(VerifyCollectionMintSlot::CollectionMasterEdition),
        system_program: VerifyCollectionMintSlot::SystemProgram,
        sysvar_instructions: VerifyCollectionMintSlot::SysvarInstruction,
    }
}

/// The single call of `verify_collection1`: the same, by the instruction
/// for sized collections, which also counts the new member. No record of a
/// delegated authority is named.
pub open spec fn sized_verification_call() -> VerifySizedItemCall<VerifyCollectionMintSlot> {
    VerifySizedItemCall {
        program: VerifyCollectionMintSlot::TokenMetadataProgram,
        payer: VerifyCollectionMintSlot::Payer,
        metadata: VerifyCollectionMintSlot::Metadata,
        collection_authority: VerifyCollectionMintSlot::MintAuthority,
        collection_mint: VerifyCollectionMintSlot::CollectionMint,
        collection_metadata: VerifyCollectionMintSlot::CollectionMetadata,
        collection_master_edition: VerifyCollectionMintSlot::CollectionMasterEdition,
        collection_authority_record: None,
    }
}

/// The calls of `verify_collection`.
pub open spec fn verify_collection_plan() -> Seq<CallView<VerifyCollectionMintSlot>> {
    seq![CallView::VerifyCollection(verification_call())]
}

/// The calls of `verify_collection1`.
pub open spec fn verify_collection1_plan() -> Seq<CallView<VerifyCollectionMintSlot>> {
    seq![CallView::VerifySizedItem(sized_verification_call())]
}

/// Builds the calls of `verify_collection`.
pub fn verify_collection_calls() -> (calls: Vec<Call<VerifyCollectionMintSlot>>)
    ensures
        call_views(calls@) == verify_collection_plan(),
        forall|i: int| 0 <= i < calls@.len() ==> (#[trigger] calls@[i])@.encodable(),
{
    let verification = VerifyCollectionCall {
        program: VerifyCollectionMintSlot::TokenMetadataProgram,
        authority: VerifyCollectionMintSlot::MintAuthority,
        delegate_record: None,
        metadata: VerifyCollectionMintSlot::Metadata,
        collection_mint: VerifyCollectionMintSlot::CollectionMint,
        collection_metadata: Some(VerifyCollectionMintSlot::CollectionMetadata),
        collection_master_edition: Some(VerifyCollectionMintSlot::CollectionMasterEdition),
        system_program: VerifyCollectionMintSlot::SystemProgram,
        sysvar_instructions: VerifyCollectionMintSlot::SysvarInstruction,
    };
    let mut calls: Vec<Call<VerifyCollectionMintSlot>> = Vec::new();
    calls.push(Call::VerifyCollection(verification));
    assert(call_views(calls@) =~= verify_collection_plan());
    calls
}

/// Builds the calls of `verify_collection1`.
pub fn verify_collection1_calls() -> (calls: Vec<Call<VerifyCollectionMintSlot>>)
    ensures
        call_views(calls@) == verify_collection1_plan(),
        forall|i: int| 0 <= i < calls@.len() ==> (#[trigger] calls@[i])@.encodable(),
{
    let verification = VerifySizedItemCall {
        program: VerifyCollectionMintSlot::TokenMetadataProgram,
        payer: VerifyCollectionMintSlot::Payer,
        metadata: VerifyCollectionMintSlot::Metadata,
        collection_authority: VerifyCollectionMintSlot::MintAuthority,
        collection_mint: VerifyCollectionMintSlot::CollectionMint,
        collection_metadata: VerifyCollectionMintSlot::CollectionMetadata,
        collection_master_edition: VerifyCollectionMintSlot::CollectionMasterEdition,
        collection_authority_record: None,
    };
    let mut calls: Vec<Call<VerifyCollectionMintSlot>> = Vec::new();
    calls.push(Call::VerifySizedItem(verification));
    assert(call_views(calls@) =~= verify_collection1_plan());
    calls
}

impl<'info> VerifyCollectionMint<'info> {
    /// Verifies the token as a member of the collection with the one call
    /// of [`verify_collection_plan`], signed as the mint authority.
    ///
    /// The accounts themselves are left as they were handed in. Whether
    /// the call succeeds is for the runtime to say, so nothing is promised
    /// of success; a failure is that of the one call.
    pub fn verify_collection(&mut self, bumps: &VerifyCollectionMintBumps) -> (done: Result<(), Failure>)
        ensures
            *final(self) == *old(self),
            done matches Err(failure) ==> failure.step == 0,
    {
        let seeds = signer_seeds(bumps.mint_authority);
        let calls = verify_collection_calls();
        assert(call_views(calls@).len() == calls@.len());
        run(&*self, calls, &seeds)
    }

    /// Verifies the token as a member of the sized collection with the one
    /// call of [`verify_collection1_plan`], signed as the mint authority.
    ///
    /// The accounts themselves are left as they were handed in. Whether
    /// the call succeeds is for the runtime to say, so nothing is promised
    /// of success; a failure is that of the one call.
    pub fn verify_collection1(&mut self, bumps: &VerifyCollectionMintBumps) -> (done: Result<(), Failure>)
        ensures
            *final(self) == *old(self),
            done matches Err(failure) ==> failure.step == 0,
    {
        let seeds = signer_seeds(bumps.mint_authority);
        let calls = verify_collection1_calls();
        assert(call_views(calls@).len() == calls@.len());
        run(&*self, calls, &seeds)
    }
}

} // verus!
