//! Creating the collection: its metadata, its single token, its master
//! edition.

use vstd::prelude::*;
use solana_program::account_info::AccountInfo;
use crate::calls::call_views;
use crate::calls::Call;
use crate::calls::CallView;
use crate::calls::CreateMasterEditionCall;
use crate::calls::CreateMetadataCall;
use crate::calls::CreateMetadataCallView;
use crate::calls::MintToCall;
use crate::dispatch::run;
use crate::dispatch::AccountSet;
use crate::dispatch::Failure;
use crate::metadata::collection_data;
use crate::metadata::collection_token_data;
use crate::seeds::signer_seeds;

verus! {

/// The accounts of the instruction that creates the collection.
pub struct CreateCollection<'info> {
    /// Pays for the new accounts and receives the collection token.
    pub user: AccountInfo<'info>,
    /// The mint of the collection token.
    pub mint: AccountInfo<'info>,
    /// The program-derived address with authority over the mint.
    pub mint_authority: AccountInfo<'info>,
    pub metadata: AccountInfo<'info>,
    pub master_edition: AccountInfo<'info>,
    /// The user's token account for the mint.
    pub destination: AccountInfo<'info>,
    pub system_program: AccountInfo<'info>,
    pub token_program: AccountInfo<'info>,
    pub associated_token_program: AccountInfo<'info>,
    pub token_metadata_program: AccountInfo<'info>,
    pub sysvar_instruction: AccountInfo<'info>,
}

/// The bumps found when the addresses of [`CreateCollection`] were derived.
#[derive(Clone, Copy, Debug, PartialEq, Eq)]
pub struct CreateCollectionBumps {
    pub mint_authority: u8,
}

/// The names of the accounts of [`CreateCollection`].
#[derive(Clone, Copy, Debug, PartialEq, Eq)]
pub enum CreateCollectionSlot {
    User,
    Mint,
    MintAuthority,
    Metadata,
    MasterEdition,
    Destination,
    SystemProgram,
    TokenProgram,
    AssociatedTokenProgram,
    TokenMetadataProgram,
    SysvarInstruction,
}

impl<'info> AccountSet<'info> for CreateCollection<'info> {
    type Slot = CreateCollectionSlot;

    fn account(&self, slot: CreateCollectionSlot) -> &AccountInfo<'info> {
        match slot {
            CreateCollectionSlot::User => &self.user,
            CreateCollectionSlot::Mint => &self.mint,
            CreateCollectionSlot::MintAuthority => &self.mint_authority,
            CreateCollectionSlot::Metadata => &self.metadata,
            CreateCollectionSlot::MasterEdition => &self.master_edition,
            CreateCollectionSlot::Destination => &self.destination,
            CreateCollectionSlot::SystemProgram => &self.system_program,
            CreateCollectionSlot::TokenProgram => &self.token_program,
            CreateCollectionSlot::AssociatedTokenProgram => &self.associated_token_program,
            CreateCollectionSlot::TokenMetadataProgram => &self.token_metadata_program,
            CreateCollectionSlot::SysvarInstruction => &self.sysvar_instruction,
        }
    }

    open spec fn at(&self, slot: CreateCollectionSlot) -> AccountInfo<'info> {
        match slot {
            CreateCollectionSlot::User => self.user,
            CreateCollectionSlot::Mint => self.mint,
            CreateCollectionSlot::MintAuthority => self.mint_authority,
            CreateCollectionSlot::Metadata => self.metadata,
            CreateCollectionSlot::MasterEdition => self.master_edition,
            CreateCollectionSlot::Destination => self.destination,
            CreateCollectionSlot::SystemProgram => self.system_program,
            CreateCollectionSlot::TokenProgram => self.token_program,
            CreateCollectionSlot::AssociatedTokenProgram => self.associated_token_program,
            CreateCollectionSlot::TokenMetadataProgram => self.token_metadata_program,
            CreateCollectionSlot::SysvarInstruction => self.sysvar_instruction,
        }
    }
}

/// First call: the metadata account of the collection. The mint authority
/// is update authority and sole creator, the user pays, and the token is
/// marked as a sized collection without members.
pub open spec fn collection_metadata_call() -> CreateMetadataCallView<CreateCollectionSlot> {
    CreateMetadataCallView {
        program: CreateCollectionSlot::TokenMetadataProgram,
        metadata: CreateCollectionSlot::Metadata,
        mint: CreateCollectionSlot::Mint,
        mint_authority: CreateCollectionSlot::MintAuthority,
        payer: CreateCollectionSlot::User,
        update_authority: CreateCollectionSlot::MintAuthority,
        update_authority_is_signer: true,
        system_program: CreateCollectionSlot::SystemProgram,
        rent: None,
        data: collection_data(CreateCollectionSlot::MintAuthority),
        is_mutable: true,
        collection_size: Some(0),
    }
}

/// Second call: one token of the collection mint goes to the user's token
/// account.
pub open spec fn collection_mint_to_call() -> MintToCall<CreateCollectionSlot> {
    MintToCall {
        program: CreateCollectionSlot::TokenProgram,
        mint: CreateCollectionSlot::Mint,
        to: CreateCollectionSlot::Destination,
        authority: CreateCollectionSlot::MintAuthority,
        amount: 1,
    }
}

/// Third call: the master edition of the collection token, of which no
/// print can be made.
pub open spec fn collection_master_edition_call() -> CreateMasterEditionCall<CreateCollectionSlot> {
    CreateMasterEditionCall {
        program: CreateCollectionSlot::TokenMetadataProgram,
        edition: CreateCollectionSlot::MasterEdition,
        mint: CreateCollectionSlot::Mint,
        update_authority: CreateCollectionSlot::MintAuthority,
        mint_authority: CreateCollectionSlot::MintAuthority,
        payer: CreateCollectionSlot::User,
        metadata: CreateCollectionSlot::Metadata,
        token_program: CreateCollectionSlot::TokenProgram,
        system_program: CreateCollectionSlot::SystemProgram,
        rent: None,
        max_supply: Some(0),
    }
}

/// The calls that create the collection, in the order in which they are
/// made.
pub open spec fn create_collection_plan() -> Seq<CallView<CreateCollectionSlot>> {
    seq![
        CallView::CreateMetadata(collection_metadata_call()),
        CallView::MintTo(collection_mint_to_call()),
        CallView::CreateMasterEdition(collection_master_edition_call()),
    ]
}

/// Builds the calls that create the collection.
pub fn create_collection_calls() -> (calls: Vec<Call<CreateCollectionSlot>>)
    ensures
        call_views(calls@) == create_collection_plan(),
        forall|i: int| 0 <= i < calls@.len() ==> (#[trigger] calls@[i])@.encodable(),
{
    let metadata = CreateMetadataCall {
        program: CreateCollectionSlot::TokenMetadataProgram,
        metadata: CreateCollectionSlot::Metadata,
        mint: CreateCollectionSlot::Mint,
        mint_authority: CreateCollectionSlot::MintAuthority,
        payer: CreateCollectionSlot::User,
        update_authority: CreateCollectionSlot::MintAuthority,
        update_authority_is_signer: true,
        system_program: CreateCollectionSlot::SystemProgram,
        rent: None,
        data: collection_token_data(CreateCollectionSlot::MintAuthority),
        is_mutable: true,
        collection_size: Some(0),
    };
    let mint_to = MintToCall {
        program: CreateCollectionSlot::TokenProgram,
        mint: CreateCollectionSlot::Mint,
        to: CreateCollectionSlot::Destination,
        authority: CreateCollectionSlot::MintAuthority,
        amount: 1,
    };
    let master_edition = CreateMasterEditionCall {
        program: CreateCollectionSlot::TokenMetadataProgram,
        edition: CreateCollectionSlot::MasterEdition,
        mint: CreateCollectionSlot::Mint,
        update_authority: CreateCollectionSlot::MintAuthority,
        mint_authority: CreateCollectionSlot::MintAuthority,
        payer: CreateCollectionSlot::User,
        metadata: CreateCollectionSlot::Metadata,
        token_program: CreateCollectionSlot::TokenProgram,
        system_program: CreateCollectionSlot::SystemProgram,
        rent: None,
        max_supply: Some(0),
    };
    let mut calls: Vec<Call<CreateCollectionSlot>> = Vec::new();
    calls.push(Call::CreateMetadata(metadata));
    calls.push(Call::MintTo(mint_to));
    calls.push(Call::CreateMasterEdition(master_edition));
    assert(call_views(calls@) =~= create_collection_plan());
    calls
}

impl<'info> CreateCollection<'info> {
    /// Creates the collection: makes the calls of
    /// [`create_collection_plan`] in order, each signed as the mint
    /// authority, and stops at the first that fails.
    ///
    /// The accounts themselves are left as they were handed in. Whether a
    /// call succeeds is for the runtime to say, so nothing is promised of
    /// success; a failure names one of the three calls.
    pub fn create_collection(&mut self, bumps: &CreateCollectionBumps) -> (done: Result<(), Failure>)
        ensures
            *final(self) == *old(self),
            done matches Err(failure) ==> failure.step < create_collection_plan().len(),
    {
        let seeds = signer_seeds(bumps.mint_authority);
        let calls = create_collection_calls();
        assert(call_views(calls@).len() == calls@.len());
        run(&*self, calls, &seeds)
    }
}

} // verus!
