//! Minting a token into the owner's account: its metadata, the token
//! itself, its master edition.

use vstd::prelude::*;
use solana_program::account_info::AccountInfo;
use crate::calls::call_views;
use crate::calls::Call;
use crate::calls::CallView;
use crate::calls::CreateMasterEditionCall;
use crate::calls::CreateMetadataCall;
use crate::calls::CreateMetadataCallView;
use crate::calls::MintCall;
use crate::dispatch::run;
use crate::dispatch::AccountSet;
use crate::dispatch::Failure;
use crate::metadata::item_data;
use crate::metadata::item_token_data;
use crate::seeds::signer_seeds;

verus! {

/// The accounts of the instruction that mints a token.
pub struct MintNFT<'info> {
    /// Receives the token and pays for the new accounts.
    pub owner: AccountInfo<'info>,
    /// The owner's token account for the mint.
    pub destination: AccountInfo<'info>,
    pub metadata: AccountInfo<'info>,
    pub master_edition: AccountInfo<'info>,
    pub mint: AccountInfo<'info>,
    /// The program-derived address with authority over the mint.
    pub mint_authority: AccountInfo<'info>,
    pub system_program: AccountInfo<'info>,
    pub token_program: AccountInfo<'info>,
    pub associated_token_program: AccountInfo<'info>,
    pub sysvar_instruction: AccountInfo<'info>,
    pub rent: AccountInfo<'info>,
    pub token_metadata_program: AccountInfo<'info>,
}

/// The bumps found when the addresses of [`MintNFT`] were derived.
#[derive(Clone, Copy, Debug, PartialEq, Eq)]
pub struct MintNFTBumps {
    pub mint_authority: u8,
}

/// The names of the accounts of [`MintNFT`].
#[derive(Clone, Copy, Debug, PartialEq, Eq)]
pub enum MintNFTSlot {
    Owner,
    Destination,
    Metadata,
    MasterEdition,
    Mint,
    MintAuthority,
    SystemProgram,
    TokenProgram,
    AssociatedTokenProgram,
    SysvarInstruction,
    Rent,
    TokenMetadataProgram,
}

impl<'info> AccountSet<'info> for MintNFT<'info> {
    type Slot = MintNFTSlot;

    fn account(&self, slot: MintNFTSlot) -> &AccountInfo<'info> {
        match slot {
            MintNFTSlot::Owner => &self.owner,
            MintNFTSlot::Destination => &self.destination,
            MintNFTSlot::Metadata => &self.metadata,
            MintNFTSlot::MasterEdition => &self.master_edition,
            MintNFTSlot::Mint => &self.mint,
            MintNFTSlot::MintAuthority => &self.mint_authority,
            MintNFTSlot::SystemProgram => &self.system_program,
            MintNFTSlot::TokenProgram => &self.token_program,
            MintNFTSlot::AssociatedTokenProgram => &self.associated_token_program,
            MintNFTSlot::SysvarInstruction => &self.sysvar_instruction,
            MintNFTSlot::Rent => &self.rent,
            MintNFTSlot::TokenMetadataProgram => &self.token_metadata_program,
        }
    }

    open spec fn at(&self, slot: MintNFTSlot) -> AccountInfo<'info> {
        match slot {
            MintNFTSlot::Owner => self.owner,
            MintNFTSlot::Destination => self.destination,
            MintNFTSlot::Metadata => self.metadata,
            MintNFTSlot::MasterEdition => self.master_edition,
            MintNFTSlot::Mint => self.mint,
            MintNFTSlot::MintAuthority => self.mint_authority,
            MintNFTSlot::SystemProgram => self.system_program,
            MintNFTSlot::TokenProgram => self.token_program,
            MintNFTSlot::AssociatedTokenProgram => self.associated_token_program,
            MintNFTSlot::SysvarInstruction => self.sysvar_instruction,
            MintNFTSlot::Rent => self.rent,
            MintNFTSlot::TokenMetadataProgram => self.token_metadata_program,
        }
    }
}

/// First call: the metadata account of the token. The mint authority is
/// update authority and sole creator, the owner pays, and the token is no
/// collection of its own.
pub open spec fn item_metadata_call() -> CreateMetadataCallView<MintNFTSlot> {
    CreateMetadataCallView {
        program: MintNFTSlot::TokenMetadataProgram,
        metadata: MintNFTSlot::Metadata,
        mint: MintNFTSlot::Mint,
        mint_authority: MintNFTSlot::MintAuthority,
        payer: MintNFTSlot::Owner,
        update_authority: MintNFTSlot::MintAuthority,
        update_authority_is_signer: true,
        system_program: MintNFTSlot::SystemProgram,
        rent: Some(MintNFTSlot::Rent),
        data: item_data(MintNFTSlot::MintAuthority),
        is_mutable: true,
        collection_size: None,
    }
}

/// Second call: one token goes to the owner's token account, through the
/// token metadata program. No token record, no delegate and no rule set
/// take part.
pub open spec fn item_mint_call() -> MintCall<MintNFTSlot> {
    MintCall {
        program: MintNFTSlot::TokenMetadataProgram,
        token: MintNFTSlot::Destination,
        token_owner: Some(MintNFTSlot::Owner),
        metadata: MintNFTSlot::Metadata,
        master_edition: Some(MintNFTSlot::MasterEdition),
        token_record: None,
        mint: MintNFTSlot::Mint,
        authority: MintNFTSlot::MintAuthority,
        delegate_record: None,
        payer: MintNFTSlot::Owner,
        system_program: MintNFTSlot::SystemProgram,
        sysvar_instructions: MintNFTSlot::SysvarInstruction,
        spl_token_program: MintNFTSlot::TokenProgram,
        spl_ata_program: MintNFTSlot::AssociatedTokenProgram,
        authorization_rules_program: None,
        authorization_rules: None,
        amount: 1,
        authorization_data: None,
    }
}

/// Third call: the master edition of the token, of which no print can be
/// made.
pub open spec fn item_master_edition_call() -> CreateMasterEditionCall<MintNFTSlot> {
    CreateMasterEditionCall {
        program: MintNFTSlot::TokenMetadataProgram,
        edition: MintNFTSlot::MasterEdition,
        mint: MintNFTSlot::Mint,
        update_authority: MintNFTSlot::MintAuthority,
        mint_authority: MintNFTSlot::MintAuthority,
        payer: MintNFTSlot::Owner,
        metadata: MintNFTSlot::Metadata,
        token_program: MintNFTSlot::TokenProgram,
        system_program: MintNFTSlot::SystemProgram,
        rent: Some(MintNFTSlot::Rent),
        max_supply: Some(0),
    }
}

/// The calls that mint a token, in the order in which they are made.
pub open spec fn mint_nft_plan() -> Seq<CallView<MintNFTSlot>> {
    seq![
        CallView::CreateMetadata(item_metadata_call()),
        CallView::Mint(item_mint_call()),
        CallView::CreateMasterEdition(item_master_edition_call()),
    ]
}

/// Builds the calls that mint a token.
pub fn mint_nft_calls() -> (calls: Vec<Call<MintNFTSlot>>)
    ensures
        call_views(calls@) == mint_nft_plan(),
        forall|i: int| 0 <= i < calls@.len() ==> (#[trigger] calls@[i])@.encodable(),
{
    let metadata = CreateMetadataCall {
        program: MintNFTSlot::TokenMetadataProgram,
        metadata: MintNFTSlot::Metadata,
        mint: MintNFTSlot::Mint,
        mint_authority: MintNFTSlot::MintAuthority,
        payer: MintNFTSlot::Owner,
        update_authority: MintNFTSlot::MintAuthority,
        update_authority_is_signer: true,
        system_program: MintNFTSlot::SystemProgram,
        rent: Some(MintNFTSlot::Rent),
        data: item_token_data(MintNFTSlot::MintAuthority),
        is_mutable: true,
        collection_size: None,
    };
    let mint = MintCall {
        program: MintNFTSlot::TokenMetadataProgram,
        token: MintNFTSlot::Destination,
        token_owner: Some(MintNFTSlot::Owner),
        metadata: MintNFTSlot::Metadata,
        master_edition: Some(MintNFTSlot::MasterEdition),
        token_record: None,
        mint: MintNFTSlot::Mint,
        authority: MintNFTSlot::MintAuthority,
        delegate_record: None,
        payer: MintNFTSlot::Owner,
        system_program: MintNFTSlot::SystemProgram,
        sysvar_instructions: MintNFTSlot::SysvarInstruction,
        spl_token_program: MintNFTSlot::TokenProgram,
        spl_ata_program: MintNFTSlot::AssociatedTokenProgram,
        authorization_rules_program: None,
        authorization_rules: None,
        amount: 1,
        authorization_data: None,
    };
    let master_edition = CreateMasterEditionCall {
        program: MintNFTSlot::TokenMetadataProgram,
        edition: MintNFTSlot::MasterEdition,
        mint: MintNFTSlot::Mint,
        update_authority: MintNFTSlot::MintAuthority,
        mint_authority: MintNFTSlot::MintAuthority,
        payer: MintNFTSlot::Owner,
        metadata: MintNFTSlot::Metadata,
        token_program: MintNFTSlot::TokenProgram,
        system_program: MintNFTSlot::SystemProgram,
        rent: Some(MintNFTSlot::Rent),
        max_supply: Some(0),
    };
    let mut calls: Vec<Call<MintNFTSlot>> = Vec::new();
    calls.push(Call::CreateMetadata(metadata));
    calls.push(Call::Mint(mint));
    calls.push(Call::CreateMasterEdition(master_edition));
    assert(call_views(calls@) =~= mint_nft_plan());
    calls
}

impl<'info> MintNFT<'info> {
    /// Mints a token: makes the calls of [`mint_nft_plan`] in order, each
    /// signed as the mint authority, and stops at the first that fails.
    ///
    /// The accounts themselves are left as they were handed in. Whether a
    /// call succeeds is for the runtime to say, so nothing is promised of
    /// success; a failure names one of the three calls.
    pub fn mint_nft(&mut self, bumps: &MintNFTBumps) -> (done: Result<(), Failure>)
        ensures
            *final(self) == *old(self),
            done matches Err(failure) ==> failure.step < mint_nft_plan().len(),
    {
        let seeds = signer_seeds(bumps.mint_authority);
        let calls = mint_nft_calls();
        assert(call_views(calls@).len() == calls@.len());
        run(&*self, calls, &seeds)
    }
}

} // verus!
