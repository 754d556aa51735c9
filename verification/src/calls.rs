//! Descriptions of the calls this program makes into other programs.
//!
//! A call names each account by a slot `S` of the instruction that makes
//! it, so a description is plain data: which account stands in which role,
//! and which arguments go along.

use vstd::prelude::*;
use mpl_token_metadata::types::AuthorizationData;
use solana_program::pubkey::Pubkey;
use crate::metadata::TokenData;
use crate::metadata::TokenDataView;

verus! {

/// Create the metadata account of a mint (token metadata program).
#[derive(Clone, Debug, PartialEq, Eq)]
pub struct CreateMetadataCall<S> {
    pub program: S,
    pub metadata: S,
    pub mint: S,
    pub mint_authority: S,
    pub payer: S,
    pub update_authority: S,
    pub update_authority_is_signer: bool,
    pub system_program: S,
    pub rent: Option<S>,
    pub data: TokenData<S>,
    pub is_mutable: bool,
    /// `Some(n)` marks the token as a sized collection that starts with `n`
    /// members.
    pub collection_size: Option<u64>,
}

/// The mathematical value of a [`CreateMetadataCall`].
pub ghost struct CreateMetadataCallView<S> {
    pub program: S,
    pub metadata: S,
    pub mint: S,
    pub mint_authority: S,
    pub payer: S,
    pub update_authority: S,
    pub update_authority_is_signer: bool,
    pub system_program: S,
    pub rent: Option<S>,
    pub data: TokenDataView<S>,
    pub is_mutable: bool,
    pub collection_size: Option<u64>,
}

impl<S> View for CreateMetadataCall<S> {
    type V = CreateMetadataCallView<S>;

    open spec fn view(&self) -> CreateMetadataCallView<S> {
        CreateMetadataCallView {
            program: self.program,
            metadata: self.metadata,
            mint: self.mint,
            mint_authority: self.mint_authority,
            payer: self.payer,
            update_authority: self.update_authority,
            update_authority_is_signer: self.update_authority_is_signer,
            system_program: self.system_program,
            rent: self.rent,
            data: self.data@,
            is_mutable: self.is_mutable,
            collection_size: self.collection_size,
        }
    }
}

/// Mint `amount` tokens of `mint` into the token account `to` (token
/// program).
#[derive(Clone, Copy, Debug, PartialEq, Eq)]
pub struct MintToCall<S> {
    pub program: S,
    pub mint: S,
    pub to: S,
    pub authority: S,
    pub amount: u64,
}

/// Create the master edition of a mint (token metadata program).
#[derive(Clone, Copy, Debug, PartialEq, Eq)]
pub struct CreateMasterEditionCall<S> {
    pub program: S,
    pub edition: S,
    pub mint: S,
    pub update_authority: S,
    pub mint_authority: S,
    pub payer: S,
    pub metadata: S,
    pub token_program: S,
    pub system_program: S,
    pub rent: Option<S>,
    /// The most prints that may ever be made; `Some(0)` allows none.
    pub max_supply: Option<u64>,
}

/// Mint `amount` tokens through the token metadata program.
#[derive(Clone, Debug, PartialEq, Eq)]
pub struct MintCall<S> {
    pub program: S,
    pub token: S,
    pub token_owner: Option<S>,
    pub metadata: S,
    pub master_edition: Option<S>,
    pub token_record: Option<S>,
    pub mint: S,
    pub authority: S,
    pub delegate_record: Option<S>,
    pub payer: S,
    pub system_program: S,
    pub sysvar_instructions: S,
    pub spl_token_program: S,
    pub spl_ata_program: S,
    pub authorization_rules_program: Option<S>,
    pub authorization_rules: Option<S>,
    pub amount: u64,
    pub authorization_data: Option<AuthorizationData>,
}

/// Mark a token as a verified member of a collection (token metadata
/// program, unified instruction).
#[derive(Clone, Copy, Debug, PartialEq, Eq)]
pub struct VerifyCollectionCall<S> {
    pub program: S,
    pub authority: S,
    pub delegate_record: Option<S>,
    pub metadata: S,
    pub collection_mint: S,
    pub collection_metadata: Option<S>,
    pub collection_master_edition: Option<S>,
    pub system_program: S,
    pub sysvar_instructions: S,
}

/// Mark a token as a verified member of a sized collection and count it
/// (token metadata program, earlier instruction).
#[derive(Clone, Debug, PartialEq, Eq)]
pub struct VerifySizedItemCall<S> {
    pub program: S,
    pub payer: S,
    pub metadata: S,
    pub collection_authority: S,
    pub collection_mint: S,
    pub collection_metadata: S,
    pub collection_master_edition: S,
    pub collection_authority_record: Option<Pubkey>,
}

/// One call into another program.
#[derive(Clone, Debug, PartialEq, Eq)]
pub enum Call<S> {
    CreateMetadata(CreateMetadataCall<S>),
    MintTo(MintToCall<S>),
    CreateMasterEdition(CreateMasterEditionCall<S>),
    Mint(MintCall<S>),
    VerifyCollection(VerifyCollectionCall<S>),
    VerifySizedItem(VerifySizedItemCall<S>),
}

/// The mathematical value of a [`Call`].
pub ghost enum CallView<S> {
    CreateMetadata(CreateMetadataCallView<S>),
    MintTo(MintToCall<S>),
    CreateMasterEdition(CreateMasterEditionCall<S>),
    Mint(MintCall<S>),
    VerifyCollection(VerifyCollectionCall<S>),
    VerifySizedItem(VerifySizedItemCall<S>),
}

impl<S> View for Call<S> {
    type V = CallView<S>;

    open spec fn view(&self) -> CallView<S> {
        match *self {
            Call::CreateMetadata(call) => CallView::CreateMetadata(call@),
            Call::MintTo(call) => CallView::MintTo(call),
            Call::CreateMasterEdition(call) => CallView::CreateMasterEdition(call),
            Call::Mint(call) => CallView::Mint(call),
            Call::VerifyCollection(call) => CallView::VerifyCollection(call),
            Call::VerifySizedItem(call) => CallView::VerifySizedItem(call),
        }
    }
}

impl<S> CallView<S> {
    /// The call can be put into the byte form in which it is sent. Metadata
    /// must keep to [`TokenDataView::encodable`]; authorization data, whose
    /// lengths this crate cannot see, must be absent.
    pub open spec fn encodable(self) -> bool {
        &&& self matches CallView::CreateMetadata(call) ==> call.data.encodable()
        &&& self matches CallView::Mint(call) ==> call.authorization_data is None
    }
}

/// The values of a list of calls, in order.
pub open spec fn call_views<S>(calls: Seq<Call<S>>) -> Seq<CallView<S>> {
    calls.map_values(|call: Call<S>| call@)
}

} // verus!
