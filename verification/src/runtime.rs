//! The boundary to the Solana runtime and to the programs this crate calls.
//!
//! Everything in this file is trusted rather than proved: the declarations
//! make outside types known to the verifier, and each function hands its
//! arguments to exactly one outside function. Whether a cross-program call
//! succeeds is decided by the runtime and by the state of the ledger, so
//! none of the calls promises anything about its outcome.

use vstd::prelude::*;
use anchor_lang::context::CpiContext;
use anchor_spl::metadata::VerifySizedCollectionItem;
use anchor_spl::token::MintTo;
use mpl_token_metadata::instructions::CreateMasterEditionV3Cpi;
use mpl_token_metadata::instructions::CreateMasterEditionV3CpiAccounts;
use mpl_token_metadata::instructions::CreateMasterEditionV3InstructionArgs;
use mpl_token_metadata::instructions::CreateMetadataAccountV3Cpi;
use mpl_token_metadata::instructions::CreateMetadataAccountV3CpiAccounts;
use mpl_token_metadata::instructions::CreateMetadataAccountV3InstructionArgs;
use mpl_token_metadata::instructions::MintCpi;
use mpl_token_metadata::instructions::MintCpiAccounts;
use mpl_token_metadata::instructions::MintInstructionArgs;
use mpl_token_metadata::instructions::VerifyCollectionV1Cpi;
use mpl_token_metadata::instructions::VerifyCollectionV1CpiAccounts;
use mpl_token_metadata::types::AuthorizationData;
use mpl_token_metadata::types::Collection;
use mpl_token_metadata::types::CollectionDetails;
use mpl_token_metadata::types::DataV2;
use mpl_token_metadata::types::MintArgs;
use mpl_token_metadata::types::Uses;
use solana_program::account_info::AccountInfo;
use solana_program::program_error::ProgramError;
use solana_program::pubkey::Pubkey;

verus! {

/// `solana_program::account_info::AccountInfo`: the runtime's handle to one
/// account of the running instruction. Opaque here; it is only passed on.
#[verifier::external_type_specification]
#[verifier::external_body]
pub struct ExAccountInfo<'a>(AccountInfo<'a>);

/// `solana_program::pubkey::Pubkey`: the address of an account.
#[verifier::external_type_specification]
#[verifier::external_body]
pub struct ExPubkey(Pubkey);

/// `solana_program::program_error::ProgramError`: the reason a program, or a
/// call into another program, failed.
#[verifier::external_type_specification]
#[verifier::external_body]
pub struct ExProgramError(ProgramError);

/// `anchor_lang::error::Error`: the error type an Anchor instruction handler
/// returns.
#[verifier::external_type_specification]
#[verifier::external_body]
pub struct ExFrameworkError(anchor_lang::error::Error);

/// `mpl_token_metadata::types::Creator`: one creator entry as the token
/// metadata program expects it.
#[verifier::external_type_specification]
#[verifier::external_body]
pub struct ExCreatorEntry(mpl_token_metadata::types::Creator);

/// `mpl_token_metadata::types::Collection`: the collection a token's
/// metadata may point to.
#[verifier::external_type_specification]
#[verifier::external_body]
pub struct ExCollection(Collection);

/// `mpl_token_metadata::types::Uses`: the use counter a token's metadata may
/// carry.
#[verifier::external_type_specification]
#[verifier::external_body]
pub struct ExUses(Uses);

/// `mpl_token_metadata::types::AuthorizationData`: the payload for a rule
/// set that guards a programmable token.
#[verifier::external_type_specification]
#[verifier::external_body]
pub struct ExAuthorizationData(AuthorizationData);

/// Turns a program error into the framework's error with
/// `anchor_lang::error::Error::from`, as `?` does in an Anchor handler.
/// Nothing is claimed of the result.
#[verifier::external_body]
pub(crate) fn framework_error(error: ProgramError) -> (converted: anchor_lang::error::Error) {
    anchor_lang::error::Error::from(error)
}

/// Builds a `mpl_token_metadata::types::Creator` whose address is the key of
/// `account`. Nothing is claimed of the result.
#[verifier::external_body]
pub(crate) fn creator_entry<'info>(
    account: &AccountInfo<'info>,
    verified: bool,
    share: u8,
) -> (entry: mpl_token_metadata::types::Creator) {
    mpl_token_metadata::types::Creator { address: *account.key, verified, share }
}

/// Calls `CreateMetadataAccountV3Cpi::new(..).invoke_signed(..)` of
/// `mpl_token_metadata` with the given accounts in the roles their names
/// say, the given metadata, and one signer whose seeds are `seeds`.
///
/// The outside function serialises the metadata and panics where a length
/// does not fit the 32-bit prefix of the encoding; a character takes at most
/// four bytes, so the bounds below leave those inputs out. The outcome is
/// the runtime's: nothing is claimed of it.
#[verifier::external_body]
pub(crate) fn invoke_create_metadata<'info>(
    program: &AccountInfo<'info>,
    metadata: &AccountInfo<'info>,
    mint: &AccountInfo<'info>,
    mint_authority: &AccountInfo<'info>,
    payer: &AccountInfo<'info>,
    update_authority: &AccountInfo<'info>,
    update_authority_is_signer: bool,
    system_program: &AccountInfo<'info>,
    rent: Option<&AccountInfo<'info>>,
    name: String,
    symbol: String,
    uri: String,
    seller_fee_basis_points: u16,
    creators: Option<Vec<mpl_token_metadata::types::Creator>>,
    collection: Option<Collection>,
    uses: Option<Uses>,
    is_mutable: bool,
    collection_size: Option<u64>,
    seeds: &Vec<Vec<u8>>,
) -> (outcome: Result<(), ProgramError>)
    requires
        4 * name@.len() <= u32::MAX,
        4 * symbol@.len() <= u32::MAX,
        4 * uri@.len() <= u32::MAX,
        creators matches Some(list) ==> list@.len() <= u32::MAX,
{
    let accounts = CreateMetadataAccountV3CpiAccounts {
        metadata, mint, mint_authority, payer,
        update_authority: (update_authority, update_authority_is_signer), system_program, rent,
    };
    let data = DataV2 { name, symbol, uri, seller_fee_basis_points, creators, collection, uses };
    let collection_details = collection_size.map(|size| CollectionDetails::V1 { size });
    let args = CreateMetadataAccountV3InstructionArgs { data, is_mutable, collection_details };
    let parts: Vec<&[u8]> = seeds.iter().map(Vec::as_slice).collect();
    CreateMetadataAccountV3Cpi::new(program, accounts, args).invoke_signed(&[&parts])
}

/// Calls `CreateMasterEditionV3Cpi::new(..).invoke_signed(..)` of
/// `mpl_token_metadata` with the given accounts in the roles their names
/// say, the given supply cap, and one signer whose seeds are `seeds`.
/// The outcome is the runtime's: nothing is claimed of it.
#[verifier::external_body]
pub(crate) fn invoke_create_master_edition<'info>(
    program: &AccountInfo<'info>,
    edition: &AccountInfo<'info>,
    mint: &AccountInfo<'info>,
    update_authority: &AccountInfo<'info>,
    mint_authority: &AccountInfo<'info>,
    payer: &AccountInfo<'info>,
    metadata: &AccountInfo<'info>,
    token_program: &AccountInfo<'info>,
    system_program: &AccountInfo<'info>,
    rent: Option<&AccountInfo<'info>>,
    max_supply: Option<u64>,
    seeds: &Vec<Vec<u8>>,
) -> (outcome: Result<(), ProgramError>) {
    let accounts = CreateMasterEditionV3CpiAccounts {
        edition, mint, update_authority, mint_authority, payer,
        metadata, token_program, system_program, rent,
    };
    let args = CreateMasterEditionV3InstructionArgs { max_supply };
    let parts: Vec<&[u8]> = seeds.iter().map(Vec::as_slice).collect();
    CreateMasterEditionV3Cpi::new(program, accounts, args).invoke_signed(&[&parts])
}

/// Calls `MintCpi::new(..).invoke_signed(..)` of `mpl_token_metadata` with
/// the given accounts in the roles their names say, `MintArgs::V1` made of
/// `amount` and `authorization_data`, and one signer whose seeds are
/// `seeds`.
///
/// The outside function serialises its arguments and panics where a length
/// inside the authorization data does not fit the 32-bit prefix of the
/// encoding. That data is opaque here, so only calls without it are let
/// through. The outcome is the runtime's: nothing is claimed of it.
#[verifier::external_body]
pub(crate) fn invoke_mint<'info>(
    program: &AccountInfo<'info>,
    token: &AccountInfo<'info>,
    token_owner: Option<&AccountInfo<'info>>,
    metadata: &AccountInfo<'info>,
    master_edition: Option<&AccountInfo<'info>>,
    token_record: Option<&AccountInfo<'info>>,
    mint: &AccountInfo<'info>,
    authority: &AccountInfo<'info>,
    delegate_record: Option<&AccountInfo<'info>>,
    payer: &AccountInfo<'info>,
    system_program: &AccountInfo<'info>,
    sysvar_instructions: &AccountInfo<'info>,
    spl_token_program: &AccountInfo<'info>,
    spl_ata_program: &AccountInfo<'info>,
    authorization_rules_program: Option<&AccountInfo<'info>>,
    authorization_rules: Option<&AccountInfo<'info>>,
    amount: u64,
    authorization_data: Option<AuthorizationData>,
    seeds: &Vec<Vec<u8>>,
) -> (outcome: Result<(), ProgramError>)
    requires
        authorization_data is None,
{
    let accounts = MintCpiAccounts {
        token, token_owner, metadata, master_edition, token_record, mint, authority,
        delegate_record, payer, system_program, sysvar_instructions, spl_token_program,
        spl_ata_program, authorization_rules_program, authorization_rules,
    };
    let args = MintInstructionArgs { mint_args: MintArgs::V1 { amount, authorization_data } };
    let parts: Vec<&[u8]> = seeds.iter().map(Vec::as_slice).collect();
    MintCpi::new(program, accounts, args).invoke_signed(&[&parts])
}

/// Calls `VerifyCollectionV1Cpi::new(..).invoke_signed(..)` of
/// `mpl_token_metadata` with the given accounts in the roles their names
/// say and one signer whose seeds are `seeds`. The outcome is the runtime's:
/// nothing is claimed of it.
#[verifier::external_body]
pub(crate) fn invoke_verify_collection<'info>(
    program: &AccountInfo<'info>,
    authority: &AccountInfo<'info>,
    delegate_record: Option<&AccountInfo<'info>>,
    metadata: &AccountInfo<'info>,
    collection_mint: &AccountInfo<'info>,
    collection_metadata: Option<&AccountInfo<'info>>,
    collection_master_edition: Option<&AccountInfo<'info>>,
    system_program: &AccountInfo<'info>,
    sysvar_instructions: &AccountInfo<'info>,
    seeds: &Vec<Vec<u8>>,
) -> (outcome: Result<(), ProgramError>) {
    let accounts = VerifyCollectionV1CpiAccounts {
        authority, delegate_record, metadata, collection_mint, collection_metadata,
        collection_master_edition, system_program, sysvar_instructions,
    };
    let parts: Vec<&[u8]> = seeds.iter().map(Vec::as_slice).collect();
    VerifyCollectionV1Cpi::new(program, accounts).invoke_signed(&[&parts])
}

/// Calls `anchor_spl::token::mint_to` on a context made with
/// `CpiContext::new_with_signer` from `program`, the three accounts and one
/// signer whose seeds are `seeds`. The outcome is the runtime's: nothing is
/// claimed of it.
#[verifier::external_body]
pub(crate) fn invoke_mint_to<'info>(
    program: &AccountInfo<'info>,
    mint: &AccountInfo<'info>,
    to: &AccountInfo<'info>,
    authority: &AccountInfo<'info>,
    amount: u64,
    seeds: &Vec<Vec<u8>>,
) -> (outcome: Result<(), anchor_lang::error::Error>) {
    let accounts = MintTo { mint: mint.clone(), to: to.clone(), authority: authority.clone() };
    let parts: Vec<&[u8]> = seeds.iter().map(Vec::as_slice).collect();
    let signers: [&[&[u8]]; 1] = [&parts];
    let context = CpiContext::new_with_signer(program.clone(), accounts, &signers);
    anchor_spl::token::mint_to(context, amount)
}

/// Calls `anchor_spl::metadata::verify_sized_collection_item` on a context
/// made with `CpiContext::new_with_signer` from `program`, the six accounts
/// and one signer whose seeds are `seeds`. The outcome is the runtime's:
/// nothing is claimed of it.
#[verifier::external_body]
pub(crate) fn invoke_verify_sized_collection_item<'info>(
    program: &AccountInfo<'info>,
    payer: &AccountInfo<'info>,
    metadata: &AccountInfo<'info>,
    collection_authority: &AccountInfo<'info>,
    collection_mint: &AccountInfo<'info>,
    collection_metadata: &AccountInfo<'info>,
    collection_master_edition: &AccountInfo<'info>,
    collection_authority_record: Option<Pubkey>,
    seeds: &Vec<Vec<u8>>,
) -> (outcome: Result<(), anchor_lang::error::Error>) {
    let accounts = VerifySizedCollectionItem {
        payer: payer.clone(), metadata: metadata.clone(),
        collection_authority: collection_authority.clone(),
        collection_mint: collection_mint.clone(),
        collection_metadata: collection_metadata.clone(),
        collection_master_edition: collection_master_edition.clone(),
    };
    let parts: Vec<&[u8]> = seeds.iter().map(Vec::as_slice).collect();
    let signers: [&[&[u8]]; 1] = [&parts];
    let context = CpiContext::new_with_signer(program.clone(), accounts, &signers);
    anchor_spl::metadata::verify_sized_collection_item(context, collection_authority_record)
}

} // verus!
