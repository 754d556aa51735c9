//! Carrying out calls: from a description to the runtime, one after another.

use vstd::prelude::*;
use solana_program::account_info::AccountInfo;
use crate::calls::Call;
use crate::calls::CreateMasterEditionCall;
use crate::calls::CreateMetadataCall;
use crate::calls::MintCall;
use crate::calls::MintToCall;
use crate::calls::VerifyCollectionCall;
use crate::calls::VerifySizedItemCall;
use crate::metadata::CreatorShare;
use crate::runtime::creator_entry;
use crate::runtime::framework_error;
use crate::runtime::invoke_create_master_edition;
use crate::runtime::invoke_create_metadata;
use crate::runtime::invoke_mint;
use crate::runtime::invoke_mint_to;
use crate::runtime::invoke_verify_collection;
use crate::runtime::invoke_verify_sized_collection_item;

verus! {

/// The accounts that one instruction of this program receives, each under
/// a slot of its own.
pub trait AccountSet<'info> {
    /// The names of the accounts.
    type Slot: Copy;

    /// Hands out the account that stands in `slot`.
    fn account(&self, slot: Self::Slot) -> (found: &AccountInfo<'info>)
        ensures
            *found == self.at(slot),
    ;

    /// The account that stands in `slot`.
    spec fn at(&self, slot: Self::Slot) -> AccountInfo<'info>;
}

/// Why an instruction stopped: the position, in the list of its calls, of
/// the call that failed, and the error that call gave.
#[derive(Debug)]
pub struct Failure {
    pub step: usize,
    pub cause: anchor_lang::error::Error,
}

/// What an instruction makes of the outcome of its call number `step`: it
/// goes on after a success and stops with the call's own error otherwise.
pub fn settle(
    step: usize,
    outcome: Result<(), anchor_lang::error::Error>,
) -> (settled: Result<(), Failure>)
    ensures
        outcome is Ok ==> settled is Ok,
        outcome matches Err(cause) ==> settled == Err::<(), Failure>(Failure { step, cause }),
{
    match outcome {
        Ok(()) => Ok(()),
        Err(cause) => Err(Failure { step, cause }),
    }
}

/// The account in `slot`, where there is a slot.
fn optional_account<'a, 'info, C: AccountSet<'info>>(
    accounts: &'a C,
    slot: Option<C::Slot>,
) -> (found: Option<&'a AccountInfo<'info>>)
    ensures
        slot is None ==> found is None,
        slot matches Some(named) ==> found matches Some(account) && *account == accounts.at(named),
{
    match slot {
        Some(slot) => Some(accounts.account(slot)),
        None => None,
    }
}

/// The error of a call into the token metadata program, as the framework's
/// error.
fn framework_outcome(
    outcome: Result<(), solana_program::program_error::ProgramError>,
) -> (converted: Result<(), anchor_lang::error::Error>)
    ensures
        converted is Ok <==> outcome is Ok,
{
    match outcome {
        Ok(()) => Ok(()),
        Err(error) => Err(framework_error(error)),
    }
}

/// The creators in the form the token metadata program takes them, each
/// with the key of the account that its slot names.
fn creator_entries<'info, C: AccountSet<'info>>(
    accounts: &C,
    creators: Option<Vec<CreatorShare<C::Slot>>>,
) -> (entries: Option<Vec<mpl_token_metadata::types::Creator>>)
    ensures
        entries is Some <==> creators is Some,
        entries matches Some(list) ==> list@.len() == creators->0@.len(),
{
    match creators {
        None => None,
        Some(creators) => {
            let mut list: Vec<mpl_token_metadata::types::Creator> = Vec::new();
            let mut i: usize = 0;
            while i < creators.len()
                invariant
                    i <= creators@.len(),
                    list@.len() == i,
                decreases creators@.len() - i,
            {
                let creator = &creators[i];
                list.push(
                    creator_entry(
                        accounts.account(creator.address),
                        creator.verified,
                        creator.share,
                    ),
                );
                i += 1;
            }
            Some(list)
        },
    }
}

fn issue_create_metadata<'info, C: AccountSet<'info>>(
    accounts: &C,
    call: CreateMetadataCall<C::Slot>,
    seeds: &Vec<Vec<u8>>,
) -> Result<(), anchor_lang::error::Error>
    requires
        call@.data.encodable(),
{
    let data = call.data;
    let creators = creator_entries(accounts, data.creators);
    framework_outcome(
        invoke_create_metadata(
            accounts.account(call.program),
            accounts.account(call.metadata),
            accounts.account(call.mint),
            accounts.account(call.mint_authority),
            accounts.account(call.payer),
            accounts.account(call.update_authority),
            call.update_authority_is_signer,
            accounts.account(call.system_program),
            optional_account(accounts, call.rent),
            data.name,
            data.symbol,
            data.uri,
            data.seller_fee_basis_points,
            creators,
            data.collection,
            data.uses,
            call.is_mutable,
            call.collection_size,
            seeds,
        ),
    )
}

fn issue_mint_to<'info, C: AccountSet<'info>>(
    accounts: &C,
    call: MintToCall<C::Slot>,
    seeds: &Vec<Vec<u8>>,
) -> Result<(), anchor_lang::error::Error> {
    invoke_mint_to(
        accounts.account(call.program),
        accounts.account(call.mint),
        accounts.account(call.to),
        accounts.account(call.authority),
        call.amount,
        seeds,
    )
}

fn issue_create_master_edition<'info, C: AccountSet<'info>>(
    accounts: &C,
    call: CreateMasterEditionCall<C::Slot>,
    seeds: &Vec<Vec<u8>>,
) -> Result<(), anchor_lang::error::Error> {
    framework_outcome(
        invoke_create_master_edition(
            accounts.account(call.program),
            accounts.account(call.edition),
            accounts.account(call.mint),
            accounts.account(call.update_authority),
            accounts.account(call.mint_authority),
            accounts.account(call.payer),
            accounts.account(call.metadata),
            accounts.account(call.token_program),
            accounts.account(call.system_program),
            optional_account(accounts, call.rent),
            call.max_supply,
            seeds,
        ),
    )
}

fn issue_mint<'info, C: AccountSet<'info>>(
    accounts: &C,
    call: MintCall<C::Slot>,
    seeds: &Vec<Vec<u8>>,
) -> Result<(), anchor_lang::error::Error>
    requires
        call.authorization_data is None,
{
    framework_outcome(
        invoke_mint(
            accounts.account(call.program),
            accounts.account(call.token),
            optional_account(accounts, call.token_owner),
            accounts.account(call.metadata),
            optional_account(accounts, call.master_edition),
            optional_account(accounts, call.token_record),
            accounts.account(call.mint),
            accounts.account(call.authority),
            optional_account(accounts, call.delegate_record),
            accounts.account(call.payer),
            accounts.account(call.system_program),
            accounts.account(call.sysvar_instructions),
            accounts.account(call.spl_token_program),
            accounts.account(call.spl_ata_program),
            optional_account(accounts, call.authorization_rules_program),
            optional_account(accounts, call.authorization_rules),
            call.amount,
            call.authorization_data,
            seeds,
        ),
    )
}

fn issue_verify_collection<'info, C: AccountSet<'info>>(
    accounts: &C,
    call: VerifyCollectionCall<C::Slot>,
    seeds: &Vec<Vec<u8>>,
) -> Result<(), anchor_lang::error::Error> {
    framework_outcome(
        invoke_verify_collection(
            accounts.account(call.program),
            accounts.account(call.authority),
            optional_account(accounts, call.delegate_record),
            accounts.account(call.metadata),
            accounts.account(call.collection_mint),
            optional_account(accounts, call.collection_metadata),
            optional_account(accounts, call.collection_master_edition),
            accounts.account(call.system_program),
            accounts.account(call.sysvar_instructions),
            seeds,
        ),
    )
}

fn issue_verify_sized_item<'info, C: AccountSet<'info>>(
    accounts: &C,
    call: VerifySizedItemCall<C::Slot>,
    seeds: &Vec<Vec<u8>>,
) -> Result<(), anchor_lang::error::Error> {
    invoke_verify_sized_collection_item(
        accounts.account(call.program),
        accounts.account(call.payer),
        accounts.account(call.metadata),
        accounts.account(call.collection_authority),
        accounts.account(call.collection_mint),
        accounts.account(call.collection_metadata),
        accounts.account(call.collection_master_edition),
        call.collection_authority_record,
        seeds,
    )
}

/// Makes one call: puts the accounts of `accounts` into the roles that
/// `call` gives their slots, and hands the call to the runtime, signed with
/// `seeds`. What comes back is the answer of the runtime.
pub fn issue<'info, C: AccountSet<'info>>(
    accounts: &C,
    call: Call<C::Slot>,
    seeds: &Vec<Vec<u8>>,
) -> Result<(), anchor_lang::error::Error>
    requires
        call@.encodable(),
{
    match call {
        Call::CreateMetadata(call) => issue_create_metadata(accounts, call, seeds),
        Call::MintTo(call) => issue_mint_to(accounts, call, seeds),
        Call::CreateMasterEdition(call) => issue_create_master_edition(accounts, call, seeds),
        Call::Mint(call) => issue_mint(accounts, call, seeds),
        Call::VerifyCollection(call) => issue_verify_collection(accounts, call, seeds),
        Call::VerifySizedItem(call) => issue_verify_sized_item(accounts, call, seeds),
    }
}

/// Makes the calls of `calls` in order, each signed with `seeds`, and stops
/// at the first that fails. With no call to make it succeeds. A failure
/// names the call that gave it; which calls succeed is for the runtime to
/// say.
pub fn run<'info, C: AccountSet<'info>>(
    accounts: &C,
    calls: Vec<Call<C::Slot>>,
    seeds: &Vec<Vec<u8>>,
) -> (done: Result<(), Failure>)
    requires
        forall|i: int| 0 <= i < calls@.len() ==> (#[trigger] calls@[i])@.encodable(),
    ensures
        calls@.len() == 0 ==> done is Ok,
        done matches Err(failure) ==> failure.step < calls@.len(),
{
    let ghost all = calls@;
    assert(all.len() == calls.len());
    let mut rest = calls;
    let mut step: usize = 0;
    while rest.len() > 0
        invariant
            all == calls@,
            all.len() <= usize::MAX,
            step + rest@.len() == all.len(),
            rest@ == all.skip(step as int),
            forall|i: int| 0 <= i < all.len() ==> (#[trigger] all[i])@.encodable(),
        decreases rest@.len(),
    {
        let call = rest.remove(0);
        assert(call == all[step as int]);
        assert(rest@ =~= all.skip(step + 1));
        match settle(step, issue(accounts, call, seeds)) {
            Ok(()) => {},
            Err(failure) => {
                return Err(failure);
            },
        }
        step += 1;
    }
    Ok(())
}

} // verus!
