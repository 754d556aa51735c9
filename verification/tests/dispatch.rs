//! Making calls from descriptions: any list of calls, on the accounts of
//! the minting instruction.

use std::sync::Arc;
use std::sync::Mutex;

use mint_nft::calls::Call;
use mint_nft::calls::CreateMasterEditionCall;
use mint_nft::calls::CreateMetadataCall;
use mint_nft::calls::MintToCall;
use mint_nft::dispatch::issue;
use mint_nft::dispatch::run;
use mint_nft::contexts::mint_nft::MintNFTSlot;
use mint_nft::dispatch::AccountSet;
use mint_nft::MintNFT;
use mint_nft::metadata::CreatorShare;
use mint_nft::metadata::TokenData;
use mint_nft::seeds::signer_seeds;
use solana_program::account_info::AccountInfo;
use solana_program::entrypoint::ProgramResult;
use solana_program::instruction::AccountMeta;
use solana_program::instruction::Instruction;
use solana_program::program_error::ProgramError;
use solana_program::program_stubs::set_syscall_stubs;
use solana_program::program_stubs::SyscallStubs;
use solana_program::pubkey::Pubkey;

#[derive(Clone, Debug)]
struct Received {
    accounts: Vec<AccountMeta>,
    data: Vec<u8>,
    signers: Vec<Vec<Vec<u8>>>,
}

struct Recorder {
    log: Arc<Mutex<Vec<Received>>>,
    fail_at: Option<usize>,
}

impl SyscallStubs for Recorder {
    fn sol_log(&self, _message: &str) {}

    fn sol_invoke_signed(
        &self,
        instruction: &Instruction,
        _account_infos: &[AccountInfo],
        signers_seeds: &[&[&[u8]]],
    ) -> ProgramResult {
        let mut log = self.log.lock().unwrap();
        let index = log.len();
        log.push(Received {
            accounts: instruction.accounts.clone(),
            data: instruction.data.clone(),
            signers: signers_seeds
                .iter()
                .map(|seeds| seeds.iter().map(|seed| seed.to_vec()).collect())
                .collect(),
        });
        if self.fail_at == Some(index) {
            Err(ProgramError::InvalidArgument)
        } else {
            Ok(())
        }
    }
}

fn record(fail_at: Option<usize>) -> Arc<Mutex<Vec<Received>>> {
    let log = Arc::new(Mutex::new(Vec::new()));
    set_syscall_stubs(Box::new(Recorder { log: log.clone(), fail_at }));
    log
}

struct Ledger {
    keys: Vec<Pubkey>,
    lamports: Vec<u64>,
    data: Vec<Vec<u8>>,
    owner: Pubkey,
}

fn key(n: u8) -> Pubkey {
    Pubkey::new_from_array([n; 32])
}

fn ledger() -> Ledger {
    Ledger {
        keys: (0u8..12).map(key).collect(),
        lamports: vec![0; 12],
        data: vec![Vec::new(); 12],
        owner: key(99),
    }
}

fn numbered(ledger: &mut Ledger) -> MintNFT<'_> {
    let owner = &ledger.owner;
    let infos: Vec<AccountInfo<'_>> = ledger
        .keys
        .iter()
        .zip(ledger.lamports.iter_mut())
        .zip(ledger.data.iter_mut())
        .map(|((key, lamports), data)| {
            AccountInfo::new(key, false, true, lamports, data, owner, false, 0)
        })
        .collect();
    MintNFT {
        owner: infos[0].clone(),
        destination: infos[1].clone(),
        metadata: infos[2].clone(),
        master_edition: infos[3].clone(),
        mint: infos[4].clone(),
        mint_authority: infos[5].clone(),
        system_program: infos[6].clone(),
        token_program: infos[7].clone(),
        associated_token_program: infos[8].clone(),
        sysvar_instruction: infos[9].clone(),
        rent: infos[10].clone(),
        token_metadata_program: infos[11].clone(),
    }
}

fn mint_one() -> Call<MintNFTSlot> {
    Call::MintTo(MintToCall {
        program: MintNFTSlot::TokenProgram,
        mint: MintNFTSlot::Mint,
        to: MintNFTSlot::Destination,
        authority: MintNFTSlot::MintAuthority,
        amount: 1,
    })
}

fn master_edition(rent: Option<MintNFTSlot>, max_supply: Option<u64>) -> Call<MintNFTSlot> {
    Call::CreateMasterEdition(CreateMasterEditionCall {
        program: MintNFTSlot::TokenMetadataProgram,
        edition: MintNFTSlot::MasterEdition,
        mint: MintNFTSlot::Mint,
        update_authority: MintNFTSlot::MintAuthority,
        mint_authority: MintNFTSlot::MintAuthority,
        payer: MintNFTSlot::Owner,
        metadata: MintNFTSlot::Metadata,
        token_program: MintNFTSlot::TokenProgram,
        system_program: MintNFTSlot::SystemProgram,
        rent,
        max_supply,
    })
}

#[test]
fn account_hands_out_the_account_of_each_slot() {
    let mut ledger = ledger();
    let accounts = numbered(&mut ledger);
    let slots = [
        MintNFTSlot::Owner,
        MintNFTSlot::Destination,
        MintNFTSlot::Metadata,
        MintNFTSlot::MasterEdition,
        MintNFTSlot::Mint,
        MintNFTSlot::MintAuthority,
        MintNFTSlot::SystemProgram,
        MintNFTSlot::TokenProgram,
        MintNFTSlot::AssociatedTokenProgram,
        MintNFTSlot::SysvarInstruction,
        MintNFTSlot::Rent,
        MintNFTSlot::TokenMetadataProgram,
    ];
    for (n, slot) in slots.iter().enumerate() {
        assert_eq!(*accounts.account(*slot).key, key(n as u8));
    }
}

#[test]
fn run_of_no_calls_succeeds_without_the_runtime() {
    let log = record(Some(0));
    let mut ledger = ledger();
    let accounts = numbered(&mut ledger);

    let done = run(&accounts, Vec::new(), &signer_seeds(1));

    assert!(done.is_ok());
    assert!(log.lock().unwrap().is_empty());
}

#[test]
fn run_follows_the_order_of_the_list() {
    let log = record(None);
    let mut ledger = ledger();
    let accounts = numbered(&mut ledger);

    let done = run(&accounts, vec![master_edition(None, None), mint_one()], &signer_seeds(1));

    assert!(done.is_ok());
    let log = log.lock().unwrap().clone();
    assert_eq!(log.len(), 2);
    assert_eq!(log[0].data, vec![17, 0]);
    assert_eq!(log[1].data, vec![7, 1, 0, 0, 0, 0, 0, 0, 0]);
}

#[test]
fn run_names_the_call_that_failed() {
    let log = record(Some(1));
    let mut ledger = ledger();
    let accounts = numbered(&mut ledger);

    let failure = run(
        &accounts,
        vec![mint_one(), mint_one(), mint_one()],
        &signer_seeds(1),
    )
    .unwrap_err();

    assert_eq!(failure.step, 1);
    assert_eq!(ProgramError::from(failure.cause), ProgramError::InvalidArgument);
    assert_eq!(log.lock().unwrap().len(), 2);
}

#[test]
fn issue_signs_with_the_seeds_it_is_given() {
    let log = record(None);
    let mut ledger = ledger();
    let accounts = numbered(&mut ledger);

    issue(&accounts, mint_one(), &vec![vec![1, 2, 3], vec![], vec![4]]).unwrap();

    assert_eq!(log.lock().unwrap()[0].signers, vec![vec![vec![1, 2, 3], vec![], vec![4]]]);
}

#[test]
fn issue_passes_the_rent_account_only_where_one_is_named() {
    let log = record(None);
    let mut ledger = ledger();
    let accounts = numbered(&mut ledger);

    issue(&accounts, master_edition(Some(MintNFTSlot::Rent), Some(5)), &signer_seeds(1)).unwrap();
    issue(&accounts, master_edition(None, Some(5)), &signer_seeds(1)).unwrap();

    let log = log.lock().unwrap().clone();
    assert_eq!(log[0].accounts.len(), 9);
    assert_eq!(log[0].accounts[8], AccountMeta::new_readonly(key(10), false));
    assert_eq!(log[1].accounts.len(), 8);
    assert_eq!(log[0].data, vec![17, 1, 5, 0, 0, 0, 0, 0, 0, 0]);
}

#[test]
fn issue_writes_every_creator_with_the_key_of_its_account() {
    let log = record(None);
    let mut ledger = ledger();
    let accounts = numbered(&mut ledger);
    let call = Call::CreateMetadata(CreateMetadataCall {
        program: MintNFTSlot::TokenMetadataProgram,
        metadata: MintNFTSlot::Metadata,
        mint: MintNFTSlot::Mint,
        mint_authority: MintNFTSlot::MintAuthority,
        payer: MintNFTSlot::Owner,
        update_authority: MintNFTSlot::Destination,
        update_authority_is_signer: false,
        system_program: MintNFTSlot::SystemProgram,
        rent: None,
        data: TokenData {
            name: "n".to_string(),
            symbol: "s".to_string(),
            uri: "u".to_string(),
            seller_fee_basis_points: 258,
            creators: Some(vec![
                CreatorShare { address: MintNFTSlot::TokenProgram, verified: false, share: 60 },
                CreatorShare {
                    address: MintNFTSlot::AssociatedTokenProgram,
                    verified: true,
                    share: 40,
                },
            ]),
            collection: None,
            uses: None,
        },
        is_mutable: false,
        collection_size: None,
    });

    issue(&accounts, call, &signer_seeds(1)).unwrap();

    let mut expected: Vec<u8> = vec![33];
    expected.extend_from_slice(&[1, 0, 0, 0, b'n']);
    expected.extend_from_slice(&[1, 0, 0, 0, b's']);
    expected.extend_from_slice(&[1, 0, 0, 0, b'u']);
    expected.extend_from_slice(&[2, 1]);
    expected.extend_from_slice(&[1, 2, 0, 0, 0]);
    expected.extend_from_slice(&[7; 32]);
    expected.extend_from_slice(&[0, 60]);
    expected.extend_from_slice(&[8; 32]);
    expected.extend_from_slice(&[1, 40]);
    expected.extend_from_slice(&[0, 0]);
    expected.push(0);
    expected.push(0);
    let log = log.lock().unwrap().clone();
    assert_eq!(log[0].data, expected);
    assert_eq!(log[0].accounts[4], AccountMeta::new_readonly(key(1), false));
}

#[test]
fn issue_hands_on_the_error_of_the_runtime() {
    let _log = record(Some(0));
    let mut ledger = ledger();
    let accounts = numbered(&mut ledger);

    let error = issue(&accounts, mint_one(), &signer_seeds(1)).unwrap_err();

    assert_eq!(ProgramError::from(error), ProgramError::InvalidArgument);
}
