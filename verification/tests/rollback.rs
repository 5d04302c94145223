use rollback_accounts::account::{Account, Pubkey};
use rollback_accounts::nonce_info::NonceInfo;
use rollback_accounts::rollback::RollbackAccounts;
use solana_account::{AccountSharedData, ReadableAccount, WritableAccount};
use solana_nonce::state::{Data as NonceData, DurableNonce, State as NonceState};
use solana_nonce::versions::Versions as NonceVersions;
use solana_sdk_ids::system_program;

fn pubkey(address: &solana_pubkey::Pubkey) -> Pubkey {
    Pubkey::new(address.to_bytes())
}

fn account(shared: &AccountSharedData) -> Account {
    Account {
        lamports: shared.lamports(),
        data: shared.data().to_vec(),
        owner: Pubkey::new(shared.owner().to_bytes()),
        executable: shared.executable(),
        rent_epoch: shared.rent_epoch(),
    }
}

fn nonce_account_shared(lamports: u64) -> AccountSharedData {
    let durable_nonce = DurableNonce::from_blockhash(&solana_hash::Hash::new_unique());
    let lamports_per_signature: u64 = 42;
    let state = NonceVersions::new(NonceState::Initialized(NonceData::new(
        solana_pubkey::Pubkey::default(),
        durable_nonce,
        lamports_per_signature,
    )));
    let data = bincode::serialize(&state).unwrap();
    let mut shared = AccountSharedData::new(lamports, 0, &system_program::id());
    shared.set_data_from_slice(&data);
    shared
}

#[test]
fn test_new_fee_payer_only() {
    let fee_payer_address = solana_pubkey::Pubkey::new_unique();
    let fee_payer_account = AccountSharedData::new(100, 0, &solana_pubkey::Pubkey::default());
    let fee_payer_rent_epoch = fee_payer_account.rent_epoch();

    let rent_epoch_updated_fee_payer_account = {
        let mut account = fee_payer_account.clone();
        account.set_lamports(fee_payer_account.lamports());
        account.set_rent_epoch(fee_payer_rent_epoch + 1);
        account
    };

    let rollback_accounts = RollbackAccounts::new(
        None,
        pubkey(&fee_payer_address),
        account(&rent_epoch_updated_fee_payer_account),
        fee_payer_rent_epoch,
    );

    let expected_fee_payer = (pubkey(&fee_payer_address), account(&fee_payer_account));
    match rollback_accounts {
        RollbackAccounts::FeePayerOnly { fee_payer } => {
            assert_eq!(expected_fee_payer, fee_payer);
        }
        _ => panic!("Expected FeePayerOnly variant"),
    }
}

#[test]
fn test_new_same_nonce_and_fee_payer() {
    let nonce_address = solana_pubkey::Pubkey::new_unique();
    let nonce_account = nonce_account_shared(43);

    let rent_epoch_updated_fee_payer_account = {
        let mut account = nonce_account.clone();
        account.set_lamports(nonce_account.lamports());
        account
    };

    let nonce = NonceInfo::new(
        pubkey(&nonce_address),
        account(&rent_epoch_updated_fee_payer_account),
    );
    let rollback_accounts = RollbackAccounts::new(
        Some(nonce),
        pubkey(&nonce_address),
        account(&rent_epoch_updated_fee_payer_account),
        u64::MAX, // ignored
    );

    let expected_rollback_accounts = RollbackAccounts::SameNonceAndFeePayer {
        nonce: (pubkey(&nonce_address), account(&nonce_account)),
    };

    assert_eq!(expected_rollback_accounts, rollback_accounts);
}

#[test]
fn test_separate_nonce_and_fee_payer() {
    let nonce_address = solana_pubkey::Pubkey::new_unique();
    let nonce_account = nonce_account_shared(43);

    let fee_payer_address = solana_pubkey::Pubkey::new_unique();
    let fee_payer_account = AccountSharedData::new(44, 0, &solana_pubkey::Pubkey::default());

    let rent_epoch_updated_fee_payer_account = {
        let mut account = fee_payer_account.clone();
        account.set_lamports(fee_payer_account.lamports());
        account
    };

    let nonce = NonceInfo::new(pubkey(&nonce_address), account(&nonce_account));
    let rollback_accounts = RollbackAccounts::new(
        Some(nonce),
        pubkey(&fee_payer_address),
        account(&rent_epoch_updated_fee_payer_account),
        u64::MAX, // ignored
    );

    let expected_nonce = (pubkey(&nonce_address), account(&nonce_account));
    let expected_fee_payer = (pubkey(&fee_payer_address), account(&fee_payer_account));
    match rollback_accounts {
        RollbackAccounts::SeparateNonceAndFeePayer { nonce, fee_payer } => {
            assert_eq!(expected_nonce, nonce);
            assert_eq!(expected_fee_payer, fee_payer);
        }
        _ => panic!("Expected SeparateNonceAndFeePayer variant"),
    }
}
