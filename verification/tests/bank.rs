use acquisim::bank::memory::MemoryStorage;
use acquisim::bank::{generate_token, BankOperationError};
use acquisim::domain::beneficiaries::{Beneficiaries, Beneficiary, Share};
use acquisim::domain::card_number::CardNumber;
use rust_decimal::prelude::FromPrimitive;
use rust_decimal::Decimal;

fn make_bank() -> MemoryStorage {
    MemoryStorage::new("test_bank", "pass").unwrap()
}

fn share(d: Decimal) -> Share {
    Share::new(d.mantissa(), d.scale()).unwrap()
}

fn total(bank: &MemoryStorage) -> i64 {
    let customers: i64 = bank.list_accounts().unwrap().iter().map(|a| a.balance).sum();
    customers + bank.store_balance().unwrap() + bank.bank_emission().unwrap()
}

#[test]
fn split_transaction_success() {
    let mut bank = make_bank();
    let payer_card = bank.add_account("payer", "pass").unwrap();
    bank.open_credit(&payer_card, 500).unwrap();

    let store = bank.get_store_account().unwrap().card();
    let bfc1 = bank.add_account("bfc1", "pass").unwrap();
    let bfc2 = bank.add_account("bfc2", "pass").unwrap();

    let store_tok = bank.new_card_token(&store).unwrap();
    let bfc1_tok = bank.new_card_token(&bfc1.clone()).unwrap();
    let bfc2_tok = bank.new_card_token(&bfc2.clone()).unwrap();

    let bfc = Beneficiaries::new(
        vec![
            Beneficiary::new(store_tok, share(Decimal::from_f32(0.37).unwrap())),
            Beneficiary::new(bfc1_tok, share(Decimal::from_f32(0.31).unwrap())),
            Beneficiary::new(bfc2_tok, share(Decimal::from_f32(0.32).unwrap())),
        ],
        true,
    );

    bank.new_split_transaction(&payer_card, 256, &bfc).unwrap();

    assert_eq!(bank.balance(&bank.get_store_account().unwrap().card()).unwrap(), 95);
    assert_eq!(bank.balance(&bfc1).unwrap(), 79);
    assert_eq!(bank.balance(&bfc2).unwrap(), 82);
    assert_eq!(bank.balance(&payer_card).unwrap(), 244);
}

#[test]
fn split_shares_need_not_add_up() {
    // Known precision gap: each share is rounded by itself, and the residue is lost.
    let mut bank = make_bank();
    let payer = bank.add_account("payer", "pass").unwrap();
    bank.open_credit(&payer, 10).unwrap();
    let a = bank.add_account("a", "pass").unwrap();
    let b = bank.add_account("b", "pass").unwrap();
    let a_tok = bank.new_card_token(&a).unwrap();
    let b_tok = bank.new_card_token(&b).unwrap();
    let half = Share::new(5, 1).unwrap();
    let bfc = Beneficiaries::new(
        vec![Beneficiary::new(a_tok, half), Beneficiary::new(b_tok, half)],
        true,
    );
    // 0.5 of 5 is 2.5, which rounds to the even 2, twice.
    bank.new_split_transaction(&payer, 5, &bfc).unwrap();
    assert_eq!(bank.balance(&a).unwrap(), 2);
    assert_eq!(bank.balance(&b).unwrap(), 2);
    assert_eq!(bank.balance(&payer).unwrap(), 6);
    assert_eq!(total(&bank), 0);
}

#[test]
fn shares_round_half_to_even() {
    let half = Share::new(5, 1).unwrap();
    assert_eq!(half.of(1), Some(0));
    assert_eq!(half.of(3), Some(2));
    assert_eq!(half.of(5), Some(2));
    assert_eq!(half.of(7), Some(4));
    assert_eq!(half.of(-3), Some(-2));
    assert_eq!(Share::new(37, 2).unwrap().of(256), Some(95));
    assert_eq!(Share::new(31, 2).unwrap().of(256), Some(79));
    assert_eq!(Share::new(32, 2).unwrap().of(256), Some(82));
    assert_eq!(Share::new(1, 0).unwrap().of(i64::MAX), Some(i64::MAX));
    assert_eq!(Share::new(0, 5).unwrap().of(1234), Some(0));
    assert_eq!(Share::new(4999, 4).unwrap().of(1), Some(0));
    assert_eq!(Share::new(5001, 4).unwrap().of(1), Some(1));
}

#[test]
fn shares_that_overflow_have_no_amount() {
    // Twice the largest amount does not fit in 64 bits.
    assert_eq!(Share::new(2, 0).unwrap().of(i64::MAX), None);
    // The largest mantissa times a large amount overflows the decimal itself.
    let huge = Share::new(0xFFFF_FFFF_FFFF_FFFF_FFFF_FFFF, 0).unwrap();
    assert_eq!(huge.of(i64::MAX), None);
}

#[test]
fn share_bounds() {
    assert!(Share::new(1, 28).is_some());
    assert!(Share::new(1, 29).is_none());
    assert!(Share::new(0xFFFF_FFFF_FFFF_FFFF_FFFF_FFFF, 0).is_some());
    assert!(Share::new(0x1_0000_0000_0000_0000_0000_0000, 0).is_none());
    assert!(Share::new(-0xFFFF_FFFF_FFFF_FFFF_FFFF_FFFF, 0).is_some());
    assert!(Share::new(-0x1_0000_0000_0000_0000_0000_0000, 0).is_none());
    let s = Share::new(-37, 2).unwrap();
    assert_eq!(s.mantissa(), -37);
    assert_eq!(s.scale(), 2);
}

#[test]
fn split_is_all_or_nothing() {
    let mut bank = make_bank();
    let payer = bank.add_account("payer", "pass").unwrap();
    bank.open_credit(&payer, i64::MAX).unwrap();
    let a = bank.add_account("a", "pass").unwrap();
    let b = bank.add_account("b", "pass").unwrap();
    let a_tok = bank.new_card_token(&a).unwrap();
    let b_tok = bank.new_card_token(&b).unwrap();
    let bfc = Beneficiaries::new(
        vec![
            Beneficiary::new(a_tok, Share::new(1, 1).unwrap()),
            Beneficiary::new(b_tok, Share::new(2, 0).unwrap()),
        ],
        true,
    );
    let r = bank.new_split_transaction(&payer, i64::MAX, &bfc);
    assert!(matches!(r, Err(BankOperationError::BadOperation(_))));
    assert_eq!(bank.balance(&a).unwrap(), 0);
    assert_eq!(bank.balance(&payer).unwrap(), i64::MAX);
    assert_eq!(bank.list_transactions().unwrap().len(), 1);
}

#[test]
fn split_refusals() {
    let mut bank = make_bank();
    let payer = bank.add_account("payer", "pass").unwrap();
    bank.open_credit(&payer, 100).unwrap();
    let a = bank.add_account("a", "pass").unwrap();
    let a_tok = bank.new_card_token(&a).unwrap();
    let payer_tok = bank.new_card_token(&payer).unwrap();
    let one = Share::new(1, 0).unwrap();

    let invalid = Beneficiaries::new(vec![Beneficiary::new(a_tok.clone(), one)], false);
    assert!(matches!(
        bank.new_split_transaction(&payer, 10, &invalid),
        Err(BankOperationError::BadTransaction)
    ));
    let unknown = Beneficiaries::new(vec![Beneficiary::new("nope".to_string(), one)], true);
    assert!(matches!(
        bank.new_split_transaction(&payer, 10, &unknown),
        Err(BankOperationError::TokenNotFound)
    ));
    let to_self = Beneficiaries::new(
        vec![Beneficiary::new(a_tok.clone(), one), Beneficiary::new(payer_tok, one)],
        true,
    );
    assert!(matches!(
        bank.new_split_transaction(&payer, 10, &to_self),
        Err(BankOperationError::BadTransaction)
    ));
    let ok = Beneficiaries::new(vec![Beneficiary::new(a_tok.clone(), one)], true);
    assert!(matches!(
        bank.new_split_transaction(&payer, 101, &ok),
        Err(BankOperationError::NotEnoughFunds)
    ));
    assert!(matches!(
        bank.new_split_transaction(&payer, 0, &ok),
        Err(BankOperationError::BadTransaction)
    ));
    let stranger = CardNumber::parse("9999999999999999").unwrap();
    assert!(matches!(
        bank.new_split_transaction(&stranger, 10, &ok),
        Err(BankOperationError::AccountNotFound)
    ));
    bank.delete_account(&a).unwrap();
    assert!(matches!(
        bank.new_split_transaction(&payer, 10, &ok),
        Err(BankOperationError::AccountIsDeleted)
    ));
    assert_eq!(bank.balance(&payer).unwrap(), 100);
    assert_eq!(bank.list_transactions().unwrap().len(), 1);
    // With no beneficiaries nothing is moved.
    bank.new_split_transaction(&payer, 10, &Beneficiaries::empty()).unwrap();
    assert_eq!(bank.balance(&payer).unwrap(), 100);
}

#[test]
fn balances_add_up_to_zero() {
    let mut bank = make_bank();
    assert_eq!(total(&bank), 0);
    let a = bank.add_account("a", "pass").unwrap();
    let b = bank.add_account("b", "pass").unwrap();
    let store = bank.get_store_account().unwrap().card();
    bank.open_credit(&a, 1000).unwrap();
    assert_eq!(total(&bank), 0);
    bank.new_transaction(&a, &b, 300).unwrap();
    bank.new_transaction(&b, &store, 120).unwrap();
    bank.new_transaction(&a, &store, 1).unwrap();
    bank.delete_account(&b).unwrap();
    assert_eq!(total(&bank), 0);
    assert_eq!(bank.bank_emission().unwrap(), -1000);
    assert_eq!(bank.store_balance().unwrap(), 121);
    assert_eq!(bank.balance(&a).unwrap(), 699);
    let accounts = bank.list_accounts().unwrap();
    assert_eq!(accounts[1].balance, 180);
    assert!(!accounts[1].exists);
}

#[test]
fn no_transfer_overdraws() {
    let mut bank = make_bank();
    let a = bank.add_account("a", "pass").unwrap();
    let b = bank.add_account("b", "pass").unwrap();
    bank.open_credit(&a, 50).unwrap();
    assert!(matches!(bank.new_transaction(&a, &b, 51), Err(BankOperationError::NotEnoughFunds)));
    assert!(matches!(bank.new_transaction(&b, &a, 1), Err(BankOperationError::NotEnoughFunds)));
    bank.new_transaction(&a, &b, 50).unwrap();
    assert_eq!(bank.balance(&a).unwrap(), 0);
    assert_eq!(bank.balance(&b).unwrap(), 50);
    assert!(matches!(bank.new_transaction(&a, &b, 1), Err(BankOperationError::NotEnoughFunds)));
}

#[test]
fn transfer_refusals() {
    let mut bank = make_bank();
    let a = bank.add_account("a", "pass").unwrap();
    let b = bank.add_account("b", "pass").unwrap();
    bank.open_credit(&a, 50).unwrap();
    let stranger = CardNumber::parse("9999999999999999").unwrap();
    assert!(matches!(bank.new_transaction(&stranger, &b, 1), Err(BankOperationError::AccountNotFound)));
    assert!(matches!(bank.new_transaction(&a, &stranger, 1), Err(BankOperationError::AccountNotFound)));
    assert!(matches!(bank.new_transaction(&a, &a, 1), Err(BankOperationError::BadTransaction)));
    assert!(matches!(bank.new_transaction(&a, &b, 0), Err(BankOperationError::BadTransaction)));
    assert!(matches!(bank.new_transaction(&a, &b, -5), Err(BankOperationError::BadTransaction)));
    // The emission account does not resolve: only credit draws on it.
    let emission = bank.get_emission_account().unwrap().card();
    assert!(matches!(bank.new_transaction(&emission, &a, 1), Err(BankOperationError::AccountNotFound)));
    bank.delete_account(&b).unwrap();
    assert!(matches!(bank.new_transaction(&a, &b, 1), Err(BankOperationError::AccountIsDeleted)));
    assert_eq!(bank.list_transactions().unwrap().len(), 1);
}

#[test]
fn an_account_is_deleted_once() {
    let mut bank = make_bank();
    let a = bank.add_account("a", "pass").unwrap();
    assert!(bank.delete_account(&a).is_ok());
    assert!(matches!(bank.delete_account(&a), Err(BankOperationError::AccountIsDeleted)));
    assert!(matches!(bank.delete_account(&a), Err(BankOperationError::AccountIsDeleted)));
    assert!(matches!(bank.find_account(&a), Err(BankOperationError::AccountIsDeleted)));
    assert!(matches!(bank.balance(&a), Err(BankOperationError::AccountIsDeleted)));
    let stranger = CardNumber::parse("9999999999999999").unwrap();
    assert!(matches!(bank.delete_account(&stranger), Err(BankOperationError::AccountNotFound)));
}

#[test]
fn system_accounts_are_protected() {
    let mut bank = make_bank();
    let store = bank.get_store_account().unwrap().card();
    let emission = bank.get_emission_account().unwrap().card();
    for _ in 0..2 {
        match bank.delete_account(&store) {
            Err(BankOperationError::BadOperation(m)) => assert_eq!(m, "Can't delete store account"),
            other => panic!("{other:?}"),
        }
        match bank.delete_account(&emission) {
            Err(BankOperationError::BadOperation(m)) => {
                assert_eq!(m, "Can't delete emission account")
            }
            other => panic!("{other:?}"),
        }
    }
    assert!(bank.find_account(&store).is_ok());
    assert!(bank.get_store_account().unwrap().is_existing());
}

#[test]
fn tokens_resolve_to_their_cards() {
    let mut bank = make_bank();
    let a = bank.add_account("a", "pass").unwrap();
    let b = bank.add_account("b", "pass").unwrap();
    let mut tokens: Vec<(String, CardNumber)> = Vec::new();
    for i in 0..50 {
        let card = if i % 2 == 0 { a.clone() } else { b.clone() };
        let token = bank.new_card_token(&card).unwrap();
        assert_eq!(token.len(), 30);
        assert!(token.bytes().all(|c| c.is_ascii_alphanumeric()));
        tokens.push((token, card));
    }
    for (i, (token, card)) in tokens.iter().enumerate() {
        assert_eq!(bank.get_account_by_token(token).unwrap().card(), *card);
        for (other, _) in tokens.iter().skip(i + 1) {
            assert_ne!(token, other);
        }
    }
    assert!(matches!(bank.get_account_by_token("nope"), Err(BankOperationError::TokenNotFound)));
    let stranger = CardNumber::parse("9999999999999999").unwrap();
    assert!(matches!(bank.new_card_token(&stranger), Err(BankOperationError::AccountNotFound)));
    let accounts = bank.list_accounts().unwrap();
    assert_eq!(accounts[0].tokens.len(), 25);
    assert_eq!(accounts[0].tokens[0], tokens[0].0);
    assert_eq!(accounts[1].tokens[24], tokens[49].0);
    // A token outlives the account it stands for, but no longer resolves.
    bank.delete_account(&a).unwrap();
    assert!(matches!(
        bank.get_account_by_token(&tokens[0].0),
        Err(BankOperationError::AccountIsDeleted)
    ));
}

#[test]
fn generated_tokens_are_thirty_letters_and_digits() {
    for _ in 0..50 {
        let token = generate_token();
        assert_eq!(token.chars().count(), 30);
        assert!(token.chars().all(|c| c.is_ascii_alphanumeric()));
    }
    assert_ne!(generate_token(), generate_token());
}

#[test]
fn authorization() {
    let mut bank = make_bank();
    let a = bank.add_account("a", "secret").unwrap();
    let account = bank.authorize_account(&a, "secret").unwrap();
    assert_eq!(account.card(), a);
    assert_eq!(account.username(), "a");
    assert!(account.is_existing());
    assert!(matches!(bank.authorize_account(&a, "Secret"), Err(BankOperationError::NotAuthorized)));
    let stranger = CardNumber::parse("9999999999999999").unwrap();
    assert!(matches!(
        bank.authorize_account(&stranger, "secret"),
        Err(BankOperationError::AccountNotFound)
    ));
    let store = bank.get_store_account().unwrap().card();
    assert!(bank.authorize_account(&store, "pass").is_ok());
    assert!(bank.authorize_system("test_bank", "pass").is_ok());
    assert!(matches!(bank.authorize_system("test_bank", "nope"), Err(BankOperationError::NotAuthorized)));
    assert!(matches!(bank.authorize_system("store", "pass"), Err(BankOperationError::NotAuthorized)));
    bank.delete_account(&a).unwrap();
    assert!(matches!(bank.authorize_account(&a, "secret"), Err(BankOperationError::AccountIsDeleted)));
}

#[test]
fn a_balance_beyond_64_bits_is_an_internal_error() {
    let mut bank = make_bank();
    let a = bank.add_account("a", "pass").unwrap();
    bank.open_credit(&a, i64::MAX).unwrap();
    assert_eq!(bank.balance(&a).unwrap(), i64::MAX);
    bank.open_credit(&a, 1).unwrap();
    assert!(matches!(bank.balance(&a), Err(BankOperationError::InternalError(_))));
    assert_eq!(bank.bank_emission().unwrap(), i64::MIN);
    assert!(matches!(bank.list_accounts(), Err(BankOperationError::InternalError(_))));
    bank.open_credit(&a, 1).unwrap();
    assert!(matches!(bank.bank_emission(), Err(BankOperationError::InternalError(_))));
    let store = bank.get_store_account().unwrap().card();
    bank.new_transaction(&a, &store, 1).unwrap();
    // The log is exact all the same: a transfer brings the balance back in range.
    let b = bank.add_account("b", "pass").unwrap();
    bank.new_transaction(&a, &b, 2).unwrap();
    assert_eq!(bank.balance(&a).unwrap(), i64::MAX - 1);
    assert_eq!(bank.balance(&b).unwrap(), 2);
}

#[test]
fn credit_is_unconditional() {
    let mut bank = make_bank();
    let a = bank.add_account("a", "pass").unwrap();
    bank.open_credit(&a, 7).unwrap();
    bank.open_credit(&a, 7).unwrap();
    assert_eq!(bank.balance(&a).unwrap(), 14);
    assert_eq!(bank.bank_emission().unwrap(), -14);
    let stranger = CardNumber::parse("9999999999999999").unwrap();
    assert!(matches!(bank.open_credit(&stranger, 1), Err(BankOperationError::AccountNotFound)));
    let log = bank.list_transactions().unwrap();
    assert_eq!(log.len(), 2);
    assert_eq!(log[0].amount(), 7);
    assert_eq!(log[0].recipient().card(), a);
    assert_eq!(log[0].sender().card(), bank.get_emission_account().unwrap().card());
    assert!(log[0].datetime() > 0);
    assert!(log[0].datetime() <= log[1].datetime());
}

#[test]
fn changes_are_notified() {
    let mut bank = make_bank();
    assert!(!bank.take_changed());
    let a = bank.add_account("a", "pass").unwrap();
    assert!(bank.take_changed());
    assert!(!bank.take_changed());
    let _ = bank.balance(&a);
    assert!(!bank.take_changed());
    let stranger = CardNumber::parse("9999999999999999").unwrap();
    // A deletion notifies whatever its verdict; a refused transfer does not.
    assert!(bank.delete_account(&stranger).is_err());
    assert!(bank.take_changed());
    assert!(bank.new_transaction(&a, &stranger, 1).is_err());
    assert!(!bank.take_changed());
    bank.open_credit(&a, 1).unwrap();
    assert!(bank.take_changed());
    bank.new_card_token(&a).unwrap();
    assert!(bank.take_changed());
}

#[test]
fn reports_list_the_transactions_of_an_account() {
    let mut bank = make_bank();
    let a = bank.add_account("a", "pass").unwrap();
    let b = bank.add_account("b", "pass").unwrap();
    let c = bank.add_account("c", "pass").unwrap();
    bank.open_credit(&a, 10).unwrap();
    bank.open_credit(&c, 10).unwrap();
    bank.new_transaction(&a, &b, 4).unwrap();
    let accounts = bank.list_accounts().unwrap();
    assert_eq!(accounts.len(), 3);
    assert_eq!(accounts[0].username, "a");
    assert_eq!(accounts[0].card_number, a);
    assert_eq!(accounts[0].transactions.len(), 2);
    assert_eq!(accounts[1].transactions.len(), 1);
    assert_eq!(accounts[1].transactions[0].amount(), 4);
    assert_eq!(accounts[2].transactions.len(), 1);
    assert_eq!(accounts[2].balance, 10);
    assert!(accounts[2].exists);
}

#[test]
fn error_messages() {
    assert_eq!(BankOperationError::AccountNotFound.message(), "No account");
    assert_eq!(BankOperationError::TokenNotFound.message(), "No account for token");
    assert_eq!(BankOperationError::AccountIsDeleted.message(), "Account was deleted");
    assert_eq!(BankOperationError::NotEnoughFunds.message(), "Not enough funds for operation");
    assert_eq!(BankOperationError::NotAuthorized.message(), "Account is not authorized");
    assert_eq!(BankOperationError::BadTransaction.message(), "Can't perform transaction");
    assert_eq!(BankOperationError::InternalError("disk".to_string()).message(), "Internal error");
    assert_eq!(
        BankOperationError::MutexLockError("busy".to_string()).message(),
        "Mutex lock error: busy"
    );
    assert_eq!(
        BankOperationError::BadOperation("no".to_string()).message(),
        "Attempt to perform not allowed operation: no"
    );
    assert_eq!(
        BankOperationError::MutexLockError("busy".to_string()).str_reason_for_client(),
        "Internal error"
    );
    assert_eq!(
        BankOperationError::NotEnoughFunds.str_reason_for_client(),
        "Not enough funds for operation"
    );
}
