use acquisim::bank::memory::MemoryStorage;
use acquisim::bank::pg::needs_system_accounts;
use acquisim::bank::{system_accounts_with, Account, BankOperationError};
use acquisim::cornucopia::queries::bank_queries::{
    GetAccount, GetAccountBorrowed, GetAccountByToken, GetAccountByTokenBorrowed,
};
use acquisim::domain::card_number::{CardNumber, CardNumberError};
use acquisim::domain::requests::system_api::{
    AddAccountRequest, DeleteAccountRequest, NewTransactionRequest, OpenCreditRequest,
};
use acquisim::routes::session::init::{
    make_payment, PAYMENT_PAGE_ENDPOINT, REGISTER_CARD_TOKEN_PAGE_ENDPOINT,
};
use acquisim::routes::system::{
    add_account, delete_account, list_accounts, new_transaction, open_account, open_credit,
    SystemApiError,
};
use acquisim::routes::token::token_info;

fn make_bank() -> MemoryStorage {
    MemoryStorage::new("test_bank", "pass").unwrap()
}

#[test]
fn the_operator_runs_the_bank() {
    let mut bank = make_bank();
    let a = add_account(
        &mut bank,
        &AddAccountRequest { username: "a".to_string(), password: "pass".to_string() },
    )
    .unwrap()
    .card_number;
    let b = add_account(
        &mut bank,
        &AddAccountRequest { username: "b".to_string(), password: "pass".to_string() },
    )
    .unwrap()
    .card_number;
    open_credit(&mut bank, &OpenCreditRequest { card_number: a.clone(), amount: 40 }).unwrap();
    new_transaction(
        &mut bank,
        &NewTransactionRequest { from: a.clone(), to: b.clone(), amount: 15 },
    )
    .unwrap();
    let refused = new_transaction(
        &mut bank,
        &NewTransactionRequest { from: a.clone(), to: b.clone(), amount: 26 },
    );
    match refused {
        Err(e @ SystemApiError::BankOperationError(BankOperationError::NotEnoughFunds)) => {
            assert_eq!(e.status_code(), 400)
        }
        other => panic!("{other:?}"),
    }
    delete_account(&mut bank, &DeleteAccountRequest { card_number: b.clone() }).unwrap();
    assert!(delete_account(&mut bank, &DeleteAccountRequest { card_number: b.clone() }).is_err());
    let accounts = list_accounts(&bank).unwrap().accounts;
    assert_eq!(accounts.len(), 2);
    assert_eq!(accounts[0].balance, 25);
    assert_eq!(accounts[1].balance, 15);
    assert!(!accounts[1].exists);
}

#[test]
fn errors_of_the_operator_api_have_a_status() {
    assert_eq!(SystemApiError::NotAuthorized.status_code(), 401);
    assert_eq!(SystemApiError::MutexLockError("busy".to_string()).status_code(), 500);
    assert_eq!(
        SystemApiError::BankOperationError(BankOperationError::InternalError("x".to_string()))
            .status_code(),
        500
    );
    assert_eq!(
        SystemApiError::BankOperationError(BankOperationError::MutexLockError("x".to_string()))
            .status_code(),
        500
    );
    for e in [
        BankOperationError::AccountNotFound,
        BankOperationError::TokenNotFound,
        BankOperationError::AccountIsDeleted,
        BankOperationError::NotEnoughFunds,
        BankOperationError::NotAuthorized,
        BankOperationError::BadTransaction,
        BankOperationError::BadOperation("x".to_string()),
    ] {
        assert_eq!(SystemApiError::BankOperationError(e).status_code(), 400);
    }
}

#[test]
fn the_store_pays_by_token() {
    let mut bank = make_bank();
    let a = bank.add_account("a", "pass").unwrap();
    let store = bank.get_store_account().unwrap().card();
    bank.open_credit(&store, 100).unwrap();
    let token = bank.new_card_token(&a).unwrap();
    make_payment(&mut bank, &token, 30).unwrap();
    assert_eq!(bank.balance(&a).unwrap(), 30);
    assert_eq!(bank.store_balance().unwrap(), 70);
    assert!(matches!(make_payment(&mut bank, &token, 71), Err(BankOperationError::NotEnoughFunds)));
    assert!(matches!(make_payment(&mut bank, "nope", 1), Err(BankOperationError::TokenNotFound)));
    let own = bank.new_card_token(&store).unwrap();
    assert!(matches!(make_payment(&mut bank, &own, 1), Err(BankOperationError::BadTransaction)));
    assert_eq!(bank.store_balance().unwrap(), 70);
}

#[test]
fn token_information() {
    let mut bank = make_bank();
    let a = bank.add_account("a", "pass").unwrap();
    let token = bank.new_card_token(&a).unwrap();
    assert_eq!(token_info(&bank, &token), Ok(true));
    assert_eq!(token_info(&bank, "nope"), Err("No token found".to_string()));
    bank.delete_account(&a).unwrap();
    assert_eq!(token_info(&bank, &token), Err("No token found".to_string()));
}

#[test]
fn accounts_are_read_from_rows() {
    let row = GetAccount::from_borrowed(GetAccountBorrowed {
        username: "a",
        card_number: "1234123412341234",
        is_existing: false,
        password_hash: "$argon2id$...",
    });
    assert_eq!(row.password_hash, "$argon2id$...");
    let account = Account::try_from(row).unwrap();
    assert_eq!(account.username(), "a");
    assert_eq!(account.card(), CardNumber::parse("1234123412341234").unwrap());
    assert!(!account.is_existing());
    let bad = GetAccount {
        username: "a".to_string(),
        card_number: "1234".to_string(),
        is_existing: true,
        password_hash: String::new(),
    };
    assert_eq!(Account::try_from(bad).err().unwrap(), CardNumberError::BadLength);
    let by_token = GetAccountByToken::from_borrowed(GetAccountByTokenBorrowed {
        username: "b",
        card_number: "0000000000000000",
        is_existing: true,
    });
    assert_eq!(by_token.username, "b");
    assert_eq!(by_token.card_number, "0000000000000000");
    assert!(by_token.is_existing);
}

#[test]
fn page_endpoints() {
    assert_eq!(PAYMENT_PAGE_ENDPOINT, "payment_page");
    assert_eq!(REGISTER_CARD_TOKEN_PAGE_ENDPOINT, "register_card_token_page");
}

#[test]
fn an_account_is_opened_unless_its_number_is_taken() {
    let emission = CardNumber::parse("1111111111111111").unwrap();
    let store = CardNumber::parse("2222222222222222").unwrap();
    let mut bank =
        MemoryStorage::with_system_cards("test_bank", "pass", emission.clone(), store.clone())
            .unwrap();
    assert_eq!(bank.get_emission_account().unwrap().card(), emission);
    assert_eq!(bank.get_store_account().unwrap().card(), store);
    assert_eq!(bank.get_store_account().unwrap().username(), "store");
    assert!(bank.authorize_system("test_bank", "pass").is_ok());
    assert!(!bank.take_changed());

    let card = CardNumber::parse("1234123412341234").unwrap();
    assert_eq!(bank.open_account("a", "secret", card.clone()).unwrap(), card);
    assert!(bank.take_changed());
    assert_eq!(bank.find_account(&card).unwrap().username(), "a");
    assert!(bank.authorize_account(&card, "secret").is_ok());
    assert_eq!(bank.balance(&card).unwrap(), 0);
    let accounts = bank.list_accounts().unwrap();
    assert_eq!(accounts.len(), 1);
    assert!(accounts[0].exists);
    assert_eq!(accounts[0].username, "a");

    // A number that is taken opens no account and changes nothing.
    for taken in [card.clone(), store.clone(), emission.clone()] {
        assert!(matches!(
            bank.open_account("b", "pass", taken),
            Err(BankOperationError::InternalError(_))
        ));
        assert!(!bank.take_changed());
        assert_eq!(bank.list_accounts().unwrap().len(), 1);
    }
    // A deleted account keeps its number.
    bank.delete_account(&card).unwrap();
    assert!(bank.open_account("c", "pass", card.clone()).is_err());

    let other = CardNumber::parse("0000000000000000").unwrap();
    let response = open_account(
        &mut bank,
        &AddAccountRequest { username: "d".to_string(), password: "pass".to_string() },
        other.clone(),
    )
    .unwrap();
    assert_eq!(response.card_number, other);
    let refused = open_account(
        &mut bank,
        &AddAccountRequest { username: "e".to_string(), password: "pass".to_string() },
        other.clone(),
    );
    match refused {
        Err(e @ SystemApiError::BankOperationError(BankOperationError::InternalError(_))) => {
            assert_eq!(e.status_code(), 500)
        }
        _ => panic!("a taken number opened an account"),
    }
    assert_eq!(bank.list_accounts().unwrap().len(), 2);
}

#[test]
fn system_accounts_need_two_card_numbers() {
    let one = CardNumber::parse("1111111111111111").unwrap();
    let two = CardNumber::parse("2222222222222222").unwrap();
    let (emission, store) = system_accounts_with("bank", "hash", one.clone(), two.clone()).unwrap();
    assert_eq!(emission.card(), one);
    assert_eq!(emission.username(), "bank");
    assert_eq!(emission.password(), "hash");
    assert_eq!(store.card(), two);
    assert_eq!(store.username(), "store");
    assert_eq!(store.password(), "hash");
    assert!(emission.is_existing() && store.is_existing());
    assert!(matches!(
        system_accounts_with("bank", "hash", one.clone(), one.clone()),
        Err(BankOperationError::InternalError(_))
    ));
    assert!(matches!(
        MemoryStorage::with_system_cards("bank", "hash", two.clone(), two.clone()),
        Err(BankOperationError::InternalError(_))
    ));
}

#[test]
fn system_accounts_are_made_once() {
    assert!(needs_system_accounts(0));
    assert!(!needs_system_accounts(1));
    assert!(!needs_system_accounts(2));
    assert!(!needs_system_accounts(-1));
}
