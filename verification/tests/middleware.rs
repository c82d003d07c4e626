use acquisim::bank::memory::{
    authorize, delete_verdict, pays_to, plan_split, resolve_account, split,
};
use acquisim::bank::pg::{is_system_account, transaction_error};
use acquisim::bank::{system_accounts, Account, BankOperationError, Transaction};
use acquisim::cornucopia::queries::bank_queries::GetAccount;
use acquisim::domain::beneficiaries::{Beneficiaries, Beneficiary, Share};
use acquisim::domain::card_number::CardNumber;
use acquisim::middleware::{basic_authentication, credentials_from_text, AuthError};

fn account(name: &str, card: &str) -> Account {
    Account::try_from(GetAccount {
        username: name.to_string(),
        card_number: card.to_string(),
        is_existing: true,
        password_hash: "hash".to_string(),
    })
    .unwrap()
}

#[test]
fn basic_credentials_are_read() {
    let c = basic_authentication(Some("Basic dXNlcjpwYXNz")).unwrap();
    assert_eq!(c.username, "user");
    assert_eq!(c.password, "pass");
    // White space around the payload does not count, and none is needed.
    for header in ["Basic   dXNlcjpwYXNz  ", "Basic\tdXNlcjpwYXNz\t", "BasicdXNlcjpwYXNz"] {
        let c = basic_authentication(Some(header)).unwrap();
        assert_eq!((c.username.as_str(), c.password.as_str()), ("user", "pass"));
    }
    // The name ends at the first colon.
    let c = basic_authentication(Some("Basic YTpiOmM=")).unwrap();
    assert_eq!((c.username.as_str(), c.password.as_str()), ("a", "b:c"));
    let c = basic_authentication(Some("Basic OnB3")).unwrap();
    assert_eq!((c.username.as_str(), c.password.as_str()), ("", "pw"));
    let c = basic_authentication(Some("Basic dTo=")).unwrap();
    assert_eq!((c.username.as_str(), c.password.as_str()), ("u", ""));
    // Credentials may hold any text.
    let c = basic_authentication(Some("Basic w7w6w58=")).unwrap();
    assert_eq!((c.username.as_str(), c.password.as_str()), ("\u{fc}", "\u{df}"));
}

#[test]
fn basic_credentials_are_refused() {
    assert_eq!(basic_authentication(None).err().unwrap(), AuthError::MissingHeader);
    assert_eq!(basic_authentication(Some("Basic \u{e9}")).err().unwrap(), AuthError::NotText);
    assert_eq!(basic_authentication(Some("Bearer dXNlcjpwYXNz")).err().unwrap(), AuthError::NotBasic);
    assert_eq!(basic_authentication(Some("basic dXNlcjpwYXNz")).err().unwrap(), AuthError::NotBasic);
    assert_eq!(basic_authentication(Some("Basi")).err().unwrap(), AuthError::NotBasic);
    assert_eq!(basic_authentication(Some("")).err().unwrap(), AuthError::NotBasic);
    assert_eq!(basic_authentication(Some("Basic !!!")).err().unwrap(), AuthError::NotBase64);
    assert_eq!(basic_authentication(Some("Basic dXNlcjpwYXN")).err().unwrap(), AuthError::NotBase64);
    assert_eq!(basic_authentication(Some("Basic dXNl cjpwYXNz")).err().unwrap(), AuthError::NotBase64);
    assert_eq!(basic_authentication(Some("Basic //46")).err().unwrap(), AuthError::NotUtf8);
    assert_eq!(basic_authentication(Some("Basic bm9jb2xvbg==")).err().unwrap(), AuthError::NoPassword);
    assert_eq!(basic_authentication(Some("Basic")).err().unwrap(), AuthError::NoPassword);
    assert_eq!(basic_authentication(Some("Basic    ")).err().unwrap(), AuthError::NoPassword);
}

#[test]
fn credentials_split_at_the_first_colon() {
    let c = credentials_from_text("name:word").unwrap();
    assert_eq!((c.username.as_str(), c.password.as_str()), ("name", "word"));
    let c = credentials_from_text("\u{442}\u{435}\u{441}\u{442}:\u{43f}:\u{440}").unwrap();
    assert_eq!(c.username, "\u{442}\u{435}\u{441}\u{442}");
    assert_eq!(c.password, "\u{43f}:\u{440}");
    assert_eq!(credentials_from_text("").err().unwrap(), AuthError::NoPassword);
    assert_eq!(credentials_from_text("name").err().unwrap(), AuthError::NoPassword);
    let c = credentials_from_text(":").unwrap();
    assert_eq!((c.username.as_str(), c.password.as_str()), ("", ""));
}

#[test]
fn refusals_of_the_database_are_read() {
    assert!(matches!(
        transaction_error(Some("Not enough funds")),
        BankOperationError::NotEnoughFunds
    ));
    assert!(matches!(
        transaction_error(Some("Amount must be greater than 0")),
        BankOperationError::BadTransaction
    ));
    assert!(matches!(
        transaction_error(Some("Sender and recipient cannot be the same")),
        BankOperationError::BadTransaction
    ));
    assert!(matches!(
        transaction_error(Some("Sender or recipient account does not exist or is not active")),
        BankOperationError::AccountNotFound
    ));
    match transaction_error(Some("deadlock detected")) {
        BankOperationError::InternalError(m) => assert_eq!(m, "deadlock detected"),
        other => panic!("{other:?}"),
    }
    match transaction_error(None) {
        BankOperationError::InternalError(m) => assert_eq!(m, "Failed to create transaction"),
        other => panic!("{other:?}"),
    }
}

#[test]
fn system_accounts_are_told_by_their_names() {
    assert!(is_system_account("store", "bank"));
    assert!(is_system_account("bank", "bank"));
    assert!(!is_system_account("Store", "bank"));
    assert!(!is_system_account("alice", "bank"));
    let (emission, store) = system_accounts("bank", "hash").unwrap();
    assert_eq!(emission.username(), "bank");
    assert_eq!(store.username(), "store");
    assert_eq!(emission.password(), "hash");
    assert_eq!(store.password(), "hash");
    assert!(emission.is_existing() && store.is_existing());
    assert_ne!(emission.card(), store.card());
    assert!(emission != store);
}

#[test]
fn accounts_are_equal_by_card() {
    let a = account("a", "1234123412341234");
    let b = account("b", "1234123412341234");
    let c = account("a", "1234123412341235");
    assert!(a == b);
    assert!(a != c);
    assert_eq!(a.password(), "");
    let copy = a.clone();
    assert_eq!(copy.username(), "a");
    assert_eq!(copy.card(), a.card());
}

#[test]
fn transactions_are_built_from_their_parts() {
    let a = account("a", "1234123412341234");
    let b = account("b", "0000000000000000");
    let tx = Transaction::new(a.clone(), b.clone(), 42, 1_700_000_000_000_000_000);
    assert_eq!(tx.sender().card(), a.card());
    assert_eq!(tx.recipient().username(), "b");
    assert_eq!(tx.amount(), 42);
    assert_eq!(tx.datetime(), 1_700_000_000_000_000_000);
    let copy = tx.clone();
    assert_eq!(copy.amount(), 42);
    assert_eq!(copy.recipient().card(), b.card());
}

#[test]
fn a_payer_is_no_beneficiary() {
    let accounts = vec![account("a", "1234123412341234"), account("b", "0000000000000000")];
    assert!(pays_to(&accounts, &CardNumber::parse("0000000000000000").unwrap()));
    assert!(!pays_to(&accounts, &CardNumber::parse("0000000000000001").unwrap()));
    assert!(!pays_to(&Vec::new(), &CardNumber::parse("0000000000000000").unwrap()));
}

#[test]
fn amounts_are_split_share_by_share() {
    let parts = vec![
        Beneficiary::new("t1".to_string(), Share::new(37, 2).unwrap()),
        Beneficiary::new("t2".to_string(), Share::new(31, 2).unwrap()),
        Beneficiary::new("t3".to_string(), Share::new(32, 2).unwrap()),
    ];
    let list = Beneficiaries::new(parts, true);
    assert!(list.validate());
    assert_eq!(list.count(), 3);
    assert!(!list.is_empty());
    assert_eq!(list.get(1).token(), "t2");
    assert_eq!(list.get(1).part().mantissa(), 31);
    assert_eq!(split(256, &list), Some(vec![95, 79, 82]));
    assert_eq!(split(0, &list), Some(vec![0, 0, 0]));
    assert_eq!(split(-256, &list), Some(vec![-95, -79, -82]));
    assert_eq!(split(256, &Beneficiaries::empty()), Some(vec![]));
    let copy = list.clone();
    assert_eq!(split(100, &copy), Some(vec![37, 31, 32]));
    let too_much = Beneficiaries::new(
        vec![Beneficiary::new("t".to_string(), Share::new(3, 0).unwrap())],
        true,
    );
    assert_eq!(split(i64::MAX, &too_much), None);
    assert!(!Beneficiaries::new(Vec::new(), false).validate());
}

#[test]
fn credentials_are_read_from_decoded_bytes() {
    let c = acquisim::middleware::credentials_from_bytes(b"user:pass".to_vec()).unwrap();
    assert_eq!((c.username.as_str(), c.password.as_str()), ("user", "pass"));
    assert_eq!(
        acquisim::middleware::credentials_from_bytes(vec![0xff, 0xfe, 0x3a]).err().unwrap(),
        AuthError::NotUtf8
    );
    assert_eq!(
        acquisim::middleware::credentials_from_bytes(Vec::new()).err().unwrap(),
        AuthError::NoPassword
    );
}

#[test]
fn a_split_is_decided_from_what_the_storage_holds() {
    let sender = CardNumber::parse("5555555555555555").unwrap();
    let payer = account("payer", "5555555555555555");
    let a = account("a", "1234123412341234");
    let b = account("b", "0000000000000000");
    let list = Beneficiaries::new(
        vec![
            Beneficiary::new("t1".to_string(), Share::new(75, 2).unwrap()),
            Beneficiary::new("t2".to_string(), Share::new(25, 2).unwrap()),
        ],
        true,
    );
    let both = || Ok(vec![a.clone(), b.clone()]);

    let (p, recipients, amounts) =
        plan_split(&sender, 200, &list, both(), Ok(payer.clone()), Ok(200)).unwrap();
    assert_eq!(p.card(), sender);
    assert_eq!(recipients.len(), 2);
    assert_eq!(recipients[1].card(), b.card());
    assert_eq!(amounts, vec![150, 50]);

    // The first reason that applies is the one that is given.
    let invalid = Beneficiaries::new(Vec::new(), false);
    assert!(matches!(
        plan_split(&sender, 200, &invalid, Err(BankOperationError::TokenNotFound), Ok(payer.clone()), Ok(0)),
        Err(BankOperationError::BadTransaction)
    ));
    assert!(matches!(
        plan_split(
            &sender,
            200,
            &list,
            Err(BankOperationError::TokenNotFound),
            Err(BankOperationError::AccountNotFound),
            Ok(0)
        ),
        Err(BankOperationError::TokenNotFound)
    ));
    assert!(matches!(
        plan_split(&sender, 200, &list, Ok(vec![a.clone()]), Ok(payer.clone()), Ok(200)),
        Err(BankOperationError::InternalError(_))
    ));
    assert!(matches!(
        plan_split(
            &sender,
            200,
            &list,
            Ok(vec![a.clone(), payer.clone()]),
            Err(BankOperationError::AccountNotFound),
            Ok(200)
        ),
        Err(BankOperationError::BadTransaction)
    ));
    assert!(matches!(
        plan_split(&sender, 200, &list, both(), Err(BankOperationError::AccountIsDeleted), Ok(0)),
        Err(BankOperationError::AccountIsDeleted)
    ));
    assert!(matches!(
        plan_split(
            &sender,
            200,
            &list,
            both(),
            Ok(payer.clone()),
            Err(BankOperationError::InternalError("pool".to_string()))
        ),
        Err(BankOperationError::InternalError(_))
    ));
    assert!(matches!(
        plan_split(&sender, 200, &list, both(), Ok(payer.clone()), Ok(199)),
        Err(BankOperationError::NotEnoughFunds)
    ));
    assert!(matches!(
        plan_split(&sender, 0, &list, both(), Ok(payer.clone()), Ok(0)),
        Err(BankOperationError::BadTransaction)
    ));
    assert!(matches!(
        plan_split(&sender, -1, &list, both(), Ok(payer.clone()), Ok(-2)),
        Err(BankOperationError::NotEnoughFunds)
    ));
    let too_much = Beneficiaries::new(
        vec![
            Beneficiary::new("t1".to_string(), Share::new(1, 1).unwrap()),
            Beneficiary::new("t2".to_string(), Share::new(2, 0).unwrap()),
        ],
        true,
    );
    assert!(matches!(
        plan_split(&sender, i64::MAX, &too_much, both(), Ok(payer.clone()), Ok(i128::MAX)),
        Err(BankOperationError::BadOperation(_))
    ));
}

#[test]
fn every_storage_decides_alike() {
    let card = CardNumber::parse("1234123412341234").unwrap();
    let store = CardNumber::parse("2222222222222222").unwrap();
    let emission = CardNumber::parse("1111111111111111").unwrap();
    let live = account("a", "1234123412341234");
    let gone = Account::try_from(GetAccount {
        username: "a".to_string(),
        card_number: "1234123412341234".to_string(),
        is_existing: false,
        password_hash: String::new(),
    })
    .unwrap();
    let the_store = account("store", "2222222222222222");
    let the_bank = account("bank", "1111111111111111");

    assert_eq!(resolve_account(&card, Some(&live), &emission).unwrap().username(), "a");
    assert!(matches!(
        resolve_account(&card, Some(&gone), &emission),
        Err(BankOperationError::AccountIsDeleted)
    ));
    assert!(matches!(
        resolve_account(&card, None, &emission),
        Err(BankOperationError::AccountNotFound)
    ));
    assert!(resolve_account(&store, Some(&the_store), &emission).is_ok());
    assert!(matches!(
        resolve_account(&emission, Some(&the_bank), &emission),
        Err(BankOperationError::AccountNotFound)
    ));

    assert!(delete_verdict(&card, Some(&live), &store, &emission).is_ok());
    assert!(matches!(
        delete_verdict(&card, Some(&gone), &store, &emission),
        Err(BankOperationError::AccountIsDeleted)
    ));
    assert!(matches!(
        delete_verdict(&card, None, &store, &emission),
        Err(BankOperationError::AccountNotFound)
    ));
    for found in [Some(&the_store), None] {
        assert!(matches!(
            delete_verdict(&store, found, &store, &emission),
            Err(BankOperationError::BadOperation(_))
        ));
    }
    for found in [Some(&the_bank), None] {
        assert!(matches!(
            delete_verdict(&emission, found, &store, &emission),
            Err(BankOperationError::BadOperation(_))
        ));
    }

    assert_eq!(authorize(Ok(live.clone()), true).unwrap().card(), card);
    assert!(matches!(authorize(Ok(live.clone()), false), Err(BankOperationError::NotAuthorized)));
    assert!(matches!(
        authorize(Err(BankOperationError::AccountIsDeleted), true),
        Err(BankOperationError::AccountIsDeleted)
    ));
    assert!(matches!(
        authorize(Err(BankOperationError::AccountNotFound), false),
        Err(BankOperationError::AccountNotFound)
    ));

    let row = GetAccount {
        username: "a".to_string(),
        card_number: "1234123412341234".to_string(),
        is_existing: true,
        password_hash: "$argon2id$v=19$...".to_string(),
    };
    assert_eq!(Account::from_row(row).unwrap().password(), "$argon2id$v=19$...");
}
