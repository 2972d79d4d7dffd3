use wallet_api::credential::{hash_password, hash_password_with_salt, verify_password};
use wallet_api::errors::{ApiError, ErrorKind};
use wallet_api::services::{
    create_wallet, finish_create, finish_pin_update, prepare_wallet, update_transfer_pin_service,
    validate_pin, validate_user_id,
};
use wallet_api::store::{
    already_exists, pin_update_outcome, CreateWalletTx, MemoryWalletStore, TxAction, TxEvent,
    TxStep,
};
use wallet_api::text::decimal_text;
use wallet_api::wallet::{
    initialize_currencies, Amount, CreateWalletRequest, CurrencyBalance, Timestamp, UpdatePinRequest,
    Wallet, WalletBuilder, WalletId,
};

fn err_of<T>(r: Result<T, ApiError>) -> ApiError {
    match r {
        Ok(_) => panic!("expected an error"),
        Err(e) => e,
    }
}

#[test]
fn create_then_create_again_scenario() {
    let mut store = MemoryWalletStore::new();
    let first = create_wallet(&CreateWalletRequest { user_id: 42 }, &mut store).unwrap();
    assert_eq!(first.status, "success");
    assert_eq!(first.message, "Wallet created successfully");
    let text = first.wallet_id.to_text();
    assert_eq!(text.len(), 36);
    assert_eq!(&text[14..15], "4");
    assert_eq!(store.wallets[0].id, Some(first.wallet_id));

    let e = err_of(create_wallet(&CreateWalletRequest { user_id: 42 }, &mut store));
    assert_eq!(e.kind(), ErrorKind::BadRequest);
    assert_eq!(e.status_code(), 400);
    assert!(e.message().contains("already exists for user ID: 42"));
    assert_eq!(store.wallets.len(), 1);
    assert_eq!(store.wallets[0].balances.len(), 10);
}

#[test]
fn new_wallet_has_the_ten_zero_balances() {
    let mut store = MemoryWalletStore::new();
    create_wallet(&CreateWalletRequest { user_id: 1 }, &mut store).unwrap();
    let w = &store.wallets[0];
    assert_eq!(w.user_id, 1);
    assert!(w.password.is_none());
    let codes: Vec<&str> = w.balances.iter().map(|b| b.currency_code.as_str()).collect();
    assert_eq!(codes, vec!["USD", "EUR", "NGN", "GBP", "JPY", "AUD", "CAD", "CHF", "CNY", "INR"]);
    let symbols: Vec<&str> = w.balances.iter().map(|b| b.currency_symbol.as_str()).collect();
    assert_eq!(symbols, vec!["$", "€", "₦", "£", "¥", "$", "$", "CHF", "¥", "₹"]);
    assert!(w.balances.iter().all(|b| b.balance.digits == 0));
}

#[test]
fn non_positive_user_id_is_a_bad_request() {
    let mut store = MemoryWalletStore::new();
    let e = err_of(create_wallet(&CreateWalletRequest { user_id: 0 }, &mut store));
    assert_eq!(e.message(), "User ID must be positive");
    assert!(store.wallets.is_empty());
    assert!(validate_user_id(-3).is_err());
    assert!(validate_user_id(1).is_ok());
}

#[test]
fn short_pin_is_refused_before_storage() {
    let mut store = MemoryWalletStore::new();
    create_wallet(&CreateWalletRequest { user_id: 5 }, &mut store).unwrap();
    let e = err_of(update_transfer_pin_service(5, &UpdatePinRequest { pin: "123".to_string() }, &mut store));
    assert_eq!(e.kind(), ErrorKind::BadRequest);
    assert_eq!(e.message(), "PIN must be at least 4 digits");
    assert!(store.wallets[0].password.is_none());
    assert!(validate_pin("1234").is_ok());
    assert!(validate_pin("€€€").is_err());
}

#[test]
fn pin_update_for_unknown_user_is_not_found() {
    let mut store = MemoryWalletStore::new();
    let e = err_of(update_transfer_pin_service(77, &UpdatePinRequest { pin: "1234".to_string() }, &mut store));
    assert_eq!(e.kind(), ErrorKind::NotFound);
    assert_eq!(e.status_code(), 404);
    assert_eq!(e.message(), "Wallet not found");
}

#[test]
fn pin_update_stores_a_verifiable_hash() {
    let mut store = MemoryWalletStore::new();
    create_wallet(&CreateWalletRequest { user_id: 8 }, &mut store).unwrap();
    create_wallet(&CreateWalletRequest { user_id: 9 }, &mut store).unwrap();
    let before = store.wallets[0].updated_on;
    let r = update_transfer_pin_service(8, &UpdatePinRequest { pin: "4321".to_string() }, &mut store).unwrap();
    assert_eq!(r.status, "success");
    assert_eq!(r.message, "Transfer PIN updated successfully");
    let h = store.wallets[0].password.clone().expect("hash stored");
    assert_ne!(h, "4321");
    assert!(verify_password(&h, "4321"));
    assert!(!verify_password(&h, "4322"));
    assert!(store.wallets[0].updated_on.micros >= before.micros);
    assert!(store.wallets[1].password.is_none());
}

#[test]
fn pin_update_at_stamps_the_given_time() {
    let mut store = MemoryWalletStore::new();
    create_wallet(&CreateWalletRequest { user_id: 3 }, &mut store).unwrap();
    let later = Timestamp { micros: store.wallets[0].updated_on.micros + 1_000 };
    store.update_transfer_pin_at(3, "9876", later).unwrap();
    assert_eq!(store.wallets[0].updated_on, later);
}

#[test]
fn hash_round_trip() {
    let h = hash_password("s3cret-pin").unwrap();
    assert!(h.starts_with("$argon2"));
    assert!(verify_password(&h, "s3cret-pin"));
    assert!(!verify_password(&h, "s3cret-pim"));
    let h2 = hash_password("s3cret-pin").unwrap();
    assert_ne!(h, h2);
    assert!(!verify_password("not a hash", "s3cret-pin"));
}

#[test]
fn error_kinds_map_to_statuses_and_text() {
    assert_eq!(ApiError::bad_request("x").status_code(), 400);
    assert_eq!(ApiError::unauthorized("x").status_code(), 401);
    assert_eq!(ApiError::not_found("x").status_code(), 404);
    assert_eq!(ApiError::internal("x").status_code(), 500);
    assert_eq!(ApiError::not_found("gone").to_string(), "Not Found: gone");
    assert_eq!(ApiError::internal("db").to_string(), "Internal Server Error: db");
    assert_eq!(ApiError::unauthorized("no").error_label(), "Unauthorized");
    assert_eq!(already_exists(42).to_string(), "Bad Request: Wallet already exists for user ID: 42");
    assert_eq!(decimal_text(-150), "-150");
}

fn events_until_finish(tx: &mut CreateWalletTx, balances: &Vec<CurrencyBalance>, fail_at: Option<usize>) -> (Vec<String>, Result<(), ApiError>) {
    let mut log = Vec::new();
    let mut event = TxEvent::Succeeded;
    loop {
        let action = tx.advance(event, balances);
        match action {
            TxAction::Finish(r) => return (log, r),
            TxAction::Begin => panic!("begin twice"),
            TxAction::QueryExisting => {
                log.push("query".to_string());
                event = TxEvent::Found(false);
            }
            TxAction::InsertWallet => {
                log.push("wallet".to_string());
                event = TxEvent::Succeeded;
            }
            TxAction::InsertBalance(i) => {
                log.push(format!("balance {}", i));
                event = if fail_at == Some(i) { TxEvent::Failed("boom".to_string()) } else { TxEvent::Succeeded };
            }
            TxAction::Commit => {
                log.push("commit".to_string());
                event = TxEvent::Succeeded;
            }
        }
    }
}

#[test]
fn transaction_inserts_every_balance_in_order_then_commits() {
    let wallet = Wallet::new_for_user(11, WalletId::generate());
    let (mut tx, first) = CreateWalletTx::start(&wallet);
    assert!(matches!(first, TxAction::Begin));
    let (log, r) = events_until_finish(&mut tx, &wallet.balances, None);
    assert!(r.is_ok());
    assert_eq!(log.len(), 13);
    assert_eq!(log[0], "query");
    assert_eq!(log[1], "wallet");
    assert_eq!(log[2], "balance 0");
    assert_eq!(log[11], "balance 9");
    assert_eq!(log[12], "commit");
    assert_eq!(tx.step, TxStep::Done);
}

#[test]
fn transaction_failing_on_a_balance_rolls_back() {
    let wallet = Wallet::new_for_user(11, WalletId::generate());
    let (mut tx, _) = CreateWalletTx::start(&wallet);
    let (log, r) = events_until_finish(&mut tx, &wallet.balances, Some(1));
    assert!(!log.contains(&"commit".to_string()));
    let e = r.unwrap_err();
    assert_eq!(e.kind(), ErrorKind::InternalServerError);
    assert_eq!(e.message(), "Failed to insert wallet balance for currency EUR: boom");
}

#[test]
fn transaction_stops_when_the_wallet_exists() {
    let wallet = Wallet::new_for_user(42, WalletId::generate());
    let (mut tx, _) = CreateWalletTx::start(&wallet);
    assert!(matches!(tx.advance(TxEvent::Succeeded, &wallet.balances), TxAction::QueryExisting));
    match tx.advance(TxEvent::Found(true), &wallet.balances) {
        TxAction::Finish(Err(e)) => {
            assert_eq!(e.kind(), ErrorKind::BadRequest);
            assert_eq!(e.message(), "Wallet already exists for user ID: 42");
        }
        _ => panic!("expected the conflict"),
    }
}

#[test]
fn transaction_begin_failure_is_internal() {
    let wallet = Wallet::new_for_user(1, WalletId::generate());
    let (mut tx, _) = CreateWalletTx::start(&wallet);
    match tx.advance(TxEvent::Failed("down".to_string()), &wallet.balances) {
        TxAction::Finish(Err(e)) => assert_eq!(e.message(), "Failed to begin transaction: down"),
        _ => panic!("expected a failure"),
    }
}

#[test]
fn pin_update_rows_decide_the_outcome() {
    assert_eq!(err_of(pin_update_outcome(0)).kind(), ErrorKind::NotFound);
    assert!(pin_update_outcome(1).is_ok());
}

#[test]
fn builder_needs_a_user_id() {
    match WalletBuilder::new().build() {
        Err(m) => assert_eq!(m, "user_id is required"),
        Ok(_) => panic!("built without a user"),
    }
    let id = WalletId::generate();
    let w = WalletBuilder::new()
        .id(id)
        .user_id(4)
        .balances(initialize_currencies())
        .password("h".to_string())
        .build()
        .unwrap();
    assert_eq!((w.id, w.user_id, w.balances.len()), (Some(id), 4, 10));
    assert_eq!(w.password, Some("h".to_string()));
    let d = Wallet::default();
    assert_eq!((d.id, d.user_id, d.balances.len()), (None, 0, 0));
}

#[test]
fn currency_balance_holds_its_parts() {
    let b = CurrencyBalance::new("USD", "$", Amount { digits: 1050, scale: 2 });
    assert_eq!(b.currency_code, "USD");
    assert_eq!(b.currency_symbol, "$");
    assert_eq!(b.balance, Amount { digits: 1050, scale: 2 });
    assert_eq!(Amount::zero().digits, 0);
}

#[test]
fn hash_is_an_argon2id_phc_string_with_its_salt() {
    let h = hash_password("2468").unwrap();
    assert_eq!(h.chars().count(), 97);
    assert!(h.starts_with("$argon2id$v=19$m=19456,t=2,p=1$"));
    assert_eq!(&h[53..54], "$");
    assert_ne!(h, "2468");
    let h2 = hash_password("2468").unwrap();
    assert_ne!(&h[31..53], &h2[31..53]);
}

fn fail_at(step_events: Vec<TxEvent>, wallet: &Wallet) -> ApiError {
    let (mut tx, _) = CreateWalletTx::start(wallet);
    for ev in step_events {
        if let TxAction::Finish(Err(e)) = tx.advance(ev, &wallet.balances) {
            return e;
        }
    }
    panic!("no failure");
}

#[test]
fn transaction_failure_messages_name_the_step() {
    let w = Wallet::new_for_user(2, WalletId::generate());
    let failed = || TxEvent::Failed("e".to_string());
    assert_eq!(fail_at(vec![TxEvent::Succeeded, failed()], &w).message(), "Failed to check existing wallet: e");
    assert_eq!(
        fail_at(vec![TxEvent::Succeeded, TxEvent::Found(false), failed()], &w).message(),
        "Failed to insert wallet: e"
    );
    let mut events = vec![TxEvent::Succeeded, TxEvent::Found(false), TxEvent::Succeeded];
    for _ in 0..10 {
        events.push(TxEvent::Succeeded);
    }
    events.push(failed());
    let e = fail_at(events, &w);
    assert_eq!(e.kind(), ErrorKind::InternalServerError);
    assert_eq!(e.message(), "Failed to commit transaction: e");
}

#[test]
fn service_steps_prepare_and_finish() {
    assert_eq!(prepare_wallet(&CreateWalletRequest { user_id: -1 }).unwrap_err().message(), "User ID must be positive");
    let w = prepare_wallet(&CreateWalletRequest { user_id: 42 }).unwrap();
    assert_eq!((w.user_id, w.balances.len()), (42, 10));
    let ok = finish_create(&w, Ok(())).unwrap();
    assert_eq!(Some(ok.wallet_id), w.id);
    assert_eq!((ok.status, ok.message), ("success", "Wallet created successfully"));
    let e = finish_create(&w, Err(ApiError::internal("Failed to insert wallet: x"))).unwrap_err();
    assert_eq!(e.to_string(), "Internal Server Error: Failed to insert wallet: x");
    let e = finish_pin_update(Err(ApiError::not_found("Wallet not found"))).unwrap_err();
    assert_eq!((e.kind(), e.message()), (ErrorKind::NotFound, "Wallet not found"));
    let p = finish_pin_update(Ok(())).unwrap();
    assert_eq!(p.message, "Transfer PIN updated successfully");
}

#[test]
fn wallet_id_text_is_hyphenated_lower_hex() {
    let id = WalletId { value: 0x0123456789ABCDEF_FEDCBA9876543210 };
    assert_eq!(id.to_text(), "01234567-89ab-cdef-fedc-ba9876543210");
}

#[test]
fn hash_with_salt_is_fixed_by_pin_and_salt() {
    let salt = "c2FsdHNhbHRzYWx0c2FsdA";
    let h = hash_password_with_salt("1357", salt).unwrap();
    assert_eq!(h.len(), 97);
    assert_eq!(&h[..31], "$argon2id$v=19$m=19456,t=2,p=1$");
    assert_eq!(&h[31..53], salt);
    assert_eq!(hash_password_with_salt("1357", salt).unwrap(), h);
    assert!(verify_password(&h, "1357"));
    let other = hash_password_with_salt("1357", "AAAAAAAAAAAAAAAAAAAAAA").unwrap();
    assert_ne!(other, h);
    assert_eq!(&other[31..53], "AAAAAAAAAAAAAAAAAAAAAA");
}

#[test]
fn decimal_text_covers_the_extremes() {
    assert_eq!(decimal_text(0), "0");
    assert_eq!(decimal_text(42), "42");
    assert_eq!(decimal_text(i64::MAX), "9223372036854775807");
    assert_eq!(decimal_text(i64::MIN), "-9223372036854775808");
}

#[test]
fn transaction_rejects_answers_out_of_turn() {
    let w = Wallet::new_for_user(6, WalletId::generate());
    let (mut tx, _) = CreateWalletTx::start(&w);
    match tx.advance(TxEvent::Found(false), &w.balances) {
        TxAction::Finish(Err(e)) => assert_eq!(e.message(), "Unexpected answer in transaction"),
        _ => panic!("expected a failure"),
    }
    let (mut tx, _) = CreateWalletTx::start(&w);
    tx.advance(TxEvent::Succeeded, &w.balances);
    match tx.advance(TxEvent::Succeeded, &w.balances) {
        TxAction::Finish(Err(e)) => assert_eq!(e.kind(), ErrorKind::InternalServerError),
        _ => panic!("expected a failure"),
    }
}
