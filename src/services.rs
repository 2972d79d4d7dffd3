//! The wallet service: checks request shape, builds new wallets and hands
//! them to the store, and shapes the success payloads.

use vstd::prelude::*;
use crate::errors::{ApiError, ErrorKind};
use crate::credential::MAX_SECRET_CHARS;
use crate::store::{exists_message, pin_set, same_balances, MemoryWalletStore};
use crate::text::chars_of;
use crate::wallet::{
    is_random_uuid, is_seed_table, seed_codes, seed_symbols, CreateWalletRequest, CurrencyBalance,
    UpdatePinRequest, Wallet, WalletId, SEED_COUNT,
};

verus! {

/// The success payload of a wallet creation.
#[derive(Debug)]
pub struct CreateWalletResponse {
    pub status: &'static str,
    pub message: &'static str,
    pub wallet_id: WalletId,
}

/// The success payload of a PIN update.
#[derive(Debug)]
pub struct PinUpdateResponse {
    pub status: &'static str,
    pub message: &'static str,
}

/// A user id must be at least 1.
pub fn validate_user_id(user_id: i64) -> (r: Result<(), ApiError>)
    ensures
        r is Ok <==> user_id >= 1,
        r is Err ==> r->Err_0.spec_kind() == ErrorKind::BadRequest && r->Err_0.spec_message()
            == "User ID must be positive"@,
{
    if user_id <= 0 {
        Err(ApiError::bad_request("User ID must be positive"))
    } else {
        Ok(())
    }
}

/// The least number of characters in a transfer PIN.
pub const MIN_PIN_LEN: usize = 4;

/// A PIN must have at least four characters.
pub fn validate_pin(pin: &str) -> (r: Result<(), ApiError>)
    ensures
        r is Ok <==> pin@.len() >= MIN_PIN_LEN,
        r is Err ==> r->Err_0.spec_kind() == ErrorKind::BadRequest && r->Err_0.spec_message()
            == "PIN must be at least 4 digits"@,
{
    let cs = chars_of(pin);
    if cs.len() < MIN_PIN_LEN {
        Err(ApiError::bad_request("PIN must be at least 4 digits"))
    } else {
        Ok(())
    }
}

/// A new wallet for a validated request: a fresh random id, the seed
/// balances, no PIN.
pub fn new_wallet(request: &CreateWalletRequest) -> (r: Wallet)
    ensures
        r.id is Some && is_random_uuid(r.id->Some_0.value),
        r.user_id == request.user_id,
        is_seed_table(r.balances@),
        r.password is None,
{
    Wallet::new_for_user(request.user_id, WalletId::generate())
}

/// The first half of wallet creation: the request is checked and the
/// wallet to store is built.
pub fn prepare_wallet(request: &CreateWalletRequest) -> (r: Result<Wallet, ApiError>)
    ensures
        r is Err <==> request.user_id < 1,
        r is Err ==> r->Err_0.spec_kind() == ErrorKind::BadRequest && r->Err_0.spec_message()
            == "User ID must be positive"@,
        r matches Ok(w) ==> w.id is Some && is_random_uuid(w.id->Some_0.value) && w.user_id
            == request.user_id && is_seed_table(w.balances@) && w.password is None,
{
    match validate_user_id(request.user_id) {
        Err(e) => Err(e),
        Ok(()) => Ok(new_wallet(request)),
    }
}

/// The second half of wallet creation: the store's answer becomes the
/// payload, which names the id that was stored; a store error passes as it is.
pub fn finish_create(wallet: &Wallet, stored: Result<(), ApiError>) -> (r: Result<CreateWalletResponse, ApiError>)
    requires
        wallet.id is Some,
    ensures
        stored is Err <==> r is Err,
        stored is Err ==> r->Err_0.spec_kind() == stored->Err_0.spec_kind() && r->Err_0.spec_message()
            == stored->Err_0.spec_message(),
        r matches Ok(p) ==> p.status@ == "success"@ && p.message@ == "Wallet created successfully"@
            && p.wallet_id == wallet.id->Some_0,
{
    match stored {
        Err(e) => Err(e),
        Ok(()) => match wallet.id {
            Some(id) => Ok(created_response(id)),
            None => Err(ApiError::internal("wallet has no id")),
        },
    }
}

/// The payload reporting that the wallet `id` was created.
pub fn created_response(id: WalletId) -> (r: CreateWalletResponse)
    ensures
        r.status@ == "success"@,
        r.message@ == "Wallet created successfully"@,
        r.wallet_id == id,
{
    CreateWalletResponse { status: "success", message: "Wallet created successfully", wallet_id: id }
}

/// The payload reporting that the PIN was changed.
pub fn pin_updated_response() -> (r: PinUpdateResponse)
    ensures
        r.status@ == "success"@,
        r.message@ == "Transfer PIN updated successfully"@,
{
    PinUpdateResponse { status: "success", message: "Transfer PIN updated successfully" }
}

/// The store's answer to a PIN update as the service's result: a store
/// error passes as it is.
pub fn finish_pin_update(stored: Result<(), ApiError>) -> (r: Result<PinUpdateResponse, ApiError>)
    ensures
        stored is Err <==> r is Err,
        stored is Err ==> r->Err_0.spec_kind() == stored->Err_0.spec_kind() && r->Err_0.spec_message()
            == stored->Err_0.spec_message(),
        r matches Ok(p) ==> p.status@ == "success"@ && p.message@ == "Transfer PIN updated successfully"@,
{
    match stored {
        Err(e) => Err(e),
        Ok(()) => Ok(pin_updated_response()),
    }
}

/// A copy of the seed table is the seed table.
pub proof fn lemma_seed_table_kept(copy: Seq<CurrencyBalance>, b: Seq<CurrencyBalance>)
    requires
        same_balances(copy, b),
        is_seed_table(b),
    ensures
        is_seed_table(copy),
{
    assert forall|i: int| 0 <= i < SEED_COUNT implies {
        &&& #[trigger] copy[i].currency_code@ == seed_codes()[i]
        &&& copy[i].currency_symbol@ == seed_symbols()[i]
        &&& copy[i].balance.is_zero()
    } by {
        assert(copy[i].currency_code@ == b[i].currency_code@);
    }
}

/// Creates the wallet of `request.user_id`: the user id must be positive and
/// the user must have no wallet yet. The id returned is the one stored.
pub fn create_wallet(request: &CreateWalletRequest, store: &mut MemoryWalletStore) -> (r: Result<
    CreateWalletResponse,
    ApiError,
>)
    requires
        old(store).well_formed(),
    ensures
        final(store).well_formed(),
        request.user_id < 1 ==> r is Err && r->Err_0.spec_kind() == ErrorKind::BadRequest
            && r->Err_0.spec_message() == "User ID must be positive"@,
        request.user_id >= 1 && old(store).has_user(request.user_id) ==> r is Err
            && r->Err_0.spec_kind() == ErrorKind::BadRequest
            && r->Err_0.spec_message() == exists_message(request.user_id),
        r is Err ==> final(store).wallets@ == old(store).wallets@,
        request.user_id >= 1 && !old(store).has_user(request.user_id) ==> r is Ok,
        r matches Ok(p) ==> p.status@ == "success"@ && p.message@ == "Wallet created successfully"@
            && created(old(store).wallets@, final(store).wallets@, request.user_id, p.wallet_id),
{
    match prepare_wallet(request) {
        Err(e) => Err(e),
        Ok(wallet) => {
            let stored = store.save_new_created_wallet(&wallet);
            proof {
                if stored is Ok {
                    lemma_seed_table_kept(final(store).wallets@.last().balances@, wallet.balances@);
                }
            }
            finish_create(&wallet, stored)
        },
    }
}

/// `after` is `before` with one wallet added for `user_id`: id `id`, the
/// ten seed currencies at zero, and no PIN.
pub open spec fn created(before: Seq<Wallet>, after: Seq<Wallet>, user_id: i64, id: WalletId) -> bool {
    &&& after.len() == before.len() + 1
    &&& after.subrange(0, before.len() as int) == before
    &&& after.last().user_id == user_id
    &&& after.last().id == Some(id)
    &&& is_random_uuid(id.value)
    &&& is_seed_table(after.last().balances@)
    &&& after.last().password is None
}

/// Changes the transfer PIN of `user_id`: the PIN must have four characters
/// or more, and the user must have a wallet.
pub fn update_transfer_pin_service(
    user_id: i64,
    request: &UpdatePinRequest,
    store: &mut MemoryWalletStore,
) -> (r: Result<PinUpdateResponse, ApiError>)
    requires
        old(store).well_formed(),
    ensures
        final(store).well_formed(),
        request.pin@.len() < MIN_PIN_LEN ==> r is Err && r->Err_0.spec_kind() == ErrorKind::BadRequest
            && r->Err_0.spec_message() == "PIN must be at least 4 digits"@,
        request.pin@.len() >= MIN_PIN_LEN && !old(store).has_user(user_id) ==> r is Err
            && r->Err_0.spec_kind() == ErrorKind::NotFound && r->Err_0.spec_message() == "Wallet not found"@,
        request.pin@.len() >= MIN_PIN_LEN && old(store).has_user(user_id) && request.pin@.len()
            <= MAX_SECRET_CHARS ==> r is Ok,
        request.pin@.len() >= MIN_PIN_LEN && old(store).has_user(user_id) && r is Err
            ==> r->Err_0.spec_kind() == ErrorKind::InternalServerError && r->Err_0.spec_message()
            == "Failed to hash PIN"@,
        r is Err ==> final(store).wallets@ == old(store).wallets@,
        r matches Ok(p) ==> p.status@ == "success"@ && p.message@ == "Transfer PIN updated successfully"@
            && old(store).has_user(user_id) && exists|now|
            pin_set(old(store).wallets@, final(store).wallets@, user_id, request.pin@, now),
{
    match validate_pin(request.pin.as_str()) {
        Err(e) => Err(e),
        Ok(()) => finish_pin_update(store.update_transfer_pin(user_id, request.pin.as_str())),
    }
}

/// Once a wallet is created for a user, the store has that user, so every
/// later creation for the same user is refused and leaves the store as it is.
pub proof fn lemma_second_create_refused(before: MemoryWalletStore, after: MemoryWalletStore, user_id: i64, id: WalletId)
    requires
        created(before.wallets@, after.wallets@, user_id, id),
    ensures
        after.has_user(user_id),
{
    let i = after.wallets@.len() - 1;
    assert(after.wallets@[i].user_id == user_id);
}

} // verus!
