//! The wallet store: the steps of the wallet-creation transaction as a state
//! machine, the outcome of a PIN update, and an in-memory store that keeps
//! the same contract.

use vstd::prelude::*;
use crate::credential::{
    argon2_accepts, hash_password, is_default_phc, is_salt_text, phc_text, MAX_SECRET_CHARS,
};
use crate::errors::{ApiError, ErrorKind};
use crate::text::{concat, decimal_of, decimal_text, owned};
use crate::wallet::{CurrencyBalance, Timestamp, Wallet};

verus! {

pub open spec fn exists_message(user_id: i64) -> Seq<char> {
    "Wallet already exists for user ID: "@ + decimal_of(user_id as int)
}

/// The conflict reported when `user_id` already has a wallet.
pub fn already_exists(user_id: i64) -> (r: ApiError)
    ensures
        r.spec_kind() == ErrorKind::BadRequest,
        r.spec_message() == exists_message(user_id),
{
    let n = decimal_text(user_id);
    ApiError::BadRequest(concat("Wallet already exists for user ID: ", n.as_str()))
}

fn failure(context: &str, cause: &str) -> (r: ApiError)
    ensures
        r.spec_kind() == ErrorKind::InternalServerError,
        r.spec_message() == context@ + ": "@ + cause@,
{
    let head = concat(context, ": ");
    ApiError::InternalServerError(concat(head.as_str(), cause))
}

/// Where a wallet-creation transaction stands.
#[derive(Clone, Copy, Debug, PartialEq, Eq, Structural)]
pub enum TxStep {
    Beginning,
    Checking,
    InsertingWallet,
    /// The balance row of this index is being inserted.
    InsertingBalance(usize),
    Committing,
    Done,
}

/// What the database answered to the last action.
#[derive(Debug)]
pub enum TxEvent {
    /// The action succeeded.
    Succeeded,
    /// The existence check ran: whether a wallet row was found.
    Found(bool),
    /// The action failed, with the database's error text.
    Failed(String),
}

/// What to do next. `Finish` ends the transaction: with `Ok` after a commit,
/// with `Err` by rolling back everything written so far.
#[derive(Debug)]
pub enum TxAction {
    Begin,
    QueryExisting,
    InsertWallet,
    InsertBalance(usize),
    Commit,
    Finish(Result<(), ApiError>),
}

/// An action issued to the database, as recorded in a transaction's trace.
pub enum TxOp {
    Begin,
    Query,
    InsertWallet,
    InsertBalance(int),
    Commit,
}

/// The inserts of balance rows `0..n`, in order.
pub open spec fn balance_ops(n: nat) -> Seq<TxOp> {
    Seq::new(n, |i: int| TxOp::InsertBalance(i))
}

pub open spec fn head_ops() -> Seq<TxOp> {
    seq![TxOp::Begin, TxOp::Query, TxOp::InsertWallet]
}

/// The complete run of a transaction that commits `n` balance rows.
pub open spec fn full_run(n: nat) -> Seq<TxOp> {
    head_ops() + balance_ops(n) + seq![TxOp::Commit]
}

/// The wallet-creation transaction: begin, check that the user has no
/// wallet, insert the wallet row, insert each balance row in order, commit.
pub struct CreateWalletTx {
    pub step: TxStep,
    pub user_id: i64,
    pub balance_count: usize,
    /// The actions issued so far.
    pub trace: Ghost<Seq<TxOp>>,
}

impl CreateWalletTx {
    /// The trace matches the step: each step is reached only through all
    /// the actions before it, in order.
    pub open spec fn well_formed(&self) -> bool {
        match self.step {
            TxStep::Beginning => self.trace@ == seq![TxOp::Begin],
            TxStep::Checking => self.trace@ == seq![TxOp::Begin, TxOp::Query],
            TxStep::InsertingWallet => self.trace@ == head_ops(),
            TxStep::InsertingBalance(i) => i < self.balance_count && self.trace@ == head_ops()
                + balance_ops((i + 1) as nat),
            TxStep::Committing => self.trace@ == full_run(self.balance_count as nat),
            TxStep::Done => true,
        }
    }
}

/// What a failed action was doing, as the error message tells it.
pub open spec fn failure_context(step: TxStep, balances: Seq<CurrencyBalance>) -> Seq<char> {
    match step {
        TxStep::Beginning => "Failed to begin transaction"@,
        TxStep::Checking => "Failed to check existing wallet"@,
        TxStep::InsertingWallet => "Failed to insert wallet"@,
        TxStep::InsertingBalance(i) => "Failed to insert wallet balance for currency "@
            + balances[i as int].currency_code@,
        _ => "Failed to commit transaction"@,
    }
}

pub open spec fn finishes_err(a: TxAction, kind: ErrorKind, msg: Seq<char>) -> bool {
    a is Finish && a->Finish_0 is Err && a->Finish_0->Err_0.spec_kind() == kind
        && a->Finish_0->Err_0.spec_message() == msg
}

impl CreateWalletTx {
    /// A transaction for `wallet`, and its first action.
    pub fn start(wallet: &Wallet) -> (r: (CreateWalletTx, TxAction))
        ensures
            r.0.step == TxStep::Beginning,
            r.0.well_formed(),
            r.0.user_id == wallet.user_id,
            r.0.balance_count == wallet.balances@.len(),
            r.1 is Begin,
    {
        let ghost first: Seq<TxOp> = seq![TxOp::Begin];
        (
            CreateWalletTx {
                step: TxStep::Beginning,
                user_id: wallet.user_id,
                balance_count: wallet.balances.len(),
                trace: Ghost(first),
            },
            TxAction::Begin,
        )
    }

    /// The next action, given the answer to the last one.
    pub fn advance(&mut self, event: TxEvent, balances: &Vec<CurrencyBalance>) -> (r: TxAction)
        requires
            old(self).step != TxStep::Done,
            old(self).well_formed(),
            balances@.len() == old(self).balance_count,
        ensures
            final(self).well_formed(),
            final(self).user_id == old(self).user_id,
            final(self).balance_count == old(self).balance_count,
            r is Finish && r->Finish_0 is Ok ==> old(self).trace@ == full_run(old(self).balance_count as nat),
            r is Finish && r->Finish_0 is Err && r->Finish_0->Err_0.spec_kind() == ErrorKind::BadRequest
                ==> old(self).trace@ == seq![TxOp::Begin, TxOp::Query],
            r is Finish <==> final(self).step == TxStep::Done,
            event is Failed ==> finishes_err(
                r,
                ErrorKind::InternalServerError,
                failure_context(old(self).step, balances@) + ": "@ + event->Failed_0@,
            ),
            r is Finish && r->Finish_0 is Ok ==> old(self).step == TxStep::Committing,
            old(self).step == TxStep::Beginning && event is Succeeded ==> r is QueryExisting
                && final(self).step == TxStep::Checking,
            old(self).step == TxStep::Checking && event == TxEvent::Found(true) ==> finishes_err(
                r,
                ErrorKind::BadRequest,
                exists_message(old(self).user_id),
            ),
            old(self).step == TxStep::Checking && event == TxEvent::Found(false) ==> r is InsertWallet
                && final(self).step == TxStep::InsertingWallet,
            old(self).step == TxStep::InsertingWallet && event is Succeeded ==> {
                if old(self).balance_count > 0 {
                    r == TxAction::InsertBalance(0) && final(self).step == TxStep::InsertingBalance(0)
                } else {
                    r is Commit && final(self).step == TxStep::Committing
                }
            },
            old(self).step is InsertingBalance && event is Succeeded ==> {
                let i = old(self).step->InsertingBalance_0;
                if i + 1 < old(self).balance_count {
                    r == TxAction::InsertBalance((i + 1) as usize) && final(self).step
                        == TxStep::InsertingBalance((i + 1) as usize)
                } else {
                    r is Commit && final(self).step == TxStep::Committing
                }
            },
            old(self).step == TxStep::Committing && event is Succeeded ==> r is Finish
                && r->Finish_0 is Ok,
            event is Found && old(self).step != TxStep::Checking ==> finishes_err(
                r,
                ErrorKind::InternalServerError,
                "Unexpected answer in transaction"@,
            ),
            event is Succeeded && old(self).step == TxStep::Checking ==> finishes_err(
                r,
                ErrorKind::InternalServerError,
                "Unexpected answer in transaction"@,
            ),
    {
        let step = self.step;
        match event {
            TxEvent::Failed(e) => {
                let context = match step {
                    TxStep::Beginning => owned("Failed to begin transaction"),
                    TxStep::Checking => owned("Failed to check existing wallet"),
                    TxStep::InsertingWallet => owned("Failed to insert wallet"),
                    TxStep::InsertingBalance(i) => concat(
                        "Failed to insert wallet balance for currency ",
                        balances[i].currency_code.as_str(),
                    ),
                    _ => owned("Failed to commit transaction"),
                };
                self.step = TxStep::Done;
                TxAction::Finish(Err(failure(context.as_str(), e.as_str())))
            },
            TxEvent::Found(found) => {
                if step == TxStep::Checking {
                    if found {
                        self.step = TxStep::Done;
                        TxAction::Finish(Err(already_exists(self.user_id)))
                    } else {
                        self.step = TxStep::InsertingWallet;
                        self.trace = Ghost(self.trace@.push(TxOp::InsertWallet));
                        assert(self.trace@ =~= head_ops());
                        TxAction::InsertWallet
                    }
                } else {
                    self.step = TxStep::Done;
                    TxAction::Finish(Err(ApiError::internal("Unexpected answer in transaction")))
                }
            },
            TxEvent::Succeeded => {
                match step {
                    TxStep::Beginning => {
                        self.step = TxStep::Checking;
                        self.trace = Ghost(self.trace@.push(TxOp::Query));
                        assert(self.trace@ =~= seq![TxOp::Begin, TxOp::Query]);
                        TxAction::QueryExisting
                    },
                    TxStep::Checking => {
                        self.step = TxStep::Done;
                        TxAction::Finish(Err(ApiError::internal("Unexpected answer in transaction")))
                    },
                    TxStep::InsertingWallet => {
                        if self.balance_count > 0 {
                            self.step = TxStep::InsertingBalance(0);
                            self.trace = Ghost(self.trace@.push(TxOp::InsertBalance(0)));
                            assert(self.trace@ =~= head_ops() + balance_ops(1));
                            TxAction::InsertBalance(0)
                        } else {
                            self.step = TxStep::Committing;
                            self.trace = Ghost(self.trace@.push(TxOp::Commit));
                            assert(self.trace@ =~= full_run(0));
                            TxAction::Commit
                        }
                    },
                    TxStep::InsertingBalance(i) => {
                        if i + 1 < self.balance_count {
                            self.step = TxStep::InsertingBalance(i + 1);
                            self.trace = Ghost(self.trace@.push(TxOp::InsertBalance(i + 1)));
                            assert(self.trace@ =~= head_ops() + balance_ops((i + 2) as nat));
                            TxAction::InsertBalance(i + 1)
                        } else {
                            self.step = TxStep::Committing;
                            self.trace = Ghost(self.trace@.push(TxOp::Commit));
                            assert(self.trace@ =~= full_run(self.balance_count as nat));
                            TxAction::Commit
                        }
                    },
                    _ => {
                        self.step = TxStep::Done;
                        TxAction::Finish(Ok(()))
                    },
                }
            },
        }
    }
}

/// The outcome of the PIN update statement, by the number of rows it changed.
pub fn pin_update_outcome(rows_affected: u64) -> (r: Result<(), ApiError>)
    ensures
        rows_affected == 0 <==> r is Err,
        r is Err ==> r->Err_0.spec_kind() == ErrorKind::NotFound && r->Err_0.spec_message()
            == "Wallet not found"@,
{
    if rows_affected == 0 {
        Err(ApiError::not_found("Wallet not found"))
    } else {
        Ok(())
    }
}

/// Two balance lists with the same codes, symbols and amounts, in order.
pub open spec fn same_balances(a: Seq<CurrencyBalance>, b: Seq<CurrencyBalance>) -> bool {
    &&& a.len() == b.len()
    &&& forall|k: int|
        0 <= k < a.len() ==> {
            &&& #[trigger] a[k].currency_code@ == b[k].currency_code@
            &&& a[k].currency_symbol@ == b[k].currency_symbol@
            &&& a[k].balance == b[k].balance
        }
}

pub fn copy_balances(b: &Vec<CurrencyBalance>) -> (r: Vec<CurrencyBalance>)
    ensures
        same_balances(r@, b@),
{
    let mut out: Vec<CurrencyBalance> = Vec::new();
    let mut i: usize = 0;
    while i < b.len()
        invariant
            i <= b@.len(),
            out@.len() == i,
            forall|k: int|
                0 <= k < i ==> {
                    &&& #[trigger] out@[k].currency_code@ == b@[k].currency_code@
                    &&& out@[k].currency_symbol@ == b@[k].currency_symbol@
                    &&& out@[k].balance == b@[k].balance
                },
        decreases b@.len() - i,
    {
        out.push(b[i].copy());
        i = i + 1;
    }
    out
}

/// `w` is what the store keeps of `wallet`: its id, user, balances and PIN hash.
pub open spec fn keeps(w: Wallet, wallet: Wallet) -> bool {
    &&& w.id == wallet.id
    &&& w.user_id == wallet.user_id
    &&& same_balances(w.balances@, wallet.balances@)
    &&& w.password == wallet.password
}

/// A store held in memory: one wallet per user.
#[derive(Debug)]
pub struct MemoryWalletStore {
    pub wallets: Vec<Wallet>,
}

impl MemoryWalletStore {
    /// No two wallets belong to the same user.
    pub open spec fn well_formed(&self) -> bool {
        forall|i: int, j: int|
            0 <= i < j < self.wallets@.len() ==> #[trigger] self.wallets@[i].user_id
                != #[trigger] self.wallets@[j].user_id
    }

    pub open spec fn has_user(&self, user_id: i64) -> bool {
        exists|i: int| 0 <= i < self.wallets@.len() && #[trigger] self.wallets@[i].user_id == user_id
    }

    pub fn new() -> (r: MemoryWalletStore)
        ensures
            r.well_formed(),
            r.wallets@.len() == 0,
    {
        MemoryWalletStore { wallets: Vec::new() }
    }

    /// The position of the wallet of `user_id`, if there is one.
    pub fn find(&self, user_id: i64) -> (r: Option<usize>)
        ensures
            r is None <==> !self.has_user(user_id),
            r matches Some(i) ==> i < self.wallets@.len() && self.wallets@[i as int].user_id == user_id,
    {
        let mut i: usize = 0;
        while i < self.wallets.len()
            invariant
                i <= self.wallets@.len(),
                forall|k: int| 0 <= k < i ==> #[trigger] self.wallets@[k].user_id != user_id,
            decreases self.wallets@.len() - i,
        {
            if self.wallets[i].user_id == user_id {
                return Some(i);
            }
            i = i + 1;
        }
        None
    }

    /// Creates the wallet unless its user already has one; nothing is kept
    /// of a failed attempt.
    pub fn save_new_created_wallet(&mut self, wallet: &Wallet) -> (r: Result<(), ApiError>)
        requires
            old(self).well_formed(),
        ensures
            final(self).well_formed(),
            old(self).has_user(wallet.user_id) ==> r is Err && r->Err_0.spec_kind() == ErrorKind::BadRequest
                && r->Err_0.spec_message() == exists_message(wallet.user_id)
                && final(self).wallets@ == old(self).wallets@,
            !old(self).has_user(wallet.user_id) ==> r is Ok && final(self).wallets@.len()
                == old(self).wallets@.len() + 1 && final(self).wallets@.subrange(
                0,
                old(self).wallets@.len() as int,
            ) == old(self).wallets@ && keeps(final(self).wallets@.last(), *wallet),
    {
        match self.find(wallet.user_id) {
            Some(_) => Err(already_exists(wallet.user_id)),
            None => {
                let kept = Wallet {
                    id: wallet.id,
                    user_id: wallet.user_id,
                    balances: copy_balances(&wallet.balances),
                    password: wallet.password.clone(),
                    created_on: wallet.created_on,
                    updated_on: wallet.updated_on,
                };
                let ghost before = self.wallets@;
                self.wallets.push(kept);
                assert(self.wallets@.subrange(0, before.len() as int) =~= before);
                Ok(())
            },
        }
    }

    /// Sets the PIN hash of `user_id`'s wallet and stamps it with `now`.
    pub fn update_transfer_pin_at(&mut self, user_id: i64, pin: &str, now: Timestamp) -> (r: Result<(), ApiError>)
        requires
            old(self).well_formed(),
        ensures
            final(self).well_formed(),
            !old(self).has_user(user_id) ==> r is Err && r->Err_0.spec_kind() == ErrorKind::NotFound
                && r->Err_0.spec_message() == "Wallet not found"@,
            r is Err ==> final(self).wallets@ == old(self).wallets@,
            old(self).has_user(user_id) && pin@.len() <= MAX_SECRET_CHARS ==> r is Ok,
            old(self).has_user(user_id) && r is Err ==> r->Err_0.spec_kind() == ErrorKind::InternalServerError
                && r->Err_0.spec_message() == "Failed to hash PIN"@,
            r is Ok ==> old(self).has_user(user_id) && pin_set(old(self).wallets@, final(self).wallets@, user_id, pin@, now),
    {
        match self.find(user_id) {
            None => Err(ApiError::not_found("Wallet not found")),
            Some(i) => match hash_password(pin) {
                None => Err(ApiError::internal("Failed to hash PIN")),
                Some(h) => {
                    self.wallets[i].password = Some(h);
                    self.wallets[i].updated_on = now;
                    Ok(())
                },
            },
        }
    }

    /// Sets the PIN hash of `user_id`'s wallet, stamped with the current time.
    pub fn update_transfer_pin(&mut self, user_id: i64, pin: &str) -> (r: Result<(), ApiError>)
        requires
            old(self).well_formed(),
        ensures
            final(self).well_formed(),
            !old(self).has_user(user_id) ==> r is Err && r->Err_0.spec_kind() == ErrorKind::NotFound
                && r->Err_0.spec_message() == "Wallet not found"@,
            r is Err ==> final(self).wallets@ == old(self).wallets@,
            old(self).has_user(user_id) && pin@.len() <= MAX_SECRET_CHARS ==> r is Ok,
            old(self).has_user(user_id) && r is Err ==> r->Err_0.spec_kind() == ErrorKind::InternalServerError
                && r->Err_0.spec_message() == "Failed to hash PIN"@,
            r is Ok ==> old(self).has_user(user_id) && exists|now: Timestamp|
                pin_set(old(self).wallets@, final(self).wallets@, user_id, pin@, now),
    {
        let now = Timestamp::now();
        self.update_transfer_pin_at(user_id, pin, now)
    }
}

/// `after` is `before` with the wallet of `user_id` given a hash of `pin`
/// and stamped with `now`; every other wallet and field is as it was.
pub open spec fn pin_set(before: Seq<Wallet>, after: Seq<Wallet>, user_id: i64, pin: Seq<char>, now: Timestamp) -> bool {
    &&& after.len() == before.len()
    &&& forall|k: int|
        0 <= k < before.len() ==> if (#[trigger] before[k]).user_id == user_id {
            &&& after[k].password is Some
            &&& argon2_accepts(after[k].password->Some_0@, pin)
            &&& is_default_phc(after[k].password->Some_0@)
            &&& exists|salt: Seq<char>| is_salt_text(salt) && after[k].password->Some_0@ == phc_text(pin, salt)
            &&& after[k].updated_on == now
            &&& after[k].id == before[k].id
            &&& after[k].user_id == before[k].user_id
            &&& after[k].balances == before[k].balances
            &&& after[k].created_on == before[k].created_on
        } else {
            after[k] == before[k]
        }
}

/// A PIN update stamped later than the wallet's last change moves its
/// `updated_on` forward and changes its stored hash to one of the new PIN.
pub proof fn lemma_pin_update_advances(before: Seq<Wallet>, after: Seq<Wallet>, user_id: i64, pin: Seq<char>, now: Timestamp, k: int)
    requires
        pin_set(before, after, user_id, pin, now),
        0 <= k < before.len(),
        before[k].user_id == user_id,
        before[k].updated_on.micros < now.micros,
    ensures
        after[k].updated_on.micros > before[k].updated_on.micros,
        after[k].password is Some && argon2_accepts(after[k].password->Some_0@, pin),
{
    assert(before[k].user_id == user_id);
}

} // verus!
