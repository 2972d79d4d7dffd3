//! The wallet record, its currency balances and the seed table of currencies.

use vstd::prelude::*;
use crate::text::owned;
use vstd::arithmetic::power2::pow2;

verus! {

/// A decimal amount: `digits * 10^(-scale)`.
#[derive(Clone, Copy, Debug, PartialEq, Eq, Structural)]
pub struct Amount {
    pub digits: i128,
    pub scale: i64,
}

impl Amount {
    pub open spec fn is_zero(&self) -> bool {
        self.digits == 0
    }

    pub fn zero() -> (r: Amount)
        ensures
            r.is_zero(),
            r.scale == 0,
    {
        Amount { digits: 0, scale: 0 }
    }
}

/// A wallet identifier: the 128 bits of a UUID.
#[derive(Clone, Copy, Debug, PartialEq, Eq, Structural)]
pub struct WalletId {
    pub value: u128,
}

/// True when the bits mark a random (version 4, RFC 9562 variant) UUID.
pub open spec fn is_random_uuid(v: u128) -> bool {
    v & 0xF000C000000000000000u128 == 0x40008000000000000000u128
}

/// The lower-case hexadecimal digit of `d` (below 16).
pub open spec fn hex_char(d: int) -> char {
    let digits = seq!['0', '1', '2', '3', '4', '5', '6', '7', '8', '9', 'a', 'b', 'c', 'd', 'e', 'f'];
    digits[d]
}

/// The `j`-th of the 32 hexadecimal digits of `v`, most significant first.
pub open spec fn nibble(v: u128, j: int) -> int {
    (v as int / pow2((4 * (31 - j)) as nat) as int) % 16
}

/// How many hyphens stand before position `k` of the text.
pub open spec fn hyphens_before(k: int) -> int {
    if k > 23 { 4 } else if k > 18 { 3 } else if k > 13 { 2 } else if k > 8 { 1 } else { 0 }
}

/// The hyphenated lower-case text of a UUID: 32 hexadecimal digits, most
/// significant first, with hyphens at positions 8, 13, 18 and 23.
pub open spec fn uuid_text_of(v: u128) -> Seq<char> {
    Seq::new(
        36,
        |k: int|
            if k == 8 || k == 13 || k == 18 || k == 23 {
                '-'
            } else {
                hex_char(nibble(v, k - hyphens_before(k)))
            },
    )
}

impl WalletId {
    /// Relies on uuid's `Uuid::new_v4`: random bits with the version and variant set.
    #[verifier::external_body]
    pub fn generate() -> (r: WalletId)
        ensures
            is_random_uuid(r.value),
    {
        WalletId { value: uuid::Uuid::new_v4().as_u128() }
    }

    /// Relies on uuid's `Display`: the hyphenated lower-case form.
    #[verifier::external_body]
    pub fn to_text(&self) -> (r: String)
        ensures
            r@ == uuid_text_of(self.value),
    {
        uuid::Uuid::from_u128(self.value).to_string()
    }
}

/// A point in time, in microseconds since the Unix epoch.
#[derive(Clone, Copy, Debug, PartialEq, Eq, Structural)]
pub struct Timestamp {
    pub micros: i64,
}

impl Timestamp {
    /// Relies on chrono's `Utc::now`: the current time, whatever the clock says.
    #[verifier::external_body]
    pub fn now() -> (r: Timestamp) {
        Timestamp { micros: chrono::Utc::now().timestamp_micros() }
    }
}

/// One currency's entry in a wallet.
#[derive(Debug)]
pub struct CurrencyBalance {
    pub currency_code: String,
    pub currency_symbol: String,
    pub balance: Amount,
}

impl CurrencyBalance {
    pub fn new(currency_code: &str, currency_symbol: &str, balance: Amount) -> (r: Self)
        ensures
            r.currency_code@ == currency_code@,
            r.currency_symbol@ == currency_symbol@,
            r.balance == balance,
    {
        CurrencyBalance {
            currency_code: owned(currency_code),
            currency_symbol: owned(currency_symbol),
            balance,
        }
    }

    /// A code of three characters and a symbol of one to five.
    pub open spec fn well_formed(&self) -> bool {
        &&& self.currency_code@.len() == 3
        &&& 1 <= self.currency_symbol@.len() <= 5
    }

    pub fn copy(&self) -> (r: Self)
        ensures
            r.currency_code@ == self.currency_code@,
            r.currency_symbol@ == self.currency_symbol@,
            r.balance == self.balance,
    {
        CurrencyBalance {
            currency_code: self.currency_code.clone(),
            currency_symbol: self.currency_symbol.clone(),
            balance: self.balance,
        }
    }
}

/// The number of currencies every new wallet starts with.
pub const SEED_COUNT: usize = 10;

/// The currency codes a new wallet is seeded with, in order.
pub open spec fn seed_codes() -> Seq<Seq<char>> {
    seq!["USD"@, "EUR"@, "NGN"@, "GBP"@, "JPY"@, "AUD"@, "CAD"@, "CHF"@, "CNY"@, "INR"@]
}

/// The symbols that go with [`seed_codes`], in the same order.
pub open spec fn seed_symbols() -> Seq<Seq<char>> {
    seq![
        "$"@,
        "\u{20ac}"@,
        "\u{20a6}"@,
        "\u{a3}"@,
        "\u{a5}"@,
        "$"@,
        "$"@,
        "CHF"@,
        "\u{a5}"@,
        "\u{20b9}"@,
    ]
}

/// True when the balances are exactly the seed table, every one at zero.
pub open spec fn is_seed_table(b: Seq<CurrencyBalance>) -> bool {
    &&& b.len() == SEED_COUNT
    &&& forall|i: int|
        0 <= i < SEED_COUNT ==> {
            &&& #[trigger] b[i].currency_code@ == seed_codes()[i]
            &&& b[i].currency_symbol@ == seed_symbols()[i]
            &&& b[i].balance.is_zero()
        }
}

/// The ten zero balances a new wallet starts with.
pub fn initialize_currencies() -> (r: Vec<CurrencyBalance>)
    ensures
        is_seed_table(r@),
{
    let z = Amount::zero();
    let r = vec![
        CurrencyBalance::new("USD", "$", z),
        CurrencyBalance::new("EUR", "\u{20ac}", z),
        CurrencyBalance::new("NGN", "\u{20a6}", z),
        CurrencyBalance::new("GBP", "\u{a3}", z),
        CurrencyBalance::new("JPY", "\u{a5}", z),
        CurrencyBalance::new("AUD", "$", z),
        CurrencyBalance::new("CAD", "$", z),
        CurrencyBalance::new("CHF", "CHF", z),
        CurrencyBalance::new("CNY", "\u{a5}", z),
        CurrencyBalance::new("INR", "\u{20b9}", z),
    ];
    r
}

/// A user's wallet: at most one per user id.
#[derive(Debug)]
pub struct Wallet {
    pub id: Option<WalletId>,
    pub user_id: i64,
    pub balances: Vec<CurrencyBalance>,
    /// The hash of the transfer PIN, once one is set.
    pub password: Option<String>,
    pub created_on: Timestamp,
    pub updated_on: Timestamp,
}

impl Wallet {
    /// An empty wallet stamped with the current time.
    pub fn default() -> (r: Wallet)
        ensures
            r.id is None,
            r.user_id == 0,
            r.balances@.len() == 0,
            r.password is None,
    {
        Wallet {
            id: None,
            user_id: 0,
            balances: Vec::new(),
            password: None,
            created_on: Timestamp::now(),
            updated_on: Timestamp::now(),
        }
    }

    /// A new wallet for `user_id`: the given id, the seed balances, no PIN.
    pub fn new_for_user(user_id: i64, id: WalletId) -> (r: Wallet)
        ensures
            r.id == Some(id),
            r.user_id == user_id,
            is_seed_table(r.balances@),
            r.password is None,
    {
        let now = Timestamp::now();
        Wallet {
            id: Some(id),
            user_id,
            balances: initialize_currencies(),
            password: None,
            created_on: now,
            updated_on: now,
        }
    }
}

/// Step-by-step construction of a [`Wallet`].
#[derive(Debug)]
pub struct WalletBuilder {
    pub id: Option<WalletId>,
    pub user_id: Option<i64>,
    pub balances: Vec<CurrencyBalance>,
    pub password: Option<String>,
}

impl WalletBuilder {
    pub fn new() -> (r: Self)
        ensures
            r.id is None,
            r.user_id is None,
            r.balances@.len() == 0,
            r.password is None,
    {
        WalletBuilder { id: None, user_id: None, balances: Vec::new(), password: None }
    }

    pub fn id(self, id: WalletId) -> (r: Self)
        ensures
            r.id == Some(id),
            r.user_id == self.user_id,
            r.balances@ == self.balances@,
            r.password == self.password,
    {
        WalletBuilder { id: Some(id), ..self }
    }

    pub fn user_id(self, user_id: i64) -> (r: Self)
        ensures
            r.id == self.id,
            r.user_id == Some(user_id),
            r.balances@ == self.balances@,
            r.password == self.password,
    {
        WalletBuilder { user_id: Some(user_id), ..self }
    }

    pub fn balances(self, balances: Vec<CurrencyBalance>) -> (r: Self)
        ensures
            r.id == self.id,
            r.user_id == self.user_id,
            r.balances@ == balances@,
            r.password == self.password,
    {
        WalletBuilder { balances, ..self }
    }

    pub fn password(self, password: String) -> (r: Self)
        ensures
            r.id == self.id,
            r.user_id == self.user_id,
            r.balances@ == self.balances@,
            r.password == Some(password),
    {
        WalletBuilder { password: Some(password), ..self }
    }

    /// The wallet, or an error when no user id was given.
    pub fn build(self) -> (r: Result<Wallet, &'static str>)
        ensures
            self.user_id is None <==> r is Err,
            r is Err ==> r->Err_0@ == "user_id is required"@,
            r matches Ok(w) ==> {
                &&& w.id == self.id
                &&& Some(w.user_id) == self.user_id
                &&& w.balances@ == self.balances@
                &&& w.password == self.password
            },
    {
        match self.user_id {
            None => Err("user_id is required"),
            Some(user_id) => {
                let now = Timestamp::now();
                Ok(Wallet {
                    id: self.id,
                    user_id,
                    balances: self.balances,
                    password: self.password,
                    created_on: now,
                    updated_on: now,
                })
            },
        }
    }
}

/// The body of a wallet creation request.
#[derive(Debug)]
pub struct CreateWalletRequest {
    pub user_id: i64,
}

/// The body of a transfer PIN update request.
#[derive(Debug)]
pub struct UpdatePinRequest {
    pub pin: String,
}

} // verus!
