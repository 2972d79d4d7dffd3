//! The authorization pipeline: bearer header parsing, the identity a verified
//! token yields, the role gate, and the denial envelopes of each rejection.

use vstd::prelude::*;
use crate::text::{chars_of, concat, owned, text_of};
use crate::token::{bad_claims_message, claims_of, claims_result, decode_hs256, fields_ok, TokenFields};

verus! {

/// Unicode white space, as `char::is_whitespace` classifies it.
pub open spec fn is_ws(c: char) -> bool {
    let u = c as u32;
    u == 0x20 || (0x09 <= u <= 0x0d) || u == 0x85 || u == 0xa0 || u == 0x1680
        || (0x2000 <= u <= 0x200a) || u == 0x2028 || u == 0x2029 || u == 0x202f
        || u == 0x205f || u == 0x3000
}

pub fn is_whitespace(c: char) -> (r: bool)
    ensures
        r == is_ws(c),
{
    let u = c as u32;
    u == 0x20 || (0x09 <= u && u <= 0x0d) || u == 0x85 || u == 0xa0 || u == 0x1680
        || (0x2000 <= u && u <= 0x200a) || u == 0x2028 || u == 0x2029 || u == 0x202f
        || u == 0x205f || u == 0x3000
}

/// The first position at or after `i` that is not white space.
pub open spec fn skip_ws(s: Seq<char>, i: int) -> int
    decreases s.len() - i,
{
    if 0 <= i < s.len() && is_ws(s[i]) {
        skip_ws(s, i + 1)
    } else {
        i
    }
}

/// The first position at or after `i` that is white space (or the end).
pub open spec fn skip_word(s: Seq<char>, i: int) -> int
    decreases s.len() - i,
{
    if 0 <= i < s.len() && !is_ws(s[i]) {
        skip_word(s, i + 1)
    } else {
        i
    }
}

/// The word `Bearer` starts at position `a`.
pub open spec fn bearer_at(s: Seq<char>, a: int) -> bool {
    &&& 0 <= a
    &&& a + 6 <= s.len()
    &&& s[a] == 'B'
    &&& s[a + 1] == 'e'
    &&& s[a + 2] == 'a'
    &&& s[a + 3] == 'r'
    &&& s[a + 4] == 'e'
    &&& s[a + 5] == 'r'
}

/// The token of an `Authorization` header value: the value splits on white
/// space into exactly two words and the first is `Bearer`.
pub open spec fn bearer_token_of(h: Seq<char>) -> Option<Seq<char>> {
    let a = skip_ws(h, 0);
    let b = a + 6;
    let c = skip_ws(h, b);
    let d = skip_word(h, c);
    if bearer_at(h, a) && c > b && d > c && skip_ws(h, d) == h.len() {
        Some(h.subrange(c, d))
    } else {
        None
    }
}

fn skip_ws_from(cs: &Vec<char>, start: usize) -> (r: usize)
    requires
        start <= cs@.len(),
    ensures
        r as int == skip_ws(cs@, start as int),
        start <= r <= cs@.len(),
{
    let mut i: usize = start;
    while i < cs.len() && is_whitespace(cs[i])
        invariant
            start <= i <= cs@.len(),
            skip_ws(cs@, i as int) == skip_ws(cs@, start as int),
        decreases cs@.len() - i,
    {
        i = i + 1;
    }
    i
}

fn skip_word_from(cs: &Vec<char>, start: usize) -> (r: usize)
    requires
        start <= cs@.len(),
    ensures
        r as int == skip_word(cs@, start as int),
        start <= r <= cs@.len(),
{
    let mut i: usize = start;
    while i < cs.len() && !is_whitespace(cs[i])
        invariant
            start <= i <= cs@.len(),
            skip_word(cs@, i as int) == skip_word(cs@, start as int),
        decreases cs@.len() - i,
    {
        i = i + 1;
    }
    i
}

/// The characters `lo..hi` of `cs` as a `String`.
pub fn sub_text(cs: &Vec<char>, lo: usize, hi: usize) -> (r: String)
    requires
        lo <= hi <= cs@.len(),
    ensures
        r@ == cs@.subrange(lo as int, hi as int),
{
    let mut out: Vec<char> = Vec::new();
    let mut k: usize = lo;
    while k < hi
        invariant
            lo <= k <= hi <= cs@.len(),
            out@ == cs@.subrange(lo as int, k as int),
        decreases hi - k,
    {
        out.push(cs[k]);
        k = k + 1;
    }
    text_of(out.as_slice())
}

/// The token of a `Bearer <token>` header value, if it has that form.
pub fn parse_bearer(header: &str) -> (r: Option<String>)
    ensures
        r is Some <==> bearer_token_of(header@) is Some,
        r matches Some(t) ==> t@ == bearer_token_of(header@)->Some_0,
{
    let cs = chars_of(header);
    let a = skip_ws_from(&cs, 0);
    if cs.len() < 6 || a > cs.len() - 6 {
        return None;
    }
    if !(cs[a] == 'B' && cs[a + 1] == 'e' && cs[a + 2] == 'a' && cs[a + 3] == 'r' && cs[a + 4]
        == 'e' && cs[a + 5] == 'r') {
        return None;
    }
    let b = a + 6;
    let c = skip_ws_from(&cs, b);
    if c == b {
        return None;
    }
    let d = skip_word_from(&cs, c);
    if d == c {
        return None;
    }
    let e = skip_ws_from(&cs, d);
    if e != cs.len() {
        return None;
    }
    Some(sub_text(&cs, c, d))
}

/// The last `keep` characters of a secret, after `...`; the whole is
/// replaced by `[redacted]` when it is not longer than `keep`.
pub open spec fn masked(s: Seq<char>, keep: nat) -> Seq<char> {
    if s.len() > keep {
        "..."@ + s.subrange(s.len() - keep, s.len() as int)
    } else {
        "[redacted]"@
    }
}

pub fn mask_tail(s: &str, keep: usize) -> (r: String)
    ensures
        r@ == masked(s@, keep as nat),
{
    let cs = chars_of(s);
    if cs.len() > keep {
        let tail = sub_text(&cs, cs.len() - keep, cs.len());
        concat("...", tail.as_str())
    } else {
        owned("[redacted]")
    }
}

/// The claims carried by a bearer token.
#[derive(Debug)]
pub struct Claims {
    pub id: i32,
    pub roles: Vec<String>,
    pub exp: usize,
}

/// The authenticated principal of one request.
#[derive(Debug)]
pub struct AuthUser {
    pub id: i32,
    pub roles: Vec<String>,
}

pub open spec fn texts(v: Seq<String>) -> Seq<Seq<char>> {
    v.map_values(|s: String| s@)
}

impl AuthUser {
    /// The identity a token's claims yield: the same id and roles.
    pub fn from_claims(claims: Claims) -> (r: AuthUser)
        ensures
            r.id == claims.id,
            r.roles@ == claims.roles@,
    {
        AuthUser { id: claims.id, roles: claims.roles }
    }

}

/// Some role of `roles` is among `required`.
pub open spec fn shares_role(roles: Seq<Seq<char>>, required: Seq<Seq<char>>) -> bool {
    exists|i: int, j: int|
        0 <= i < roles.len() && 0 <= j < required.len() && #[trigger] roles[i] == #[trigger] required[j]
}

pub fn has_any_role(roles: &Vec<String>, required: &Vec<String>) -> (r: bool)
    ensures
        r == shares_role(texts(roles@), texts(required@)),
{
    let mut j: usize = 0;
    while j < required.len()
        invariant
            j <= required@.len(),
            forall|i: int, jj: int|
                0 <= i < roles@.len() && 0 <= jj < j ==> #[trigger] roles@[i]@ != #[trigger] required@[jj]@,
        decreases required@.len() - j,
    {
        let mut i: usize = 0;
        while i < roles.len()
            invariant
                j < required@.len(),
                i <= roles@.len(),
                forall|ii: int, jj: int|
                    0 <= ii < roles@.len() && 0 <= jj < j ==> #[trigger] roles@[ii]@ != #[trigger] required@[jj]@,
                forall|ii: int| 0 <= ii < i ==> #[trigger] roles@[ii]@ != required@[j as int]@,
            decreases roles@.len() - i,
        {
            if roles[i] == required[j] {
                proof {
                    let t = texts(roles@);
                    let q = texts(required@);
                    assert(t[i as int] == q[j as int]);
                }
                return true;
            }
            i = i + 1;
        }
        j = j + 1;
    }
    proof {
        let t = texts(roles@);
        let q = texts(required@);
        assert forall|i: int, jj: int| 0 <= i < t.len() && 0 <= jj < q.len() implies t[i] != q[jj] by {
            assert(roles@[i]@ != required@[jj]@);
        }
    }
    false
}

/// Why a protected request was turned away.
#[derive(Clone, Copy, Debug, PartialEq, Eq, Structural)]
pub enum DenialReason {
    /// No `Authorization` header, or not of the form `Bearer <token>`.
    MissingHeader,
    /// The token did not verify: bad signature, expired, or malformed.
    InvalidToken,
    /// The identity holds none of the required roles.
    InsufficientPermissions,
    /// The role gate ran without an identity.
    AuthenticationRequired,
}

pub open spec fn code_of(r: DenialReason) -> Seq<char> {
    match r {
        DenialReason::MissingHeader => "missing_authorization_header"@,
        DenialReason::InvalidToken => "invalid_token"@,
        DenialReason::InsufficientPermissions => "insufficient_permissions"@,
        DenialReason::AuthenticationRequired => "authentication_required"@,
    }
}

/// Masked samples shown with an invalid-token denial.
#[derive(Debug)]
pub struct TokenDebug {
    pub validation_error: String,
    pub token_sample: String,
    pub secret_sample: String,
}

/// A rejection of a protected request, sent with status 401.
#[derive(Debug)]
pub struct Denial {
    pub reason: DenialReason,
    pub debug: Option<TokenDebug>,
}

impl Denial {
    pub fn new(reason: DenialReason) -> (r: Denial)
        ensures
            r.reason == reason,
            r.debug is None,
    {
        Denial { reason, debug: None }
    }

    pub fn status_code(&self) -> (r: u16)
        ensures
            r == 401,
    {
        401
    }

    /// The machine-readable `code` field.
    pub fn code(&self) -> (r: &'static str)
        ensures
            r@ == code_of(self.reason),
    {
        match self.reason {
            DenialReason::MissingHeader => "missing_authorization_header",
            DenialReason::InvalidToken => "invalid_token",
            DenialReason::InsufficientPermissions => "insufficient_permissions",
            DenialReason::AuthenticationRequired => "authentication_required",
        }
    }

    /// The `error` field, the same for every denial.
    pub fn error(&self) -> (r: &'static str)
        ensures
            r@ == "Access Denied"@,
    {
        "Access Denied"
    }

    /// The `title` field.
    pub fn title(&self) -> (r: &'static str)
        ensures
            self.reason == DenialReason::InsufficientPermissions ==> r@ == "Authorization Error"@,
            self.reason != DenialReason::InsufficientPermissions ==> r@ == "Authentication Error"@,
    {
        match self.reason {
            DenialReason::InsufficientPermissions => "Authorization Error",
            _ => "Authentication Error",
        }
    }

    /// The human `message` field.
    pub fn message(&self) -> (r: &'static str)
        ensures
            self.reason == DenialReason::MissingHeader ==> r@ == "Authorization header missing or invalid"@,
            self.reason == DenialReason::InvalidToken ==> r@ == "Invalid or expired token"@,
            self.reason == DenialReason::InsufficientPermissions ==> r@ == "Insufficient permissions"@,
            self.reason == DenialReason::AuthenticationRequired ==> r@ == "User not authenticated"@,
    {
        match self.reason {
            DenialReason::MissingHeader => "Authorization header missing or invalid",
            DenialReason::InvalidToken => "Invalid or expired token",
            DenialReason::InsufficientPermissions => "Insufficient permissions",
            DenialReason::AuthenticationRequired => "User not authenticated",
        }
    }

    /// The `details` field when it is plain text (all but invalid tokens).
    pub fn details(&self) -> (r: &'static str)
        ensures
            self.reason == DenialReason::MissingHeader ==> r@ == "Bearer token required"@,
            self.reason == DenialReason::InvalidToken ==> r@ == "Token validation failed"@,
            self.reason == DenialReason::InsufficientPermissions ==> r@ == "You are not authorized to access this endpoint"@,
            self.reason == DenialReason::AuthenticationRequired ==> r@ == "Authentication required"@,
    {
        match self.reason {
            DenialReason::MissingHeader => "Bearer token required",
            DenialReason::InvalidToken => "Token validation failed",
            DenialReason::InsufficientPermissions => "You are not authorized to access this endpoint",
            DenialReason::AuthenticationRequired => "Authentication required",
        }
    }
}

/// Number of trailing token characters shown in a denial.
pub const TOKEN_SAMPLE: usize = 8;

/// Number of trailing secret characters shown in a denial.
pub const SECRET_SAMPLE: usize = 4;

/// The authentication stage, holding the token signing secret.
#[derive(Debug)]
pub struct Authentication {
    pub secret: String,
}

impl Authentication {
    pub fn new(secret: String) -> (r: Authentication)
        ensures
            r.secret == secret,
    {
        Authentication { secret }
    }

    /// The outcome of the stage once the token's verification has come back:
    /// the identity of the claims, or an invalid-token denial with masked samples.
    pub fn admit_token(&self, token: &str, decoded: Result<Claims, String>) -> (r: Result<AuthUser, Denial>)
        ensures
            decoded is Ok ==> r is Ok && r->Ok_0.id == decoded->Ok_0.id
                && r->Ok_0.roles@ == decoded->Ok_0.roles@,
            decoded is Err ==> r is Err && r->Err_0.reason == DenialReason::InvalidToken
                && r->Err_0.debug is Some
                && r->Err_0.debug->Some_0.validation_error@ == decoded->Err_0@
                && r->Err_0.debug->Some_0.token_sample@ == masked(token@, TOKEN_SAMPLE as nat)
                && r->Err_0.debug->Some_0.secret_sample@ == masked(self.secret@, SECRET_SAMPLE as nat),
    {
        match decoded {
            Ok(c) => Ok(AuthUser::from_claims(c)),
            Err(e) => {
                let g = TokenDebug {
                    validation_error: e,
                    token_sample: mask_tail(token, TOKEN_SAMPLE),
                    secret_sample: mask_tail(self.secret.as_str(), SECRET_SAMPLE),
                };
                Err(Denial { reason: DenialReason::InvalidToken, debug: Some(g) })
            },
        }
    }

    /// The outcome of the stage once the token's verification has come back
    /// as plain fields: exact for every outcome.
    pub fn admit_decoded(&self, token: &str, decoded: Result<TokenFields, String>) -> (r: Result<AuthUser, Denial>)
        ensures
            r is Ok <==> decoded is Ok && fields_ok(decoded->Ok_0),
            r is Ok ==> user_of(decoded->Ok_0, r->Ok_0),
            r is Err ==> r->Err_0.reason == DenialReason::InvalidToken && r->Err_0.debug is Some
                && r->Err_0.debug->Some_0.validation_error@ == (if decoded is Err {
                    decoded->Err_0@
                } else {
                    bad_claims_message()
                })
                && r->Err_0.debug->Some_0.token_sample@ == masked(token@, TOKEN_SAMPLE as nat)
                && r->Err_0.debug->Some_0.secret_sample@ == masked(self.secret@, SECRET_SAMPLE as nat),
    {
        let claims = claims_result(&decoded);
        let ghost c = claims;
        let r = self.admit_token(token, claims);
        proof {
            if r is Ok {
                assert(texts(c->Ok_0.roles@) =~= field_roles(decoded->Ok_0));
            }
        }
        r
    }

    /// Stage one: the header must hold `Bearer <token>` and the token must verify.
    pub fn authenticate(&self, header: Option<&str>) -> (r: Result<AuthUser, Denial>)
        ensures
            header_token(header) is None <==> (r is Err && r->Err_0.reason == DenialReason::MissingHeader),
            r is Err ==> r->Err_0.reason == DenialReason::MissingHeader || r->Err_0.reason
                == DenialReason::InvalidToken,
            r is Ok ==> exists|f: TokenFields| fields_ok(f) && user_of(f, r->Ok_0),
            r is Err && r->Err_0.reason == DenialReason::InvalidToken ==> r->Err_0.debug is Some
                && r->Err_0.debug->Some_0.token_sample@ == masked(header_token(header)->Some_0, TOKEN_SAMPLE as nat)
                && r->Err_0.debug->Some_0.secret_sample@ == masked(self.secret@, SECRET_SAMPLE as nat),
    {
        match header {
            None => Err(Denial::new(DenialReason::MissingHeader)),
            Some(h) => match parse_bearer(h) {
                None => Err(Denial::new(DenialReason::MissingHeader)),
                Some(token) => {
                    let decoded = decode_hs256(token.as_str(), self.secret.as_str());
                    let ghost d = decoded;
                    let r = self.admit_decoded(token.as_str(), decoded);
                    proof {
                        if r is Ok {
                            assert(fields_ok(d->Ok_0) && user_of(d->Ok_0, r->Ok_0));
                        }
                    }
                    r
                },
            },
        }
    }
}

/// The role texts of decoded fields that make claims.
pub open spec fn field_roles(f: TokenFields) -> Seq<Seq<char>> {
    f.roles->Some_0@.map_values(|o: Option<String>| o->Some_0@)
}

/// `u` is the identity the fields name: their id and their roles.
pub open spec fn user_of(f: TokenFields, u: AuthUser) -> bool {
    u.id == f.id->Some_0 && texts(u.roles@) == field_roles(f)
}

/// The bearer token of an optional header value.
pub open spec fn header_token(header: Option<&str>) -> Option<Seq<char>> {
    match header {
        Some(h) => bearer_token_of(h@),
        None => None,
    }
}

/// The role stage: admits an identity holding one of the required roles,
/// or any identity when no role is required.
#[derive(Debug)]
pub struct RoleMiddleware {
    pub required_roles: Vec<String>,
}

/// A role set admits `roles` when it is empty or shares a role with them.
pub open spec fn roles_admit(required: Seq<Seq<char>>, roles: Seq<Seq<char>>) -> bool {
    required.len() == 0 || shares_role(roles, required)
}

impl RoleMiddleware {
    pub fn new(required_roles: Vec<&str>) -> (r: RoleMiddleware)
        ensures
            texts(r.required_roles@) == required_roles@.map_values(|s: &str| s@),
    {
        let mut out: Vec<String> = Vec::new();
        let mut i: usize = 0;
        while i < required_roles.len()
            invariant
                i <= required_roles@.len(),
                out@.len() == i,
                forall|k: int| 0 <= k < i ==> #[trigger] out@[k]@ == required_roles@[k]@,
            decreases required_roles@.len() - i,
        {
            out.push(owned(required_roles[i]));
            i = i + 1;
        }
        assert(texts(out@) =~= required_roles@.map_values(|s: &str| s@));
        RoleMiddleware { required_roles: out }
    }

    pub open spec fn required(&self) -> Seq<Seq<char>> {
        texts(self.required_roles@)
    }

    /// Stage two: the identity from stage one against the required roles.
    pub fn check(&self, user: Option<&AuthUser>) -> (r: Result<(), Denial>)
        ensures
            user is None ==> r is Err && r->Err_0.reason == DenialReason::AuthenticationRequired,
            user matches Some(u) ==> (r is Ok <==> roles_admit(self.required(), texts(u.roles@))),
            user is Some && r is Err ==> r->Err_0.reason == DenialReason::InsufficientPermissions,
    {
        match user {
            None => Err(Denial::new(DenialReason::AuthenticationRequired)),
            Some(u) => {
                if has_any_role(&u.roles, &self.required_roles) || self.required_roles.len() == 0 {
                    Ok(())
                } else {
                    Err(Denial::new(DenialReason::InsufficientPermissions))
                }
            },
        }
    }
}

/// Runs the two stages in order: authentication first, and the role gate
/// only on the identity it produced. The handler may run only on `Ok`.
pub fn run_pipeline(auth: &Authentication, gate: &RoleMiddleware, header: Option<&str>) -> (r: Result<AuthUser, Denial>)
    ensures
        header_token(header) is None <==> (r is Err && r->Err_0.reason == DenialReason::MissingHeader),
        r is Err && r->Err_0.reason == DenialReason::InvalidToken ==> r->Err_0.debug is Some
            && r->Err_0.debug->Some_0.token_sample@ == masked(header_token(header)->Some_0, TOKEN_SAMPLE as nat)
            && r->Err_0.debug->Some_0.secret_sample@ == masked(auth.secret@, SECRET_SAMPLE as nat),
        r is Ok ==> roles_admit(gate.required(), texts(r->Ok_0.roles@)),
        r is Ok ==> exists|f: TokenFields| fields_ok(f) && user_of(f, r->Ok_0),
        r is Err ==> r->Err_0.reason != DenialReason::AuthenticationRequired,
{
    match auth.authenticate(header) {
        Err(d) => Err(d),
        Ok(user) => match gate.check(Some(&user)) {
            Ok(()) => Ok(user),
            Err(d) => Err(d),
        },
    }
}

/// The pipeline once the token's verification has come back as plain
/// fields: exact for each outcome.
pub fn admit_verified(auth: &Authentication, gate: &RoleMiddleware, token: &str, decoded: Result<TokenFields, String>) -> (r: Result<AuthUser, Denial>)
    ensures
        !(decoded is Ok && fields_ok(decoded->Ok_0)) ==> r is Err && r->Err_0.reason == DenialReason::InvalidToken,
        decoded is Ok && fields_ok(decoded->Ok_0) ==> {
            if roles_admit(gate.required(), field_roles(decoded->Ok_0)) {
                r is Ok && user_of(decoded->Ok_0, r->Ok_0)
            } else {
                r is Err && r->Err_0.reason == DenialReason::InsufficientPermissions
            }
        },
{
    match auth.admit_decoded(token, decoded) {
        Err(d) => Err(d),
        Ok(user) => match gate.check(Some(&user)) {
            Ok(()) => Ok(user),
            Err(d) => Err(d),
        },
    }
}

} // verus!
