//! Verification of signed claims tokens (HS256) and reading their claims.

use vstd::prelude::*;
use crate::auth::Claims;
use crate::text::owned;

verus! {

/// The claim fields of a verified token, as the JSON held them: `id` and
/// `exp` when they are integers in range of `i64` / `u64`, and each role
/// when it is a string.
#[derive(Debug)]
pub struct TokenFields {
    pub id: Option<i64>,
    pub exp: Option<u64>,
    pub roles: Option<Vec<Option<String>>>,
}

/// Relies on jsonwebtoken's `decode` with `Validation::new(Algorithm::HS256)`:
/// the signature is checked against `secret` and the expiry against the
/// current time, so nothing is known of the outcome in advance. On success
/// the `id`, `exp` and `roles` claims, read with serde_json's `as_i64`,
/// `as_u64`, `as_array` and `as_str`; on failure the error's text.
#[verifier::external_body]
pub(crate) fn decode_hs256(token: &str, secret: &str) -> (r: Result<TokenFields, String>) {
    let key = jsonwebtoken::DecodingKey::from_secret(secret.as_bytes());
    let validation = jsonwebtoken::Validation::new(jsonwebtoken::Algorithm::HS256);
    let data = jsonwebtoken::decode::<serde_json::Value>(token, &key, &validation)
        .map_err(|e| e.to_string())?;
    let c = data.claims;
    let roles = c["roles"].as_array().map(|a| a.iter().map(|v| v.as_str().map(String::from)).collect());
    Ok(TokenFields { id: c["id"].as_i64(), exp: c["exp"].as_u64(), roles })
}

/// The fields make claims: an `i32` id, a `usize` expiry, and roles that
/// are all strings.
pub open spec fn fields_ok(f: TokenFields) -> bool {
    &&& f.id is Some
    &&& i32::MIN <= f.id->Some_0 <= i32::MAX
    &&& f.exp is Some
    &&& f.exp->Some_0 <= usize::MAX
    &&& f.roles is Some
    &&& forall|i: int| 0 <= i < f.roles->Some_0@.len() ==> (#[trigger] f.roles->Some_0@[i]) is Some
}

/// `c` holds exactly the values of the fields.
pub open spec fn claims_of(f: TokenFields, c: Claims) -> bool {
    &&& c.id == f.id->Some_0
    &&& c.exp == f.exp->Some_0
    &&& c.roles@.len() == f.roles->Some_0@.len()
    &&& forall|i: int| 0 <= i < c.roles@.len() ==> (#[trigger] c.roles@[i])@ == f.roles->Some_0@[i]->Some_0@
}

/// The claims the fields make, if they make any.
pub fn claims_from_fields(f: &TokenFields) -> (r: Option<Claims>)
    ensures
        r is Some <==> fields_ok(*f),
        r matches Some(c) ==> claims_of(*f, c),
{
    let id = match f.id {
        Some(n) => n,
        None => return None,
    };
    if id < i32::MIN as i64 || id > i32::MAX as i64 {
        return None;
    }
    let exp = match f.exp {
        Some(n) => n,
        None => return None,
    };
    if exp > usize::MAX as u64 {
        return None;
    }
    let items = match &f.roles {
        Some(a) => a,
        None => return None,
    };
    let mut roles: Vec<String> = Vec::new();
    let mut i: usize = 0;
    while i < items.len()
        invariant
            f.roles == Some(*items),
            i <= items@.len(),
            roles@.len() == i,
            forall|k: int| 0 <= k < i ==> (#[trigger] items@[k]) is Some && roles@[k]@ == items@[k]->Some_0@,
        decreases items@.len() - i,
    {
        match &items[i] {
            Some(s) => roles.push(s.clone()),
            None => return None,
        }
        i = i + 1;
    }
    Some(Claims { id: id as i32, roles, exp: exp as usize })
}

/// The message given when a verified token's claims have the wrong shape.
pub open spec fn bad_claims_message() -> Seq<char> {
    "invalid claims: expected id, roles and exp"@
}

/// The decoder's outcome as claims: its error passes as it is, and fields
/// that make no claims are an error too.
pub fn claims_result(decoded: &Result<TokenFields, String>) -> (r: Result<Claims, String>)
    ensures
        decoded is Err ==> r is Err && r->Err_0@ == decoded->Err_0@,
        decoded is Ok ==> (r is Ok <==> fields_ok(decoded->Ok_0)),
        decoded is Ok && r is Err ==> r->Err_0@ == bad_claims_message(),
        r matches Ok(c) ==> decoded is Ok && claims_of(decoded->Ok_0, c),
{
    match decoded {
        Ok(f) => match claims_from_fields(f) {
            Some(c) => Ok(c),
            None => Err(owned("invalid claims: expected id, roles and exp")),
        },
        Err(e) => Err(e.clone()),
    }
}

} // verus!
