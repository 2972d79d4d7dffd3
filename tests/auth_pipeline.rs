use std::time::{SystemTime, UNIX_EPOCH};

use jsonwebtoken::{encode, EncodingKey, Header};
use serde_json::Value;
use wallet_api::auth::{
    mask_tail, parse_bearer, run_pipeline, AuthUser, Authentication, Denial, DenialReason,
    RoleMiddleware,
};
use wallet_api::token::{claims_from_fields, claims_result, TokenFields};

const SECRET: &str = "a-test-signing-secret";

fn now_secs() -> u64 {
    SystemTime::now().duration_since(UNIX_EPOCH).unwrap().as_secs()
}

fn token_for(id: i64, roles: Vec<&str>, exp: u64, secret: &str) -> String {
    let mut claims = serde_json::Map::new();
    claims.insert("id".to_string(), Value::from(id));
    claims.insert("roles".to_string(), Value::from(roles));
    claims.insert("exp".to_string(), Value::from(exp));
    encode(&Header::default(), &Value::Object(claims), &EncodingKey::from_secret(secret.as_bytes()))
        .unwrap()
}

fn gate() -> RoleMiddleware {
    RoleMiddleware::new(vec!["USER", "ADMIN", "SUPER_USER"])
}

fn denial_of(r: Result<AuthUser, Denial>) -> Denial {
    match r {
        Ok(_) => panic!("expected a denial"),
        Err(d) => d,
    }
}

#[test]
fn bearer_header_is_parsed() {
    assert_eq!(parse_bearer("Bearer abc.def"), Some("abc.def".to_string()));
    assert_eq!(parse_bearer("  Bearer \t tok  "), Some("tok".to_string()));
}

#[test]
fn malformed_bearer_headers_are_refused() {
    assert_eq!(parse_bearer(""), None);
    assert_eq!(parse_bearer("Bearer"), None);
    assert_eq!(parse_bearer("Bearer "), None);
    assert_eq!(parse_bearer("bearer tok"), None);
    assert_eq!(parse_bearer("Bearertok"), None);
    assert_eq!(parse_bearer("Bearer a b"), None);
    assert_eq!(parse_bearer("Basic tok"), None);
}

#[test]
fn masking_keeps_only_the_tail() {
    assert_eq!(mask_tail("abcdefghijkl", 8), "...efghijkl");
    assert_eq!(mask_tail("abcdefgh", 8), "[redacted]");
    assert_eq!(mask_tail("supersecret", 4), "...cret");
    assert_eq!(mask_tail("abc", 4), "[redacted]");
}

#[test]
fn missing_header_is_denied_before_anything_else() {
    let auth = Authentication::new(SECRET.to_string());
    let d = denial_of(run_pipeline(&auth, &gate(), None));
    assert_eq!(d.reason, DenialReason::MissingHeader);
    assert_eq!(d.code(), "missing_authorization_header");
    assert_eq!(d.status_code(), 401);
    assert_eq!(d.title(), "Authentication Error");
    assert_eq!(d.message(), "Authorization header missing or invalid");
    assert_eq!(d.details(), "Bearer token required");
    assert_eq!(d.error(), "Access Denied");
    assert!(d.debug.is_none());
}

#[test]
fn header_without_bearer_form_is_denied() {
    let auth = Authentication::new(SECRET.to_string());
    let d = denial_of(run_pipeline(&auth, &gate(), Some("Token abc")));
    assert_eq!(d.code(), "missing_authorization_header");
}

#[test]
fn badly_signed_token_is_invalid() {
    let auth = Authentication::new(SECRET.to_string());
    let token = token_for(7, vec!["USER"], now_secs() + 3600, "another-secret");
    let header = format!("Bearer {}", token);
    let d = denial_of(run_pipeline(&auth, &gate(), Some(header.as_str())));
    assert_eq!(d.reason, DenialReason::InvalidToken);
    assert_eq!(d.code(), "invalid_token");
    assert_eq!(d.message(), "Invalid or expired token");
    assert_eq!(d.details(), "Token validation failed");
    let debug = d.debug.expect("invalid tokens carry masked samples");
    assert_eq!(debug.token_sample, format!("...{}", &token[token.len() - 8..]));
    assert_eq!(debug.secret_sample, "...cret");
    assert!(!debug.validation_error.is_empty());
}

#[test]
fn expired_token_is_invalid() {
    let auth = Authentication::new(SECRET.to_string());
    let token = token_for(7, vec!["USER"], now_secs() - 3600, SECRET);
    let header = format!("Bearer {}", token);
    let d = denial_of(run_pipeline(&auth, &gate(), Some(header.as_str())));
    assert_eq!(d.code(), "invalid_token");
}

#[test]
fn garbage_token_is_invalid() {
    let auth = Authentication::new(SECRET.to_string());
    let d = denial_of(run_pipeline(&auth, &gate(), Some("Bearer not-a-token")));
    assert_eq!(d.code(), "invalid_token");
    assert_eq!(d.debug.unwrap().token_sample, "...-a-token");
}

#[test]
fn valid_token_with_user_role_is_admitted() {
    let auth = Authentication::new(SECRET.to_string());
    let token = token_for(7, vec!["USER"], now_secs() + 3600, SECRET);
    let header = format!("Bearer {}", token);
    match run_pipeline(&auth, &gate(), Some(header.as_str())) {
        Ok(user) => {
            assert_eq!(user.id, 7);
            assert_eq!(user.roles, vec!["USER".to_string()]);
        }
        Err(d) => panic!("denied: {}", d.code()),
    }
}

#[test]
fn valid_token_without_required_role_is_forbidden() {
    let auth = Authentication::new(SECRET.to_string());
    let token = token_for(9, vec!["GUEST", "VIEWER"], now_secs() + 3600, SECRET);
    let header = format!("Bearer {}", token);
    let d = denial_of(run_pipeline(&auth, &gate(), Some(header.as_str())));
    assert_eq!(d.reason, DenialReason::InsufficientPermissions);
    assert_eq!(d.code(), "insufficient_permissions");
    assert_eq!(d.title(), "Authorization Error");
    assert_eq!(d.message(), "Insufficient permissions");
}

#[test]
fn role_gate_without_identity_requires_authentication() {
    let d = gate().check(None).unwrap_err();
    assert_eq!(d.code(), "authentication_required");
    assert_eq!(d.message(), "User not authenticated");
}

#[test]
fn empty_role_set_admits_any_identity() {
    let open = RoleMiddleware::new(vec![]);
    let user = AuthUser { id: 1, roles: vec![] };
    assert!(open.check(Some(&user)).is_ok());
    let admin = AuthUser { id: 2, roles: vec!["ADMIN".to_string()] };
    assert!(gate().check(Some(&admin)).is_ok());
    assert!(gate().check(Some(&user)).is_err());
}

fn fields(id: Option<i64>, exp: Option<u64>, roles: Option<Vec<Option<&str>>>) -> TokenFields {
    TokenFields {
        id,
        exp,
        roles: roles.map(|rs| rs.into_iter().map(|r| r.map(String::from)).collect()),
    }
}

#[test]
fn claims_need_an_i32_id_string_roles_and_exp() {
    assert!(claims_from_fields(&fields(Some(5_000_000_000), Some(10), Some(vec![Some("USER")]))).is_none());
    assert!(claims_from_fields(&fields(None, Some(10), Some(vec![Some("USER")]))).is_none());
    assert!(claims_from_fields(&fields(Some(12), None, Some(vec![Some("USER")]))).is_none());
    assert!(claims_from_fields(&fields(Some(12), Some(10), None)).is_none());
    assert!(claims_from_fields(&fields(Some(12), Some(10), Some(vec![Some("USER"), None]))).is_none());
    let c = claims_from_fields(&fields(Some(12), Some(10), Some(vec![Some("USER"), Some("ADMIN")]))).unwrap();
    assert_eq!((c.id, c.exp), (12, 10));
    assert_eq!(c.roles, vec!["USER".to_string(), "ADMIN".to_string()]);
}

#[test]
fn claims_result_passes_decoder_errors_and_names_bad_shapes() {
    let e = claims_result(&Err("ExpiredSignature".to_string())).unwrap_err();
    assert_eq!(e, "ExpiredSignature");
    let e = claims_result(&Ok(fields(Some(1), None, Some(vec![])))).unwrap_err();
    assert_eq!(e, "invalid claims: expected id, roles and exp");
}

#[test]
fn admit_decoded_turns_bad_claims_into_invalid_token() {
    let auth = Authentication::new(SECRET.to_string());
    let d = auth.admit_decoded("abcdefghijk", Ok(fields(Some(1), Some(1), None))).unwrap_err();
    assert_eq!(d.code(), "invalid_token");
    let debug = d.debug.unwrap();
    assert_eq!(debug.validation_error, "invalid claims: expected id, roles and exp");
    assert_eq!(debug.token_sample, "...defghijk");
    let u = auth.admit_decoded("t", Ok(fields(Some(4), Some(1), Some(vec![Some("USER")])))).unwrap();
    assert_eq!(u.id, 4);
}

#[test]
fn authenticate_reads_a_good_token() {
    let auth = Authentication::new(SECRET.to_string());
    let token = token_for(3, vec!["ADMIN"], now_secs() + 600, SECRET);
    let header = format!("Bearer {}", token);
    let u = auth.authenticate(Some(header.as_str())).unwrap();
    assert_eq!(u.id, 3);
    assert_eq!(u.roles, vec!["ADMIN".to_string()]);
    let other = Authentication::new("wrong".to_string());
    assert_eq!(other.authenticate(Some(header.as_str())).unwrap_err().code(), "invalid_token");
}
