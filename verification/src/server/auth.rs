//! Registration, login and access tokens.

use vstd::prelude::*;

use argon2::password_hash::rand_core::OsRng;
use argon2::password_hash::SaltString;
use argon2::{Argon2, PasswordHash, PasswordHasher, PasswordVerifier};

use crate::text::{concat, str_equal};
use crate::time::{utc_now, DateTime};
use crate::types::{AuthResponse, Claims, LoginRequest, RegisterRequest, User, UserId, UserInfo, UserRole, UserV};

verus! {

/// Whether argon2 accepts `password` for the PHC string `hash`: `None` when
/// the string does not parse as a password hash.
pub uninterp spec fn argon2_check(password: Seq<char>, hash: Seq<char>) -> Option<bool>;

/// argon2's `hash_password` with the default parameters and a fresh random salt.
///
/// Trusted: the hash depends on the salt and is left open, except that
/// argon2 verifies the password against it (the round trip that argon2's
/// documentation shows); a failure carries argon2's message.  With the
/// default parameters and a generated salt, argon2 refuses only passwords
/// longer than `0xFFFFFFFF` bytes, so a password of fewer than `2^30`
/// characters (at most four bytes each) is hashed.
#[verifier::external_body]
fn argon2_hash(password: &str) -> (r: Result<String, String>)
    ensures
        password@.len() < 0x4000_0000 ==> r is Ok,
        r matches Ok(h) ==> argon2_check(password@, h@) == Some(true),
{
    let salt = SaltString::generate(&mut OsRng);
    match Argon2::default().hash_password(password.as_bytes(), &salt) {
        Ok(h) => Ok(h.to_string()),
        Err(e) => Err(e.to_string()),
    }
}

/// argon2's `verify_password` against the parsed PHC string `hash`.
///
/// Trusted: the outcome is named by `argon2_check`; the text of a parse
/// failure is left open.
#[verifier::external_body]
fn argon2_verify(password: &str, hash: &str) -> (r: Result<bool, String>)
    ensures
        r is Err <==> argon2_check(password@, hash@) is None,
        r matches Ok(b) ==> argon2_check(password@, hash@) == Some(b),
{
    match PasswordHash::new(hash) {
        Ok(parsed) => Ok(Argon2::default().verify_password(password.as_bytes(), &parsed).is_ok()),
        Err(e) => Err(e.to_string()),
    }
}

/// A fresh random identifier: uuid's `Uuid::new_v4`, as its 128 bits.
///
/// Trusted: the value is random and left open.
#[verifier::external_body]
fn new_user_id() -> (r: UserId) {
    uuid::Uuid::new_v4().as_u128()
}

/// The lowercase hexadecimal digit of a value below 16.
pub open spec fn hex_digit(n: int) -> char {
    if n < 10 {
        ('0' as int + n) as char
    } else {
        ('a' as int + n - 10) as char
    }
}

/// The character at position `p` of the hyphenated text of a UUID: its
/// 32 hexadecimal digits, most significant first, in groups of 8, 4, 4, 4
/// and 12 separated by hyphens.
pub open spec fn uuid_char(id: UserId, p: int) -> char {
    if p == 8 || p == 13 || p == 18 || p == 23 {
        '-'
    } else {
        let k = if p < 8 { p } else if p < 13 { p - 1 } else if p < 18 { p - 2 } else if p < 23 { p - 3 } else { p - 4 };
        hex_digit(((id >> ((124 - 4 * k) as u128)) & 0xfu128) as int)
    }
}

/// The hyphenated text of a UUID.
pub open spec fn uuid_text(id: UserId) -> Seq<char> {
    Seq::new(36, |p: int| uuid_char(id, p))
}

/// uuid's `to_string` of the UUID with the given 128 bits.
///
/// Trusted: uuid formats a UUID as its 16 bytes, most significant first,
/// in lowercase hexadecimal, hyphenated after the 4th, 6th, 8th and 10th
/// byte.
#[verifier::external_body]
fn uuid_string(id: UserId) -> (r: String)
    ensures
        r@ == uuid_text(id),
{
    uuid::Uuid::from_u128(id).to_string()
}

/// A value of the claims object of a token, as far as tokens use them: a
/// JSON string, a JSON number that reads as an unsigned 64-bit integer, or
/// anything else.
pub enum ClaimValue {
    Text(Seq<char>),
    Number(u64),
    Other,
}

/// The entries of a JSON object, by key.
pub uninterp spec fn json_entries(m: serde_json::Map<String, serde_json::Value>) -> Map<Seq<char>, ClaimValue>;

/// The claims object carried in the payload of a token.
pub uninterp spec fn jwt_payload(token: Seq<char>) -> Map<Seq<char>, ClaimValue>;

/// The claims object `{sub, username, role, exp, iat, iss}`.
pub open spec fn claims_entries(sub: Seq<char>, username: Seq<char>, role: Seq<char>, exp: u64, iat: u64, iss: Seq<char>) -> Map<Seq<char>, ClaimValue> {
    Map::empty()
        .insert("sub"@, ClaimValue::Text(sub))
        .insert("username"@, ClaimValue::Text(username))
        .insert("role"@, ClaimValue::Text(role))
        .insert("exp"@, ClaimValue::Number(exp))
        .insert("iat"@, ClaimValue::Number(iat))
        .insert("iss"@, ClaimValue::Text(iss))
}

/// The token that jsonwebtoken's `encode` gives, with the default header
/// (HS256) and a key made of `secret`, for the claims object
/// `{sub, username, role, exp, iat, iss}`.
pub uninterp spec fn jwt_encoded(sub: Seq<char>, username: Seq<char>, role: Seq<char>, exp: u64, iat: u64, iss: Seq<char>, secret: Seq<char>) -> Seq<char>;

/// `token` passes jsonwebtoken's signature check for HS256 with a key made
/// of `secret`: its header names HS256 and its signature is the HMAC-SHA256
/// of its header and payload under `secret`.
pub uninterp spec fn jwt_signed(token: Seq<char>, secret: Seq<char>) -> bool;

/// jsonwebtoken's `encode` of the claims object built from the given values.
///
/// Trusted: it succeeds, since the default header is HS256, a key made by
/// `from_secret` is an HMAC key, a serde_json object with text keys always
/// serializes, and HMAC signing cannot fail; the token is named by
/// `jwt_encoded`, it is signed under `secret` (the signature is the HMAC
/// that `decode` recomputes), and its payload is the claims object given,
/// since `encode` writes the object with serde_json and `decode` reads it
/// back with serde_json (strings stay strings, unsigned integers stay
/// numbers).  The token is its three parts joined by '.', so it is not
/// empty.
#[verifier::external_body]
fn jwt_encode(sub: &str, username: &str, role: &str, exp: u64, iat: u64, iss: &str, secret: &str) -> (r: Result<String, String>)
    ensures
        r is Ok,
        r matches Ok(t) ==> t@ == jwt_encoded(sub@, username@, role@, exp, iat, iss@, secret@),
        r matches Ok(t) ==> jwt_signed(t@, secret@),
        r matches Ok(t) ==> t@.len() > 0,
        r matches Ok(t) ==> jwt_payload(t@) == claims_entries(sub@, username@, role@, exp, iat, iss@),
{
    let mut m = serde_json::Map::new();
    m.insert("sub".to_string(), sub.into());
    m.insert("username".to_string(), username.into());
    m.insert("role".to_string(), role.into());
    m.insert("exp".to_string(), exp.into());
    m.insert("iat".to_string(), iat.into());
    m.insert("iss".to_string(), iss.into());
    let key = jsonwebtoken::EncodingKey::from_secret(secret.as_bytes());
    jsonwebtoken::encode(&jsonwebtoken::Header::default(), &m, &key).map_err(|e| e.to_string())
}

#[verifier::external_type_specification]
#[verifier::external_body]
#[verifier::reject_recursive_types(K)]
#[verifier::reject_recursive_types(V)]
pub struct ExJsonMap<K, V>(serde_json::Map<K, V>);

#[verifier::external_type_specification]
#[verifier::external_body]
pub struct ExJsonValue(serde_json::Value);

/// jsonwebtoken's `decode` of `token` into a claims object, with HS256, a
/// key made of `secret`, and `issuer` as the only accepted issuer.
///
/// Trusted: it succeeds only for a token signed under `secret` whose
/// issuer, when the payload names one as text, is `issuer` (a payload with
/// no issuer passes that check); the object it returns is the token's
/// payload.  Whether a signed token is accepted is left open, since it
/// depends on the clock (jsonwebtoken refuses tokens whose `exp` has passed
/// by more than a minute).
#[verifier::external_body]
fn jwt_decode(token: &str, secret: &str, issuer: &str) -> (r: Result<serde_json::Map<String, serde_json::Value>, String>)
    ensures
        r is Ok ==> jwt_signed(token@, secret@),
        r is Ok ==> (jwt_payload(token@).get("iss"@) matches Some(ClaimValue::Text(t)) ==> t == issuer@),
        r matches Ok(m) ==> json_entries(m) == jwt_payload(token@),
{
    let mut validation = jsonwebtoken::Validation::new(jsonwebtoken::Algorithm::HS256);
    validation.set_issuer(&[issuer]);
    let key = jsonwebtoken::DecodingKey::from_secret(secret.as_bytes());
    match jsonwebtoken::decode::<serde_json::Map<String, serde_json::Value>>(token, &key, &validation) {
        Ok(data) => Ok(data.claims),
        Err(e) => Err(e.to_string()),
    }
}

/// The text under `key` of a claims object, if it holds text there.
///
/// Trusted: serde_json's `Map::get`, and the `String` variant of `Value`:
/// the text is that of the entry under `key` when it is a string.
#[verifier::external_body]
fn claim_text(m: &serde_json::Map<String, serde_json::Value>, key: &str) -> (r: Option<String>)
    ensures
        match json_entries(*m).get(key@) {
            Some(ClaimValue::Text(t)) => (r matches Some(s) && s@ == t),
            _ => r is None,
        },
{
    match m.get(key) {
        Some(serde_json::Value::String(s)) => Some(s.clone()),
        _ => None,
    }
}

/// The number under `key` of a claims object, if it holds an unsigned
/// integer there.
///
/// Trusted: serde_json's `Map::get` and `Value::as_u64`: the number is
/// that of the entry under `key` when it reads as an unsigned integer.
#[verifier::external_body]
fn claim_number(m: &serde_json::Map<String, serde_json::Value>, key: &str) -> (r: Option<u64>)
    ensures
        match json_entries(*m).get(key@) {
            Some(ClaimValue::Number(n)) => r == Some(n),
            _ => r is None,
        },
{
    match m.get(key) {
        Some(v) => v.as_u64(),
        None => None,
    }
}

/// Why an authentication request was refused.
#[derive(Debug, Clone, PartialEq, Eq)]
pub enum AuthError {
    InvalidCredentials,
    UserAlreadyExists,
    UserNotFound,
    TokenExpired,
    InvalidToken,
    InternalError(String),
}

/// The text of an error.
pub open spec fn auth_error_text(e: AuthError) -> Seq<char> {
    match e {
        AuthError::InvalidCredentials => "Invalid credentials"@,
        AuthError::UserAlreadyExists => "User already exists"@,
        AuthError::UserNotFound => "User not found"@,
        AuthError::TokenExpired => "Token has expired"@,
        AuthError::InvalidToken => "Invalid token"@,
        AuthError::InternalError(msg) => "Internal error: "@ + msg@,
    }
}

impl AuthError {
    /// The text of the error.
    pub fn message(&self) -> (r: String)
        ensures
            r@ == auth_error_text(*self),
    {
        match self {
            AuthError::InvalidCredentials => String::from_str("Invalid credentials"),
            AuthError::UserAlreadyExists => String::from_str("User already exists"),
            AuthError::UserNotFound => String::from_str("User not found"),
            AuthError::TokenExpired => String::from_str("Token has expired"),
            AuthError::InvalidToken => String::from_str("Invalid token"),
            AuthError::InternalError(msg) => concat("Internal error: ", msg.as_str()),
        }
    }
}

/// The name of a role in tokens.
pub open spec fn role_text(role: UserRole) -> Seq<char> {
    match role {
        UserRole::Admin => "Admin"@,
        UserRole::User => "User"@,
    }
}

/// The name of a role in tokens.
pub fn role_name(role: UserRole) -> (r: &'static str)
    ensures
        r@ == role_text(role),
{
    match role {
        UserRole::Admin => "Admin",
        UserRole::User => "User",
    }
}

/// The role of a name in tokens.
pub fn role_from_name(name: &str) -> (r: Option<UserRole>)
    ensures
        r matches Some(role) ==> role_text(role) == name@,
        r is None ==> name@ != "Admin"@ && name@ != "User"@,
{
    proof {
        reveal_strlit("Admin");
        reveal_strlit("User");
    }
    if str_equal(name, "Admin") {
        Some(UserRole::Admin)
    } else if str_equal(name, "User") {
        Some(UserRole::User)
    } else {
        None
    }
}


/// Some user of `users` has the name `name`.
pub open spec fn has_user(users: Seq<UserV>, name: Seq<char>) -> bool {
    exists|i: int| 0 <= i < users.len() && #[trigger] users[i].username == name
}

/// No two users share a name.
pub open spec fn unique_names(users: Seq<UserV>) -> bool {
    forall|i: int, j: int| 0 <= i < users.len() && 0 <= j < users.len() && i != j
        ==> #[trigger] users[i].username != #[trigger] users[j].username
}

/// The user `u` is the one of `users` named `name`, at position `i`.
pub open spec fn user_at(users: Seq<UserV>, name: Seq<char>, i: int) -> bool {
    0 <= i < users.len() && users[i].username == name
}

/// The seconds a token stays valid: 24 hours.
pub open spec fn token_lifetime() -> int {
    24int * 3600int
}

/// `resp` answers for the user `u` with a token issued at `iat` by `issuer`
/// under `secret`.
pub open spec fn grants(resp: AuthResponse, u: UserV, issuer: Seq<char>, secret: Seq<char>) -> bool {
    &&& resp.token_type@ == "Bearer"@
    &&& resp.expires_in == token_lifetime()
    &&& resp.user.id == u.id
    &&& resp.user.username@ == u.username
    &&& resp.user.email@ == u.email
    &&& resp.user.role == u.role
    &&& jwt_signed(resp.access_token@, secret)
    &&& resp.access_token@.len() > 0
    &&& exists|iat: i64| resp.access_token@ == #[trigger] jwt_encoded(uuid_text(u.id), u.username, role_text(u.role),
            (iat + token_lifetime()) as u64, iat as u64, issuer, secret)
        && jwt_payload(resp.access_token@) == claims_entries(uuid_text(u.id), u.username, role_text(u.role),
            (iat + token_lifetime()) as u64, iat as u64, issuer)
}

/// `token` is the token for the user `u` issued by `issuer` under `secret`
/// at the point `iat` (seconds since 1970): it expires 24 hours later, and
/// its payload names the user, the issue time and the expiry.
pub open spec fn token_issued_at(token: Seq<char>, u: UserV, issuer: Seq<char>, secret: Seq<char>, iat: i64) -> bool {
    &&& token == jwt_encoded(uuid_text(u.id), u.username, role_text(u.role),
            (iat + token_lifetime()) as u64, iat as u64, issuer, secret)
    &&& jwt_payload(token) == claims_entries(uuid_text(u.id), u.username, role_text(u.role),
            (iat + token_lifetime()) as u64, iat as u64, issuer)
}

/// `resp` answers for the user `u` with a token issued by `issuer` under
/// `secret` at the point `iat`.
pub open spec fn grants_at(resp: AuthResponse, u: UserV, issuer: Seq<char>, secret: Seq<char>, iat: i64) -> bool {
    &&& grants(resp, u, issuer, secret)
    &&& token_issued_at(resp.access_token@, u, issuer, secret, iat)
}

/// A token granted at a point in time carries that point as its issue time
/// and the point 24 hours later as its expiry: validating it gives back
/// exactly those, so the token is usable for the 24 hours after it is
/// issued.
pub proof fn law_granted_token_lives_a_day(resp: AuthResponse, u: UserV, issuer: Seq<char>, secret: Seq<char>, now: i64, c: Claims)
    requires
        grants_at(resp, u, issuer, secret, now),
        claims_of_payload(jwt_payload(resp.access_token@), c),
    ensures
        c.iat == (now as u64) as usize,
        c.exp == ((now + 24 * 3600) as u64) as usize,
{
    reveal_strlit("sub");
    reveal_strlit("username");
    reveal_strlit("role");
    reveal_strlit("exp");
    reveal_strlit("iat");
    reveal_strlit("iss");
    let p = jwt_payload(resp.access_token@);
    assert("exp"@[0] != "iss"@[0] && "exp"@[0] != "iat"@[0]);
    assert("iat"@[1] != "iss"@[1]);
    assert("exp"@.len() != "username"@.len() && "exp"@.len() != "role"@.len());
    assert("iat"@.len() != "username"@.len() && "iat"@.len() != "role"@.len());
    assert("exp"@[0] != "sub"@[0] && "iat"@[0] != "sub"@[0]);
    assert(p.get("exp"@) == Some(ClaimValue::Number((now + token_lifetime()) as u64)));
    assert(p.get("iat"@) == Some(ClaimValue::Number(now as u64)));
}

/// The claims `c` are those of the claims object `p`.
pub open spec fn claims_of_payload(p: Map<Seq<char>, ClaimValue>, c: Claims) -> bool {
    &&& p.get("sub"@) == Some(ClaimValue::Text(c.sub@))
    &&& p.get("username"@) == Some(ClaimValue::Text(c.username@))
    &&& p.get("role"@) == Some(ClaimValue::Text(role_text(c.role)))
    &&& (exists|n: u64| p.get("exp"@) == Some(ClaimValue::Number(n)) && c.exp == n as usize)
    &&& (exists|n: u64| p.get("iat"@) == Some(ClaimValue::Number(n)) && c.iat == n as usize)
    &&& p.get("iss"@) == Some(ClaimValue::Text(c.iss@))
}

/// `new` is `old` with the user `u` added at the end: a new, active user
/// named and reached as the request asks, with role `role`, no update time,
/// and a password hash that argon2 accepts the request's password for.
pub open spec fn registered(old: Seq<UserV>, new: Seq<UserV>, username: Seq<char>, email: Seq<char>, password: Seq<char>, role: UserRole, u: UserV) -> bool {
    &&& new == old.push(u)
    &&& u.username == username
    &&& u.email == email
    &&& u.role == role
    &&& u.is_active
    &&& u.updated_at is None
    &&& argon2_check(password, u.password_hash) == Some(true)
}

/// A claims object holds every claim of a token, each as text or as a
/// number as the claim asks, and names a known role.
pub open spec fn payload_complete(p: Map<Seq<char>, ClaimValue>) -> bool {
    &&& p.get("sub"@) matches Some(ClaimValue::Text(_))
    &&& p.get("username"@) matches Some(ClaimValue::Text(_))
    &&& (p.get("role"@) matches Some(ClaimValue::Text(t)) && (t == "Admin"@ || t == "User"@))
    &&& p.get("exp"@) matches Some(ClaimValue::Number(_))
    &&& p.get("iat"@) matches Some(ClaimValue::Number(_))
    &&& p.get("iss"@) matches Some(ClaimValue::Text(_))
}

/// The expiry a claims object names, in seconds since 1970.
pub open spec fn payload_exp(p: Map<Seq<char>, ClaimValue>) -> u64 {
    match p.get("exp"@) {
        Some(ClaimValue::Number(n)) => n,
        _ => 0,
    }
}

/// Every part of a token's claims is present and the role is known.
pub open spec fn claims_complete(sub: Option<String>, username: Option<String>, role: Option<String>, exp: Option<u64>, iat: Option<u64>, iss: Option<String>) -> bool {
    &&& sub is Some && username is Some && role is Some && exp is Some && iat is Some && iss is Some
    &&& role.unwrap()@ == "Admin"@ || role.unwrap()@ == "User"@
}

/// The claims made of the parts read from a token.
pub fn claims_from_parts(sub: Option<String>, username: Option<String>, role: Option<String>, exp: Option<u64>, iat: Option<u64>, iss: Option<String>) -> (r: Option<Claims>)
    ensures
        r is Some <==> claims_complete(sub, username, role, exp, iat, iss),
        r matches Some(c) ==> c.sub@ == sub.unwrap()@ && c.username@ == username.unwrap()@
            && role_text(c.role) == role.unwrap()@
            && c.exp == exp.unwrap() as usize && c.iat == iat.unwrap() as usize && c.iss@ == iss.unwrap()@,
{
    proof {
        reveal_strlit("Admin");
        reveal_strlit("User");
    }
    match (sub, username, role, exp, iat, iss) {
        (Some(sub), Some(username), Some(role), Some(exp), Some(iat), Some(iss)) => {
            match role_from_name(role.as_str()) {
                Some(role) => Some(Claims { sub, username, role, exp: exp as usize, iat: iat as usize, iss }),
                None => None,
            }
        },
        _ => None,
    }
}

/// The claims again, unless their expiry lies before `now` (seconds since
/// 1970), in which case the token has expired.
pub fn check_expiry(claims: Claims, now: i64) -> (r: Result<Claims, AuthError>)
    ensures
        (claims.exp as int) < (now as usize) as int ==> r == Err::<Claims, AuthError>(AuthError::TokenExpired),
        (claims.exp as int) >= (now as usize) as int ==> r == Ok::<Claims, AuthError>(claims),
{
    if claims.exp < now as usize {
        Err(AuthError::TokenExpired)
    } else {
        Ok(claims)
    }
}

/// The claims of a decoded token, checked against the time `now` (seconds
/// since 1970): a token that did not decode is invalid, so is one whose
/// claims object lacks a claim, and one whose expiry lies before `now` has
/// expired.
pub fn claims_from_decoded(decoded: Result<serde_json::Map<String, serde_json::Value>, String>, now: i64) -> (r: Result<Claims, AuthError>)
    ensures
        decoded is Err ==> r == Err::<Claims, AuthError>(AuthError::InvalidToken),
        decoded matches Ok(m) ==> {
            let p = json_entries(m);
            &&& !payload_complete(p) ==> r == Err::<Claims, AuthError>(AuthError::InvalidToken)
            &&& payload_complete(p) && (payload_exp(p) as usize) < (now as usize)
                ==> r == Err::<Claims, AuthError>(AuthError::TokenExpired)
            &&& payload_complete(p) && (payload_exp(p) as usize) >= (now as usize)
                ==> (r matches Ok(c) && claims_of_payload(p, c))
        },
{
    let m = match decoded {
        Ok(m) => m,
        Err(_) => return Err(AuthError::InvalidToken),
    };
    let sub = claim_text(&m, "sub");
    let username = claim_text(&m, "username");
    let role = claim_text(&m, "role");
    let exp = claim_number(&m, "exp");
    let iat = claim_number(&m, "iat");
    let iss = claim_text(&m, "iss");
    let ghost p = json_entries(m);
    assert(claims_complete(sub, username, role, exp, iat, iss) <==> payload_complete(p));
    let claims = match claims_from_parts(sub, username, role, exp, iat, iss) {
        Some(c) => c,
        None => return Err(AuthError::InvalidToken),
    };
    assert(claims.exp == payload_exp(p) as usize);
    assert(claims_of_payload(p, claims));
    check_expiry(claims, now)
}

/// A user just registered with a password can log in with that password:
/// the only user with the name is the new one, active, and argon2 accepts
/// the password for its hash; so `login` grants it a token.  Registering
/// the same name again is refused.
pub proof fn law_register_then_login(old: Seq<UserV>, new: Seq<UserV>, username: Seq<char>, email: Seq<char>, password: Seq<char>, role: UserRole, u: UserV)
    requires
        unique_names(old),
        !has_user(old, username),
        registered(old, new, username, email, password, role, u),
    ensures
        unique_names(new),
        has_user(new, username),
        forall|i: int| #[trigger] user_at(new, username, i) ==> new[i] == u && new[i].is_active
            && argon2_check(password, new[i].password_hash) == Some(true),
{
    assert(new[old.len() as int] == u);
    assert(user_at(new, username, old.len() as int));
    assert forall|i: int| #[trigger] user_at(new, username, i) implies new[i] == u && new[i].is_active
        && argon2_check(password, new[i].password_hash) == Some(true) by {
        if i < old.len() {
            assert(old[i].username == username);
        }
    }
    assert forall|i: int, j: int| 0 <= i < new.len() && 0 <= j < new.len() && i != j
        implies #[trigger] new[i].username != #[trigger] new[j].username by {
        if i == old.len() {
            assert(old[j].username == new[j].username);
        } else if j == old.len() {
            assert(old[i].username == new[i].username);
        }
    }
}

/// A token that `register` or `login` grants carries the user's claims:
/// validating it gives back the user's identifier, name and role, and the
/// issuer of the service.
pub proof fn law_granted_token_claims(resp: AuthResponse, u: UserV, issuer: Seq<char>, secret: Seq<char>, c: Claims)
    requires
        grants(resp, u, issuer, secret),
        claims_of_payload(jwt_payload(resp.access_token@), c),
    ensures
        c.sub@ == uuid_text(u.id),
        c.username@ == u.username,
        c.role == u.role,
        c.iss@ == issuer,
{
    reveal_strlit("Admin");
    reveal_strlit("User");
    reveal_strlit("sub");
    reveal_strlit("username");
    reveal_strlit("role");
    reveal_strlit("exp");
    reveal_strlit("iat");
    reveal_strlit("iss");
    let iat = choose|iat: i64| resp.access_token@ == #[trigger] jwt_encoded(uuid_text(u.id), u.username, role_text(u.role),
        (iat + token_lifetime()) as u64, iat as u64, issuer, secret)
        && jwt_payload(resp.access_token@) == claims_entries(uuid_text(u.id), u.username, role_text(u.role),
            (iat + token_lifetime()) as u64, iat as u64, issuer);
    let p = jwt_payload(resp.access_token@);
    assert("sub"@[0] != "exp"@[0] && "sub"@[0] != "iat"@[0] && "sub"@[0] != "iss"@[0]);
    assert("sub"@ != "username"@ && "sub"@ != "role"@);
    assert("username"@.len() != "role"@.len() && "username"@.len() != "exp"@.len());
    assert(p.get("sub"@) == Some(ClaimValue::Text(uuid_text(u.id))));
    assert(p.get("username"@) == Some(ClaimValue::Text(u.username)));
    assert(p.get("role"@) == Some(ClaimValue::Text(role_text(u.role))));
    assert(p.get("iss"@) == Some(ClaimValue::Text(issuer)));
    assert(role_text(c.role) == role_text(u.role));
    assert("Admin"@.len() != "User"@.len());
}

/// The user registry and the signing of access tokens.
pub struct AuthService {
    users: Vec<User>,
    secret: String,
    issuer: String,
}

impl AuthService {
    /// The registered users, in order of registration.
    pub closed spec fn users(&self) -> Seq<UserV> {
        self.users@.map_values(|u: User| u@)
    }

    /// The secret that signs the tokens.
    pub closed spec fn secret(&self) -> Seq<char> {
        self.secret@
    }

    /// The issuer named in the tokens.
    pub closed spec fn issuer(&self) -> Seq<char> {
        self.issuer@
    }

    /// No two users share a name.
    pub open spec fn wf(&self) -> bool {
        unique_names(self.users())
    }

    /// A service with no users, signing with `secret` as "timesman-server".
    pub fn new(secret: &str) -> (r: AuthService)
        ensures
            r.wf(),
            r.users() == Seq::<UserV>::empty(),
            r.secret() == secret@,
            r.issuer() == "timesman-server"@,
    {
        let r = AuthService {
            users: Vec::new(),
            secret: String::from_str(secret),
            issuer: String::from_str("timesman-server"),
        };
        assert(r.users() =~= Seq::<UserV>::empty());
        r
    }

    /// The position of the user named `name`.
    fn find_user(&self, name: &str) -> (r: Option<usize>)
        ensures
            r matches Some(i) ==> user_at(self.users(), name@, i as int),
            r is None <==> !has_user(self.users(), name@),
    {
        let mut i: usize = 0;
        while i < self.users.len()
            invariant
                i <= self.users@.len(),
                forall|k: int| 0 <= k < i ==> #[trigger] self.users@[k].username@ != name@,
            decreases self.users@.len() - i,
        {
            if str_equal(self.users[i].username.as_str(), name) {
                assert(self.users()[i as int].username == name@);
                return Some(i);
            }
            i = i + 1;
        }
        proof {
            if has_user(self.users(), name@) {
                let k = choose|k: int| 0 <= k < self.users().len() && #[trigger] self.users()[k].username == name@;
                assert(self.users@[k].username@ == name@);
            }
        }
        None
    }

    /// A token for `user`, issued at the point `now` and valid for 24
    /// hours after it.
    fn generate_token(&self, user: &User, now: DateTime) -> (r: Result<String, AuthError>)
        ensures
            r is Ok,
            r matches Ok(t) ==> jwt_signed(t@, self.secret()) && t@.len() > 0,
            r matches Ok(t) ==> token_issued_at(t@, user@, self.issuer(), self.secret(), now.spec_secs()),
            r matches Ok(t) ==> exists|iat: i64| t@ == #[trigger] jwt_encoded(uuid_text(user.id), user.username@,
                role_text(user.role), (iat + token_lifetime()) as u64, iat as u64, self.issuer(), self.secret())
                && jwt_payload(t@) == claims_entries(uuid_text(user.id), user.username@, role_text(user.role),
                    (iat + token_lifetime()) as u64, iat as u64, self.issuer()),
    {
        let now = now.secs();
        let exp = now + 24 * 3600;
        let sub = uuid_string(user.id);
        match jwt_encode(sub.as_str(), user.username.as_str(), role_name(user.role), exp as u64, now as u64, self.issuer.as_str(), self.secret.as_str()) {
            Ok(t) => {
                assert(exp == now + token_lifetime());
                assert(t@ == jwt_encoded(uuid_text(user.id), user.username@, role_text(user.role),
                    (now + token_lifetime()) as u64, now as u64, self.issuer(), self.secret()));
                assert(jwt_payload(t@) == claims_entries(uuid_text(user.id), user.username@, role_text(user.role),
                    (now + token_lifetime()) as u64, now as u64, self.issuer()));
                Ok(t)
            },
            Err(e) => Err(AuthError::InternalError(concat("Failed to generate token: ", e.as_str()))),
        }
    }

    /// The hash of a password.
    fn hash_password(&self, password: &str) -> (r: Result<String, AuthError>)
        ensures
            password@.len() < 0x4000_0000 ==> r is Ok,
            r matches Ok(h) ==> argon2_check(password@, h@) == Some(true),
            r matches Err(e) ==> e is InternalError,
    {
        match argon2_hash(password) {
            Ok(h) => Ok(h),
            Err(e) => Err(AuthError::InternalError(concat("Failed to hash password: ", e.as_str()))),
        }
    }

    /// Registers a user with the role `User`; refused when the name is taken.
    pub fn register(&mut self, request: RegisterRequest) -> (r: Result<AuthResponse, AuthError>)
        requires
            old(self).wf(),
        ensures
            final(self).wf(),
            final(self).secret() == old(self).secret(),
            final(self).issuer() == old(self).issuer(),
            has_user(old(self).users(), request.username@) ==> r == Err::<AuthResponse, AuthError>(AuthError::UserAlreadyExists)
                && final(self).users() == old(self).users(),
            !has_user(old(self).users(), request.username@) && request.password@.len() < 0x4000_0000 ==> r is Ok,
            !has_user(old(self).users(), request.username@) ==> match r {
                Ok(resp) => exists|u: UserV| registered(old(self).users(), final(self).users(), request.username@, request.email@, request.password@, UserRole::User, u)
                    && #[trigger] grants(resp, u, old(self).issuer(), old(self).secret())
                    && exists|now: DateTime| grants_at(resp, u, old(self).issuer(), old(self).secret(), #[trigger] now.spec_secs()),
                Err(e) => e is InternalError && final(self).users() == old(self).users(),
            },
    {
        if self.find_user(request.username.as_str()).is_some() {
            return Err(AuthError::UserAlreadyExists);
        }
        let password_hash = match self.hash_password(request.password.as_str()) {
            Ok(h) => h,
            Err(e) => return Err(e),
        };
        let user = User {
            id: new_user_id(),
            username: request.username.clone(),
            email: request.email.clone(),
            password_hash,
            role: UserRole::User,
            created_at: utc_now(),
            updated_at: None,
            is_active: true,
        };
        let ghost u = user@;
        self.insert_user(user.duplicate());
        assert(registered(old(self).users(), self.users(), request.username@, request.email@, request.password@, UserRole::User, u));
        let now = utc_now();
        let token = match self.generate_token(&user, now) {
            Ok(t) => t,
            Err(e) => return Err(e),
        };
        let resp = AuthResponse {
            access_token: token,
            token_type: String::from_str("Bearer"),
            expires_in: 24 * 3600,
            user: UserInfo { id: user.id, username: user.username, email: user.email, role: user.role },
        };
        assert(grants(resp, u, old(self).issuer(), old(self).secret()));
        Ok(resp)
    }

    /// Adds a user whose name is free.
    fn insert_user(&mut self, user: User)
        requires
            old(self).wf(),
            !has_user(old(self).users(), user.username@),
        ensures
            final(self).wf(),
            final(self).users() == old(self).users().push(user@),
            final(self).secret() == old(self).secret(),
            final(self).issuer() == old(self).issuer(),
    {
        self.users.push(user);
        proof {
            assert(self.users() =~= old(self).users().push(user@));
            assert forall|i: int, j: int| 0 <= i < self.users().len() && 0 <= j < self.users().len() && i != j
                implies #[trigger] self.users()[i].username != #[trigger] self.users()[j].username by {
                if i == old(self).users().len() {
                    assert(old(self).users()[j].username == self.users()[j].username);
                } else if j == old(self).users().len() {
                    assert(old(self).users()[i].username == self.users()[i].username);
                }
            }
        }
    }

    /// Logs a user in with a password.
    pub fn login(&self, request: LoginRequest) -> (r: Result<AuthResponse, AuthError>)
        requires
            self.wf(),
        ensures
            !has_user(self.users(), request.username@) ==> r == Err::<AuthResponse, AuthError>(AuthError::InvalidCredentials),
            forall|i: int| #[trigger] user_at(self.users(), request.username@, i) ==> {
                let u = self.users()[i];
                if !u.is_active {
                    r == Err::<AuthResponse, AuthError>(AuthError::InvalidCredentials)
                } else {
                    match argon2_check(request.password@, u.password_hash) {
                        None => r matches Err(e) && e is InternalError,
                        Some(false) => r == Err::<AuthResponse, AuthError>(AuthError::InvalidCredentials),
                        Some(true) => r matches Ok(resp) && grants(resp, u, self.issuer(), self.secret())
                            && exists|now: DateTime| grants_at(resp, u, self.issuer(), self.secret(), #[trigger] now.spec_secs()),
                    }
                }
            },
    {
        let i = match self.find_user(request.username.as_str()) {
            Some(i) => i,
            None => return Err(AuthError::InvalidCredentials),
        };
        proof {
            assert forall|k: int| #[trigger] user_at(self.users(), request.username@, k) implies k == i by {
                if k != i {
                    assert(self.users()[k].username != self.users()[i as int].username);
                }
            }
        }
        let user = &self.users[i];
        assert(self.users()[i as int] == user@);
        if !user.is_active {
            return Err(AuthError::InvalidCredentials);
        }
        let ok = match self.verify_password(request.password.as_str(), user.password_hash.as_str()) {
            Ok(b) => b,
            Err(e) => return Err(e),
        };
        if !ok {
            return Err(AuthError::InvalidCredentials);
        }
        let now = utc_now();
        let token = match self.generate_token(user, now) {
            Ok(t) => t,
            Err(e) => return Err(e),
        };
        Ok(AuthResponse {
            access_token: token,
            token_type: String::from_str("Bearer"),
            expires_in: 24 * 3600,
            user: UserInfo {
                id: user.id,
                username: user.username.clone(),
                email: user.email.clone(),
                role: user.role,
            },
        })
    }

    /// The claims of an access token that this service signed and whose
    /// expiry has not passed.  A token not signed under the service's
    /// secret, or whose claims object lacks a claim, is invalid; claims
    /// given back are those the token carries, issued by this service.
    /// Whether a signed token is accepted also depends on the clock, which
    /// jsonwebtoken reads too.
    pub fn validate_token(&self, token: &str) -> (r: Result<Claims, AuthError>)
        ensures
            !jwt_signed(token@, self.secret()) ==> r == Err::<Claims, AuthError>(AuthError::InvalidToken),
            !payload_complete(jwt_payload(token@)) ==> r == Err::<Claims, AuthError>(AuthError::InvalidToken),
            r is Ok ==> jwt_signed(token@, self.secret()),
            r matches Ok(c) ==> claims_of_payload(jwt_payload(token@), c) && c.iss@ == self.issuer(),
            r matches Err(e) ==> e is InvalidToken || e is TokenExpired,
            r == Err::<Claims, AuthError>(AuthError::TokenExpired) ==> jwt_signed(token@, self.secret())
                && payload_complete(jwt_payload(token@)),
    {
        let decoded = jwt_decode(token, self.secret.as_str(), self.issuer.as_str());
        let now = utc_now().secs();
        claims_from_decoded(decoded, now)
    }

    /// The user with identifier `user_id`.
    pub fn get_user_by_id(&self, user_id: &UserId) -> (r: Result<User, AuthError>)
        ensures
            r matches Ok(u) ==> exists|i: int| 0 <= i < self.users().len() && #[trigger] self.users()[i] == u@
                && u.id == *user_id,
            r is Err ==> r == Err::<User, AuthError>(AuthError::UserNotFound)
                && forall|i: int| 0 <= i < self.users().len() ==> #[trigger] self.users()[i].id != *user_id,
    {
        let mut i: usize = 0;
        while i < self.users.len()
            invariant
                i <= self.users@.len(),
                forall|k: int| 0 <= k < i ==> #[trigger] self.users@[k].id != *user_id,
            decreases self.users@.len() - i,
        {
            if self.users[i].id == *user_id {
                let u = self.users[i].duplicate();
                assert(self.users()[i as int] == u@);
                return Ok(u);
            }
            i = i + 1;
        }
        proof {
            assert forall|k: int| 0 <= k < self.users().len() implies #[trigger] self.users()[k].id != *user_id by {
                assert(self.users()[k].id == self.users@[k].id);
            }
        }
        Err(AuthError::UserNotFound)
    }

    /// Registers an administrator; refused when the name is taken.
    pub fn create_admin_user(&mut self, username: &str, email: &str, password: &str) -> (r: Result<(), AuthError>)
        requires
            old(self).wf(),
        ensures
            final(self).wf(),
            final(self).secret() == old(self).secret(),
            final(self).issuer() == old(self).issuer(),
            has_user(old(self).users(), username@) ==> r == Err::<(), AuthError>(AuthError::UserAlreadyExists)
                && final(self).users() == old(self).users(),
            !has_user(old(self).users(), username@) && password@.len() < 0x4000_0000 ==> r is Ok,
            !has_user(old(self).users(), username@) ==> match r {
                Ok(_) => exists|u: UserV| #[trigger] registered(old(self).users(), final(self).users(),
                    username@, email@, password@, UserRole::Admin, u),
                Err(e) => e is InternalError && final(self).users() == old(self).users(),
            },
    {
        if self.find_user(username).is_some() {
            return Err(AuthError::UserAlreadyExists);
        }
        let password_hash = match self.hash_password(password) {
            Ok(h) => h,
            Err(e) => return Err(e),
        };
        let user = User {
            id: new_user_id(),
            username: String::from_str(username),
            email: String::from_str(email),
            password_hash,
            role: UserRole::Admin,
            created_at: utc_now(),
            updated_at: None,
            is_active: true,
        };
        let ghost u = user@;
        self.insert_user(user);
        assert(registered(old(self).users(), self.users(), username@, email@, password@, UserRole::Admin, u));
        Ok(())
    }

    /// Whether `password` matches the hash.
    fn verify_password(&self, password: &str, hash: &str) -> (r: Result<bool, AuthError>)
        ensures
            r matches Ok(b) ==> argon2_check(password@, hash@) == Some(b),
            r matches Err(e) ==> e is InternalError && argon2_check(password@, hash@) is None,
    {
        match argon2_verify(password, hash) {
            Ok(b) => Ok(b),
            Err(e) => Err(AuthError::InternalError(concat("Failed to parse password hash: ", e.as_str()))),
        }
    }
}

} // verus!
