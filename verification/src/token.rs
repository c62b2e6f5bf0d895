//! Access tokens: the claims they carry, the JSON text those claims are
//! signed as, and the signing and checking of HS256 tokens.

use vstd::prelude::*;

use crate::error::AppError;
use crate::model::{role_name, UserRole};
use crate::text::{nat_digits, owned, push_nat_digits};

verus! {

/// What an access token says of its holder: the user's id (the 128-bit
/// value of their UUID), email address and role, and the Unix time in
/// seconds after which the token is no longer accepted.
#[derive(Clone, Debug)]
pub struct Claims {
    pub sub: u128,
    pub email: String,
    pub role: UserRole,
    pub exp: usize,
}

/// How long an access token lasts: 24 hours, in seconds.
pub open spec fn token_lifetime() -> int {
    86400
}

/// The lowercase hexadecimal digit for a value below sixteen.
pub open spec fn hex_digit(d: int) -> char {
    if d < 10 {
        (48 + d) as char
    } else {
        (87 + d) as char
    }
}

/// The last `count` hexadecimal digits of `n`, most significant first.
pub open spec fn hex_digits(n: nat, count: nat) -> Seq<char>
    decreases count,
{
    if count == 0 {
        Seq::empty()
    } else {
        hex_digits(n / 16, (count - 1) as nat).push(hex_digit((n % 16) as int))
    }
}


/// The hyphenated lowercase text of a UUID, as its JSON form writes it:
/// 8-4-4-4-12 hexadecimal digits.
pub open spec fn uuid_text(id: u128) -> Seq<char> {
    let h = hex_digits(id as nat, 32);
    h.subrange(0, 8) + seq!['-'] + h.subrange(8, 12) + seq!['-'] + h.subrange(12, 16) + seq!['-']
        + h.subrange(16, 20) + seq!['-'] + h.subrange(20, 32)
}

/// The hyphenated lowercase text of the UUID with value `id`, from the
/// `uuid` crate's `Uuid::from_u128(id).hyphenated()`, which writes the 32
/// lowercase hexadecimal digits of the value in groups of 8-4-4-4-12.
#[verifier::external_body]
fn uuid_hyphenated(id: u128) -> (s: String)
    ensures
        s@ == uuid_text(id),
{
    uuid::Uuid::from_u128(id).hyphenated().to_string()
}

/// How `serde_json` writes a character inside a JSON string: `"` and `\`
/// escaped by a backslash; backspace, tab, line feed, form feed and carriage
/// return as `\b`, `\t`, `\n`, `\f`, `\r`; every other character below
/// 0x20 as `\u00` and two lowercase hexadecimal digits; every other
/// character as itself.
pub open spec fn json_escape_char(c: char) -> Seq<char> {
    let x = c as u32;
    if x == 0x22 {
        seq!['\\', '"']
    } else if x == 0x5C {
        seq!['\\', '\\']
    } else if x == 0x08 {
        seq!['\\', 'b']
    } else if x == 0x09 {
        seq!['\\', 't']
    } else if x == 0x0A {
        seq!['\\', 'n']
    } else if x == 0x0C {
        seq!['\\', 'f']
    } else if x == 0x0D {
        seq!['\\', 'r']
    } else if x < 0x20 {
        seq!['\\', 'u', '0', '0', hex_digit((x / 16) as int), hex_digit((x % 16) as int)]
    } else {
        seq![c]
    }
}

/// The escaped characters of a JSON string.
pub open spec fn json_escape(s: Seq<char>) -> Seq<char>
    decreases s.len(),
{
    if s.len() == 0 {
        Seq::empty()
    } else {
        json_escape(s.drop_last()) + json_escape_char(s.last())
    }
}

/// The JSON string literal that `serde_json::to_string` writes for a text:
/// the escaped text in quotes.
pub open spec fn json_string(s: Seq<char>) -> Seq<char> {
    seq!['"'] + json_escape(s) + seq!['"']
}

/// `serde_json::to_string` of a text: the JSON string literal that
/// `json_string` spells out (serde_json's `format_escaped_str`).
/// Serializing a `str` into memory does not fail.
#[verifier::external_body]
fn json_string_literal(s: &str) -> (r: Option<String>)
    ensures
        r is Some,
        r matches Some(t) ==> t@ == json_string(s@),
{
    serde_json::to_string(s).ok()
}

/// The JSON text that the claims are signed as: an object with the fields
/// `sub` (the hyphenated UUID), `email`, `role` and `exp` in this order,
/// without spaces.
pub open spec fn claims_text(sub: u128, email: Seq<char>, role: UserRole, exp: nat) -> Seq<char> {
    "{\"sub\":\""@ + uuid_text(sub) + "\",\"email\":"@ + json_string(email) + ",\"role\":\""@
        + role_name(role) + "\",\"exp\":"@ + nat_digits(exp) + "}"@
}

/// Whether a text is the JSON text of claims whose expiry fits in 64 bits.
pub open spec fn is_claims_text(s: Seq<char>) -> bool {
    exists|sub: u128, email: Seq<char>, role: UserRole, exp: nat|
        exp <= u64::MAX && s == #[trigger] claims_text(sub, email, role, exp)
}

/// The JSON text of the claims, exactly as they are signed.
pub fn claims_json(c: &Claims) -> (s: String)
    ensures
        s@ == claims_text(c.sub, c.email@, c.role, c.exp as nat),
{
    let mut s = owned("{\"sub\":\"");
    s.append(uuid_hyphenated(c.sub).as_str());
    s.append("\",\"email\":");
    match json_string_literal(c.email.as_str()) {
        Some(e) => s.append(e.as_str()),
        None => {},
    }
    s.append(",\"role\":\"");
    s.append(c.role.name());
    s.append("\",\"exp\":");
    push_nat_digits(&mut s, c.exp as u64);
    s.append("}");
    proof {
        assert(s@ =~= claims_text(c.sub, c.email@, c.role, c.exp as nat));
    }
    s
}

/// The HS256 token that `jsonwebtoken::encode` makes from the default
/// header (`{"typ":"JWT","alg":"HS256"}`), the claims given as JSON text and
/// the key made from the secret's bytes; `None` where it reports an error.
pub uninterp spec fn jwt_hs256(secret: Seq<char>, claims_json: Seq<char>) -> Option<Seq<char>>;

/// The claims text that `jsonwebtoken::decode` gives back for a token,
/// with the key made from the secret's bytes and `Validation::default()`
/// with its expiry check switched off (`validate_exp` false): `Some` where
/// the token is three base64url parts whose header names HS256, whose
/// HMAC-SHA256 signature under that key is right, and whose claims are a
/// JSON value with an `exp` number and no `aud` claim, the text of that
/// value as `serde_json::value::RawValue` keeps it; `None` otherwise. It
/// depends on the secret and the token alone.
pub uninterp spec fn jwt_hs256_claims(secret: Seq<char>, token: Seq<char>) -> Option<Seq<char>>;

/// Signs JSON claims with `jsonwebtoken::encode`: the claims text is handed
/// over unchanged (as a `serde_json::value::RawValue`, which serializes to
/// exactly its text) together with the default header and
/// `EncodingKey::from_secret` of the secret's bytes. The result is named by
/// `jwt_hs256`, a function of the secret and the claims text alone: HMAC
/// signing draws on no clock and no randomness. A token made from the
/// claims text of `claims_text` (which starts with `{`, ends with `}`, has
/// a 64-bit `exp` and no `aud`) decodes with the same secret to that text.
/// Such a text is valid JSON, so `RawValue` takes it; the default header
/// names HS256, whose family matches the key's, and HMAC signing does not
/// fail, so signing it succeeds.
#[verifier::external_body]
fn sign_hs256(secret: &str, claims_json: &str) -> (token: Option<String>)
    ensures
        token matches Some(t) ==> jwt_hs256(secret@, claims_json@) == Some(t@),
        token is None ==> jwt_hs256(secret@, claims_json@) is None,
        token matches Some(t) ==> (is_claims_text(claims_json@) ==> jwt_hs256_claims(secret@, t@)
            == Some(claims_json@)),
        is_claims_text(claims_json@) ==> token is Some,
{
    let raw = serde_json::value::RawValue::from_string(claims_json.to_owned()).ok()?;
    let key = jsonwebtoken::EncodingKey::from_secret(secret.as_bytes());
    jsonwebtoken::encode(&jsonwebtoken::Header::default(), &raw, &key).ok()
}

/// Decodes a token with `jsonwebtoken::decode`, the key made from the
/// secret's bytes and `Validation::default()` with its expiry check
/// switched off, and gives the JSON text of its claims. With no clock
/// involved, the result is named by `jwt_hs256_claims`.
#[verifier::external_body]
fn decode_hs256(secret: &str, token: &str) -> (claims_json: Option<String>)
    ensures
        claims_json matches Some(c) ==> jwt_hs256_claims(secret@, token@) == Some(c@),
        claims_json is None ==> jwt_hs256_claims(secret@, token@) is None,
{
    let key = jsonwebtoken::DecodingKey::from_secret(secret.as_bytes());
    let mut validation = jsonwebtoken::Validation::default();
    validation.validate_exp = false;
    match jsonwebtoken::decode::<Box<serde_json::value::RawValue>>(token, &key, &validation) {
        Ok(data) => Some(data.claims.get().to_owned()),
        Err(_) => None,
    }
}

/// Checks a token with `jsonwebtoken::decode` under `Validation::default()`
/// (as `decode_hs256`, and besides the `exp` claim checked against the
/// current time with 60 seconds of leeway) and the key made from the
/// secret's bytes. Whether it accepts the token is not stated of every
/// token: that depends on the clock. It accepts only tokens that
/// `decode_hs256` accepts, since the expiry check is its only other step.
#[verifier::external_body]
fn check_hs256(secret: &str, token: &str) -> (accepted: bool)
    ensures
        accepted ==> jwt_hs256_claims(secret@, token@) is Some,
{
    let key = jsonwebtoken::DecodingKey::from_secret(secret.as_bytes());
    let validation = jsonwebtoken::Validation::default();
    jsonwebtoken::decode::<Box<serde_json::value::RawValue>>(token, &key, &validation).is_ok()
}

/// The current Unix time in seconds, read with `chrono::Utc::now`. Which
/// time it is is not stated: it is the clock. `Utc::now` panics for a
/// system time before 1970 and builds a `DateTime`, whose latest second is
/// in the year 262142, so every time it gives is at least 0 and far below
/// `i64::MAX - 86400`.
#[verifier::external_body]
fn unix_now() -> (secs: i64)
    ensures
        0 <= secs <= i64::MAX - 86400,
{
    chrono::Utc::now().timestamp()
}

/// The claims text of the token that a user receives at Unix time `now`.
pub open spec fn issued_claims(user_id: u128, email: Seq<char>, role: UserRole, now: int) -> Seq<char> {
    claims_text(user_id, email, role, ((now + token_lifetime()) as usize) as nat)
}

/// Issues the access token of a user at Unix time `now` (seconds): its
/// claims name the user, their email address and role, and expire 24 hours
/// later; they are signed as their JSON text with the secret, and the token
/// decodes with the same secret to exactly that text. A time so late that
/// the expiry would not fit in an `i64` is an internal error; every other
/// time gives a token.
pub fn create_token_at(secret: &str, user_id: u128, email: &str, role: UserRole, now: i64) -> (r: Result<String, AppError>)
    ensures
        r is Ok <==> now <= i64::MAX - 86400,
        r matches Ok(t) ==> jwt_hs256(secret@, issued_claims(user_id, email@, role, now as int)) == Some(t@),
        r matches Ok(t) ==> jwt_hs256_claims(secret@, t@) == Some(issued_claims(user_id, email@, role, now as int)),
        r matches Err(e) ==> e is Internal,
{
    if now > i64::MAX - 86400 {
        return Err(AppError::internal("the time is out of range"));
    }
    let claims = Claims { sub: user_id, email: owned(email), role, exp: (now + 86400) as usize };
    let text = claims_json(&claims);
    proof {
        assert(is_claims_text(text@)) by {
            assert((claims.exp as nat) <= u64::MAX);
            assert(text@ == claims_text(claims.sub, claims.email@, claims.role, claims.exp as nat));
        }
    }
    match sign_hs256(secret, text.as_str()) {
        Some(t) => Ok(t),
        None => Err(AppError::internal("failed to sign the access token")),
    }
}

/// Issues the access token of a user now, by the system clock; see
/// `create_token_at`. It always succeeds, at the time the clock reads.
pub fn create_token(secret: &str, user_id: u128, email: &str, role: UserRole) -> (r: Result<String, AppError>)
    ensures
        r is Ok,
        r matches Ok(t) ==> exists|now: int|
            0 <= now <= i64::MAX - 86400 && jwt_hs256(secret@, #[trigger] issued_claims(user_id, email@, role, now))
                == Some(t@) && jwt_hs256_claims(secret@, t@) == Some(issued_claims(user_id, email@, role, now)),
{
    let now = unix_now();
    create_token_at(secret, user_id, email, role, now)
}

/// The JSON text of a token's claims where the token is signed with the
/// secret as an HS256 token with an expiry and has not expired by the
/// system clock; the request is unauthorized otherwise. A token that does
/// not decode with the secret is always refused; of the others, the clock
/// decides, and the text given back is the one they decode to.
pub fn verify_token(secret: &str, token: &str) -> (r: Result<String, AppError>)
    ensures
        r matches Ok(c) ==> jwt_hs256_claims(secret@, token@) == Some(c@),
        jwt_hs256_claims(secret@, token@) is None ==> r is Err,
        r matches Err(e) ==> e is Unauthorized,
{
    let claims = match decode_hs256(secret, token) {
        Some(c) => c,
        None => return Err(AppError::Unauthorized),
    };
    if check_hs256(secret, token) {
        Ok(claims)
    } else {
        Err(AppError::Unauthorized)
    }
}

/// Lets only administrators through.
pub fn require_admin(c: &Claims) -> (r: Result<(), AppError>)
    ensures
        r is Ok <==> c.role == UserRole::Admin,
        r matches Err(e) ==> e is Forbidden,
{
    if c.role != UserRole::Admin {
        Err(AppError::Forbidden)
    } else {
        Ok(())
    }
}

} // verus!
