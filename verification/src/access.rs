//! Who may see which payslip: finding a request's access token, and turning
//! a signed-in user's request into the payslip the service looks up.

use vstd::prelude::*;

use crate::error::AppError;
use crate::links::{extract_token_from_query, query_token};
use crate::model::{AdminPayslipQuery, PayslipQuery, UserRole};
use crate::text::{chars_of, string_from_chars};
use crate::token::{jwt_hs256_claims, require_admin, verify_token, Claims};

verus! {

/// The characters of an optional text.
pub open spec fn text_of(o: Option<&str>) -> Option<Seq<char>> {
    match o {
        Some(s) => Some(s@),
        None => None,
    }
}

/// The token of an `Authorization` header of the form `Bearer <token>`.
pub open spec fn bearer_token(header: Seq<char>) -> Option<Seq<char>> {
    if header.len() >= 7 && header.take(7) == seq!['B', 'e', 'a', 'r', 'e', 'r', ' '] {
        Some(header.skip(7))
    } else {
        None
    }
}

/// The token of a request: from an `Authorization: Bearer` header where
/// there is one, else from the `token` pair of the query string.
pub open spec fn request_token(header: Option<Seq<char>>, query: Option<Seq<char>>) -> Option<Seq<char>> {
    match header {
        Some(h) if bearer_token(h) is Some => bearer_token(h),
        _ => match query {
            Some(q) => query_token(q),
            None => None,
        },
    }
}

/// The token of an `Authorization` header value, if it is a bearer token.
pub fn strip_bearer(header: &str) -> (r: Option<String>)
    ensures
        r matches Some(t) ==> bearer_token(header@) == Some(t@),
        r is None ==> bearer_token(header@) is None,
{
    let c = chars_of(header);
    if c.len() >= 7 && c[0] == 'B' && c[1] == 'e' && c[2] == 'a' && c[3] == 'r' && c[4] == 'e'
        && c[5] == 'r' && c[6] == ' ' {
        proof {
            assert(header@.take(7) =~= seq!['B', 'e', 'a', 'r', 'e', 'r', ' ']);
            assert(header@.skip(7) =~= c@.subrange(7, c@.len() as int));
        }
        Some(string_from_chars(&c, 7, c.len()))
    } else {
        proof {
            if header@.len() >= 7 && header@.take(7) == seq!['B', 'e', 'a', 'r', 'e', 'r', ' '] {
                assert(header@.take(7)[0] == c@[0]);
                assert(header@.take(7)[1] == c@[1]);
                assert(header@.take(7)[2] == c@[2]);
                assert(header@.take(7)[3] == c@[3]);
                assert(header@.take(7)[4] == c@[4]);
                assert(header@.take(7)[5] == c@[5]);
                assert(header@.take(7)[6] == c@[6]);
            }
        }
        None
    }
}

/// Finds the access token of a request, given the text of its
/// `Authorization` header and its query string where it has them: a bearer
/// header wins over the query string; a request with neither is
/// unauthorized.
pub fn token_of_request(authorization: Option<&str>, query: Option<&str>) -> (r: Result<String, AppError>)
    ensures
        r matches Ok(t) ==> request_token(text_of(authorization), text_of(query)) == Some(t@),
        r matches Err(e) ==> request_token(text_of(authorization), text_of(query)) is None
            && e is Unauthorized,
{
    if let Some(h) = authorization {
        if let Some(t) = strip_bearer(h) {
            return Ok(t);
        }
    }
    match query {
        Some(q) => match extract_token_from_query(q) {
            Some(t) => Ok(t),
            None => Err(AppError::Unauthorized),
        },
        None => Err(AppError::Unauthorized),
    }
}

/// Authenticates a request: finds its token and checks it with the secret,
/// giving the JSON text of the token's claims: the text that the request's
/// token decodes to with the secret. A request without a token, or whose
/// token does not decode with the secret or is not accepted, is
/// unauthorized.
pub fn authenticate(secret: &str, authorization: Option<&str>, query: Option<&str>) -> (r: Result<String, AppError>)
    ensures
        r matches Ok(c) ==> request_token(text_of(authorization), text_of(query)) matches Some(t)
            && jwt_hs256_claims(secret@, t) == Some(c@),
        request_token(text_of(authorization), text_of(query)) matches Some(t) ==> (jwt_hs256_claims(
            secret@,
            t,
        ) is None ==> r is Err),
        request_token(text_of(authorization), text_of(query)) is None ==> r is Err,
        r matches Err(e) ==> e is Unauthorized,
{
    let token = token_of_request(authorization, query)?;
    verify_token(secret, token.as_str())
}

/// The payslip that the service looks up: whose, and for which month.
#[derive(Clone, Copy, Debug, PartialEq, Eq, Structural)]
pub struct PayslipLookup {
    pub employee_id: u128,
    pub year: i32,
    pub month: i32,
}

/// The payslip an employee asks for: always their own, whatever the query.
pub fn employee_payslip_lookup(claims: &Claims, q: &PayslipQuery) -> (l: PayslipLookup)
    ensures
        l.employee_id == claims.sub,
        l.year == q.year,
        l.month == q.month,
{
    PayslipLookup { employee_id: claims.sub, year: q.year, month: q.month }
}

/// The payslip an administrator asks for: any employee's, and only for
/// administrators; everyone else is forbidden.
pub fn admin_payslip_lookup(claims: &Claims, q: &AdminPayslipQuery) -> (r: Result<PayslipLookup, AppError>)
    ensures
        r is Ok <==> claims.role == UserRole::Admin,
        r matches Ok(l) ==> l.employee_id == q.employee_id && l.year == q.year && l.month == q.month,
        r matches Err(e) ==> e is Forbidden,
{
    require_admin(claims)?;
    Ok(PayslipLookup { employee_id: q.employee_id, year: q.year, month: q.month })
}

} // verus!
