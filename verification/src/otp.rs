//! One-time passwords: how they are made, issued, checked and spent, and
//! the sign-in steps around them.

use vstd::prelude::*;

use rand::Rng;

use crate::error::AppError;
use crate::model::{role_name, UserRole};
use crate::text::{
    int_decimal, is_digit, nat_digits, owned, push_int_decimal, push_zero_padded, same_text,
    string_from_chars, trim, trim_chars, zero_padded,
};

verus! {

/// A uniformly drawn number in `lo..=hi`, from `rand::rng().random_range`
/// (which panics on an empty range).
#[verifier::external_body]
fn random_in(lo: u32, hi: u32) -> (n: u32)
    requires
        lo <= hi,
    ensures
        lo <= n <= hi,
{
    rand::rng().random_range(lo..=hi)
}

/// The text of a one-time password: the number with six digits, zero-padded.
pub fn format_otp(n: u32) -> (s: String)
    requires
        n <= 999999,
    ensures
        s@ == zero_padded(n as nat, 6),
{
    let mut s = String::new();
    push_zero_padded(&mut s, n as u64, 6);
    s
}

/// A fresh one-time password: a random number in `0..=999999`, written
/// with six decimal digits.
pub fn generate_otp() -> (s: String)
    ensures
        exists|n: nat| n <= 999999 && s@ == #[trigger] zero_padded(n, 6),
        s@.len() == 6,
        forall|i: int| 0 <= i < 6 ==> is_digit(#[trigger] s@[i]),
{
    let n = random_in(0, 999999);
    let s = format_otp(n);
    proof {
        lemma_otp_text(n as nat);
    }
    s
}

proof fn lemma_nat_digits_len(n: nat, bound: nat, len: nat)
    requires
        n < bound,
        len >= 1,
        bound == vstd::arithmetic::power::pow(10, len),
    ensures
        nat_digits(n).len() <= len,
    decreases len,
{
    vstd::arithmetic::power::lemma_pow_positive(10, len);
    if n >= 10 {
        assert(len >= 2) by {
            if len == 1 {
                vstd::arithmetic::power::lemma_pow1(10);
            }
        }
        vstd::arithmetic::power::lemma_pow_adds(10, (len - 1) as nat, 1);
        vstd::arithmetic::power::lemma_pow1(10);
        let b = vstd::arithmetic::power::pow(10, (len - 1) as nat);
        assert(n / 10 < b) by (nonlinear_arith)
            requires
                n < b * 10,
                b > 0,
        ;
        lemma_nat_digits_len(n / 10, b as nat, (len - 1) as nat);
    }
}

/// A number below a million, zero-padded to six, is six digits.
pub proof fn lemma_otp_text(n: nat)
    requires
        n <= 999999,
    ensures
        zero_padded(n, 6).len() == 6,
        forall|i: int| 0 <= i < 6 ==> is_digit(#[trigger] zero_padded(n, 6)[i]),
{
    crate::text::lemma_nat_digits_chars(n);
    assert(vstd::arithmetic::power::pow(10, 6) == 1000000) by {
        vstd::arithmetic::power::lemma_pow_adds(10, 3, 3);
        reveal_with_fuel(vstd::arithmetic::power::pow, 4);
    }
    lemma_nat_digits_len(n, 1000000, 6);
    let d = nat_digits(n);
    let z = zero_padded(n, 6);
    assert forall|i: int| 0 <= i < 6 implies is_digit(#[trigger] z[i]) by {
        if d.len() < 6 {
            let pad = 6 - d.len();
            if i >= pad {
                assert(z[i] == d[i - pad]);
            } else {
                assert(z[i] == '0');
            }
        }
    }
}

/// A one-time password as the service keeps it for a user: the password,
/// when it expires (Unix time in microseconds), and whether it was spent.
#[derive(Clone, Debug)]
pub struct OtpRecord {
    pub otp: String,
    pub expires_at: i64,
    pub used: bool,
}

/// Microseconds in a second.
pub open spec fn micros_per_sec() -> int {
    1_000_000
}

/// Whether a password issued at `now` (microseconds) with a lifetime of
/// `ttl_secs` seconds has an expiry that the service can represent.
pub open spec fn expiry_in_range(now: int, ttl_secs: int) -> bool {
    i64::MIN <= now + ttl_secs * micros_per_sec() <= i64::MAX
}

/// The stored password `otp` issued at `now` (microseconds) with a lifetime
/// of `ttl_secs` seconds: unspent, expiring `ttl_secs` seconds later.
pub open spec fn issued(otp: String, now: int, ttl_secs: int) -> OtpRecord {
    OtpRecord { otp, expires_at: (now + ttl_secs * micros_per_sec()) as i64, used: false }
}

/// Issues the one-time password `otp` at `now` (microseconds): it is unspent
/// and lasts `ttl_secs` seconds. A new password replaces the user's earlier
/// one, spent or not.
pub fn issue_otp(otp: String, now: i64, ttl_secs: i64) -> (r: OtpRecord)
    requires
        -9_223_372_036_854 <= ttl_secs <= 9_223_372_036_854,
        expiry_in_range(now as int, ttl_secs as int),
    ensures
        r == issued(otp, now as int, ttl_secs as int),
        r.expires_at == now + ttl_secs * micros_per_sec(),
{
    assert(i64::MIN <= ttl_secs * 1_000_000 <= i64::MAX) by (nonlinear_arith)
        requires
            -9_223_372_036_854 <= ttl_secs <= 9_223_372_036_854,
    ;
    OtpRecord { otp, expires_at: now + ttl_secs * 1_000_000, used: false }
}

/// Why a submitted one-time password is refused.
#[derive(Clone, Copy, Debug, PartialEq, Eq, Structural)]
pub enum OtpRefusal {
    /// No password was issued to this address.
    NotRequested,
    /// The password was already spent.
    AlreadyUsed,
    /// The password's lifetime is over.
    Expired,
    /// The submitted password is not the one issued.
    Mismatch,
}

/// Whether, and why, the service refuses `submitted` at `now` against the
/// user's stored password `record`; checked in this order.
pub open spec fn otp_refusal(record: Option<OtpRecord>, submitted: Seq<char>, now: int) -> Option<OtpRefusal> {
    match record {
        None => Some(OtpRefusal::NotRequested),
        Some(r) => if r.used {
            Some(OtpRefusal::AlreadyUsed)
        } else if now > r.expires_at {
            Some(OtpRefusal::Expired)
        } else if r.otp@ != submitted {
            Some(OtpRefusal::Mismatch)
        } else {
            None
        },
    }
}

/// The message with which each refusal is answered.
pub open spec fn refusal_message(why: OtpRefusal) -> Seq<char> {
    match why {
        OtpRefusal::NotRequested => "No OTP requested for this email"@,
        OtpRefusal::AlreadyUsed => "OTP already used"@,
        OtpRefusal::Expired => "OTP expired"@,
        OtpRefusal::Mismatch => "Invalid OTP"@,
    }
}

/// The error that answers a refusal.
pub fn refusal_error(why: OtpRefusal) -> (e: AppError)
    ensures
        e matches AppError::BadRequest(m) && m@ == refusal_message(why),
{
    match why {
        OtpRefusal::NotRequested => AppError::bad_request("No OTP requested for this email"),
        OtpRefusal::AlreadyUsed => AppError::bad_request("OTP already used"),
        OtpRefusal::Expired => AppError::bad_request("OTP expired"),
        OtpRefusal::Mismatch => AppError::bad_request("Invalid OTP"),
    }
}

/// Checks `submitted` at `now` against the user's stored password.
pub fn check_otp(record: Option<&OtpRecord>, submitted: &str, now: i64) -> (r: Result<(), OtpRefusal>)
    ensures
        r matches Ok(_) ==> otp_refusal(match record { Some(x) => Some(*x), None => None }, submitted@, now as int) is None,
        r matches Err(why) ==> otp_refusal(match record { Some(x) => Some(*x), None => None }, submitted@, now as int) == Some(why),
{
    match record {
        None => Err(OtpRefusal::NotRequested),
        Some(rec) => {
            if rec.used {
                Err(OtpRefusal::AlreadyUsed)
            } else if now > rec.expires_at {
                Err(OtpRefusal::Expired)
            } else if !same_text(rec.otp.as_str(), submitted) {
                Err(OtpRefusal::Mismatch)
            } else {
                Ok(())
            }
        },
    }
}

/// The stored password once it has been spent.
pub open spec fn spent(r: OtpRecord) -> OtpRecord {
    OtpRecord { used: true, ..r }
}

/// Spends the user's password with `submitted` at `now`: where the service
/// accepts it, it is marked spent; where it refuses it, it is unchanged and
/// the refusal is answered with its message.
pub fn redeem_otp(record: &mut OtpRecord, submitted: &str, now: i64) -> (r: Result<(), AppError>)
    ensures
        r is Ok <==> otp_refusal(Some(*old(record)), submitted@, now as int) is None,
        r is Ok ==> *final(record) == spent(*old(record)),
        r is Err ==> *final(record) == *old(record),
        r matches Err(e) ==> otp_refusal(Some(*old(record)), submitted@, now as int) matches Some(why)
            && e matches AppError::BadRequest(m) && m@ == refusal_message(why),
{
    match check_otp(Some(&*record), submitted, now) {
        Ok(()) => {
            record.used = true;
            Ok(())
        },
        Err(why) => Err(refusal_error(why)),
    }
}

/// A password the service has accepted once is refused ever after as spent,
/// whatever is submitted and whenever.
pub proof fn lemma_otp_single_use(r: OtpRecord, submitted: Seq<char>, now: int, again: Seq<char>, later: int)
    requires
        otp_refusal(Some(r), submitted, now) is None,
    ensures
        otp_refusal(Some(spent(r)), again, later) == Some(OtpRefusal::AlreadyUsed),
{
}

/// A freshly issued password is accepted for its whole lifetime, from the
/// moment it is issued to its expiry inclusive.
pub proof fn lemma_fresh_otp_accepted(otp: String, issued_at: int, ttl_secs: int, now: int)
    requires
        expiry_in_range(issued_at, ttl_secs),
        issued_at <= now <= issued_at + ttl_secs * micros_per_sec(),
    ensures
        otp_refusal(Some(issued(otp, issued_at, ttl_secs)), otp@, now) is None,
{
}

/// Issuing a new password makes it the one accepted: the earlier one, spent
/// or not, no longer counts, and a different text is refused.
pub proof fn lemma_reissue_replaces(earlier: OtpRecord, otp: String, issued_at: int, ttl_secs: int, other: Seq<char>)
    requires
        expiry_in_range(issued_at, ttl_secs),
        ttl_secs >= 0,
        other != otp@,
    ensures
        otp_refusal(Some(issued(otp, issued_at, ttl_secs)), otp@, issued_at) is None,
        otp_refusal(Some(issued(otp, issued_at, ttl_secs)), other, issued_at) == Some(OtpRefusal::Mismatch),
{
    assert(ttl_secs * micros_per_sec() >= 0) by (nonlinear_arith)
        requires
            ttl_secs >= 0,
    ;
}

/// After its lifetime a password that was never spent is refused as expired,
/// whatever is submitted.
pub proof fn lemma_otp_expires(r: OtpRecord, submitted: Seq<char>, now: int)
    requires
        !r.used,
        now > r.expires_at,
    ensures
        otp_refusal(Some(r), submitted, now) == Some(OtpRefusal::Expired),
{
}

/// Within its lifetime an unspent password refuses every other text.
pub proof fn lemma_wrong_otp_refused(r: OtpRecord, submitted: Seq<char>, now: int)
    requires
        !r.used,
        now <= r.expires_at,
        submitted != r.otp@,
    ensures
        otp_refusal(Some(r), submitted, now) == Some(OtpRefusal::Mismatch),
{
}

/// The lowercase form of a text, as `str::to_lowercase` gives it (full
/// Unicode case mapping).
pub uninterp spec fn lowercase(s: Seq<char>) -> Seq<char>;

/// `str::to_lowercase`: its result is named by `lowercase`, a function of
/// the text alone.
#[verifier::external_body]
fn to_lowercase(s: &str) -> (r: String)
    ensures
        r@ == lowercase(s@),
{
    s.to_lowercase()
}

/// The form in which an email address is looked up: without surrounding
/// whitespace, in lowercase.
pub open spec fn normalized_email(raw: Seq<char>) -> Seq<char> {
    lowercase(trim(raw))
}

/// Refuses an address that is empty once normalized.
pub fn require_email(email: String) -> (r: Result<String, AppError>)
    ensures
        r matches Ok(e) ==> e@ == email@ && e@.len() > 0,
        r is Err <==> email@.len() == 0,
        r matches Err(e) ==> e matches AppError::BadRequest(m) && m@ == "Email is required"@,
{
    if email.as_str().unicode_len() == 0 {
        return Err(AppError::bad_request("Email is required"));
    }
    Ok(email)
}

/// Normalizes the address that a user signs in with; an address that is
/// empty once normalized is refused.
pub fn normalize_email(raw: &str) -> (r: Result<String, AppError>)
    ensures
        r matches Ok(e) ==> e@ == normalized_email(raw@) && e@.len() > 0,
        r is Err <==> normalized_email(raw@).len() == 0,
        r matches Err(e) ==> e matches AppError::BadRequest(m) && m@ == "Email is required"@,
{
    let t = trim_chars(raw);
    let trimmed = string_from_chars(&t, 0, t.len());
    proof {
        assert(trimmed@ =~= trim(raw@));
    }
    require_email(to_lowercase(trimmed.as_str()))
}

/// The user that an address belongs to, where one is registered.
pub fn require_registered(user: Option<u128>) -> (r: Result<u128, AppError>)
    ensures
        r matches Ok(id) ==> user == Some(id),
        r is Err <==> user is None,
        r matches Err(e) ==> e matches AppError::BadRequest(m) && m@ == "Email not registered"@,
{
    match user {
        Some(id) => Ok(id),
        None => Err(AppError::bad_request("Email not registered")),
    }
}

/// Whole minutes that a lifetime of `ttl_secs` seconds is announced as:
/// `(ttl_secs + 59) / 60`, dividing towards zero.
pub open spec fn announced_minutes(ttl_secs: int) -> int {
    let t = ttl_secs + 59;
    if t >= 0 {
        t / 60
    } else {
        -((-t) / 60)
    }
}

/// Whole minutes that a password lifetime is announced as, rounded up for
/// positive lifetimes.
pub fn otp_valid_minutes(ttl_secs: i64) -> (m: i64)
    requires
        ttl_secs <= i64::MAX - 59,
    ensures
        m == announced_minutes(ttl_secs as int),
{
    let t = ttl_secs + 59;
    if t >= 0 {
        t / 60
    } else {
        let u = -(t + 1) + 1;
        -(u / 60)
    }
}

/// The subject of the mail that carries a one-time password.
pub fn otp_email_subject() -> (s: String)
    ensures
        s@ == "Your Payslip App OTP"@,
{
    owned("Your Payslip App OTP")
}

/// The HTML body of the mail that carries a one-time password.
pub open spec fn otp_email_text(otp: Seq<char>, minutes: int) -> Seq<char> {
    "<p>Your OTP is: <strong>"@ + otp + "</strong></p><p>Valid for "@ + int_decimal(minutes)
        + " minute(s).</p>"@
}

/// The HTML body of the mail that carries `otp`, valid for `ttl_secs` seconds.
pub fn otp_email_html(otp: &str, ttl_secs: i64) -> (s: String)
    requires
        ttl_secs <= i64::MAX - 59,
    ensures
        s@ == otp_email_text(otp@, announced_minutes(ttl_secs as int)),
{
    let minutes = otp_valid_minutes(ttl_secs);
    let mut s = owned("<p>Your OTP is: <strong>");
    s.append(otp);
    s.append("</strong></p><p>Valid for ");
    push_int_decimal(&mut s, minutes);
    s.append(" minute(s).</p>");
    proof {
        assert(s@ =~= otp_email_text(otp@, announced_minutes(ttl_secs as int)));
    }
    s
}

/// What the user is told once a password is issued: where mail is switched
/// off, that it was only logged.
pub fn otp_sent_message(smtp_skip: bool) -> (s: String)
    ensures
        smtp_skip ==> s@ == "OTP ready (dev mode: check server logs — email not sent)"@,
        !smtp_skip ==> s@ == "OTP sent to your email"@,
{
    if smtp_skip {
        owned("OTP ready (dev mode: check server logs — email not sent)")
    } else {
        owned("OTP sent to your email")
    }
}

/// The role stored for a user; a stored name other than `admin` or
/// `employee` is an internal error.
pub fn stored_role(name: &str) -> (r: Result<UserRole, AppError>)
    ensures
        r matches Ok(role) ==> role_name(role) == name@,
        r is Err <==> (name@ != role_name(UserRole::Admin) && name@ != role_name(UserRole::Employee)),
        r matches Err(e) ==> e is Internal,
{
    match UserRole::from_name(name) {
        Some(role) => Ok(role),
        None => Err(AppError::internal("Invalid role")),
    }
}

} // verus!
