//! What the web client decides on its own: checking what a user typed into
//! its forms, and where a user is sent.

use vstd::prelude::*;

use crate::model::{role_name, AuthResponse, CsvPreviewResponse, Session, UploadResponse, UserRole};
use crate::text::{
    chars_of, int_decimal, nat_digits, push_nat_digits, int_to_decimal, is_whitespace, lemma_decimal_roundtrip,
    lemma_int_decimal_chars, owned, parse_int, parse_int_in, same_text, trim, trim_chars, trim_end,
    trim_start, trim_str,
};

verus! {

/// Checks the address typed on the sign-in page: a blank one is refused with
/// a message.
pub fn login_email_error(email: &str) -> (r: Option<String>)
    ensures
        r is Some <==> trim(email@).len() == 0,
        r matches Some(m) ==> m@ == "Please enter your company email"@,
{
    let t = trim_chars(email);
    if t.len() == 0 {
        Some(owned("Please enter your company email"))
    } else {
        None
    }
}

/// The characters of a sequence of texts, one after another.
pub open spec fn joined(parts: Seq<String>) -> Seq<char>
    decreases parts.len(),
{
    if parts.len() == 0 {
        Seq::empty()
    } else {
        joined(parts.drop_last()) + parts.last()@
    }
}

/// The one-time password typed into the six boxes of the sign-in page: the
/// boxes' texts one after another; fewer than six characters in all are
/// refused with a message.
pub fn otp_from_boxes(boxes: &Vec<String>) -> (r: Result<String, String>)
    ensures
        r matches Ok(code) ==> code@ == joined(boxes@) && code@.len() >= 6,
        r is Err <==> joined(boxes@).len() < 6,
        r matches Err(m) ==> m@ == "Please enter all 6 digits"@,
{
    let mut code = String::new();
    let mut i: usize = 0;
    while i < boxes.len()
        invariant
            i <= boxes@.len(),
            code@ == joined(boxes@.subrange(0, i as int)),
        decreases boxes@.len() - i,
    {
        code.append(boxes[i].as_str());
        proof {
            let p = boxes@.subrange(0, i + 1);
            assert(p.drop_last() =~= boxes@.subrange(0, i as int));
        }
        i = i + 1;
    }
    proof {
        assert(boxes@.subrange(0, boxes@.len() as int) =~= boxes@);
    }
    if code.as_str().unicode_len() < 6 {
        Err(owned("Please enter all 6 digits"))
    } else {
        Ok(code)
    }
}

/// What one box of the password keeps of what was typed into it: its last
/// character, or nothing.
pub fn last_typed_char(value: &str) -> (r: String)
    ensures
        value@.len() == 0 ==> r@.len() == 0,
        value@.len() > 0 ==> r@ == seq![value@.last()],
{
    let c = chars_of(value);
    if c.len() == 0 {
        String::new()
    } else {
        let mut r = String::new();
        r.push(c[c.len() - 1]);
        r
    }
}

/// The year and month typed into a payslip form: each a whole number once
/// surrounding whitespace is gone, and the month between 1 and 12.
pub open spec fn period_of(year_text: Seq<char>, month_text: Seq<char>) -> Option<(int, int)> {
    match (parse_int(trim(year_text), i32::MIN as int, i32::MAX as int), parse_int(trim(month_text), i32::MIN as int, i32::MAX as int)) {
        (Some(y), Some(m)) => if 1 <= m <= 12 {
            Some((y, m))
        } else {
            None
        },
        _ => None,
    }
}

fn parse_period(year_text: &str, month_text: &str) -> (r: Option<(i32, i32)>)
    ensures
        r matches Some((y, m)) ==> period_of(year_text@, month_text@) == Some((y as int, m as int)),
        r is None ==> period_of(year_text@, month_text@) is None,
{
    let y = trim_str(year_text);
    let m = trim_str(month_text);
    let year = match parse_int_in(y.as_str(), i32::MIN as i64, i32::MAX as i64) {
        Some(v) => v,
        None => return None,
    };
    let month = match parse_int_in(m.as_str(), i32::MIN as i64, i32::MAX as i64) {
        Some(v) => v,
        None => return None,
    };
    if month < 1 || month > 12 {
        return None;
    }
    Some((year as i32, month as i32))
}

/// Checks the employee's payslip form: the period typed, or a message.
pub fn employee_form_period(year_text: &str, month_text: &str) -> (r: Result<(i32, i32), String>)
    ensures
        r matches Ok((y, m)) ==> period_of(year_text@, month_text@) == Some((y as int, m as int)),
        r is Err <==> period_of(year_text@, month_text@) is None,
        r matches Err(msg) ==> msg@ == "Please select Year and Month"@,
{
    match parse_period(year_text, month_text) {
        Some(p) => Ok(p),
        None => Err(owned("Please select Year and Month")),
    }
}

/// Checks the administrator's payslip form: the employee id must not be
/// blank, and the period as on the employee's form; the period typed, or a
/// message.
pub fn admin_form_period(emp_id: &str, year_text: &str, month_text: &str) -> (r: Result<(i32, i32), String>)
    ensures
        r matches Ok((y, m)) ==> trim(emp_id@).len() > 0 && period_of(year_text@, month_text@) == Some(
            (y as int, m as int),
        ),
        r is Err <==> (trim(emp_id@).len() == 0 || period_of(year_text@, month_text@) is None),
        r matches Err(msg) ==> msg@ == "Please fill in Employee ID, Year, and Month"@,
{
    let id = trim_chars(emp_id);
    match parse_period(year_text, month_text) {
        Some(p) => if id.len() == 0 {
            Err(owned("Please fill in Employee ID, Year, and Month"))
        } else {
            Ok(p)
        },
        None => Err(owned("Please fill in Employee ID, Year, and Month")),
    }
}

/// The page of each role's dashboard.
pub open spec fn dashboard_of(role: UserRole) -> Seq<char> {
    match role {
        UserRole::Admin => "/admin"@,
        UserRole::Employee => "/employee"@,
    }
}

/// The page of a role's dashboard.
pub fn dashboard_path(role: UserRole) -> (p: &'static str)
    ensures
        p@ == dashboard_of(role),
{
    match role {
        UserRole::Admin => "/admin",
        UserRole::Employee => "/employee",
    }
}

/// Where the web client's start page sends a user: to their dashboard when
/// signed in, else to the sign-in page.
pub fn landing_path(session: Option<&Session>) -> (p: &'static str)
    ensures
        session matches Some(s) ==> p@ == dashboard_of(s.role),
        session is None ==> p@ == "/login"@,
{
    match session {
        Some(s) => dashboard_path(s.role),
        None => "/login",
    }
}

/// Whether a page that asks for `required_role` lets a user with `role` in.
pub fn role_permits(required_role: &str, role: UserRole) -> (b: bool)
    ensures
        b == (required_role@ == role_name(role)),
{
    same_text(required_role, role.name())
}

/// Where a page that asks for `required_role` sends a user away to, if it
/// does: signed-out users and users of another role go to the sign-in page.
pub fn guard_redirect(session: Option<&Session>, required_role: &str) -> (r: Option<&'static str>)
    ensures
        r is None <==> (session matches Some(s) && required_role@ == role_name(s.role)),
        r matches Some(p) ==> p@ == "/login"@,
{
    match session {
        None => Some("/login"),
        Some(s) => if role_permits(required_role, s.role) {
            None
        } else {
            Some("/login")
        },
    }
}

/// The short English name of month `m` (1 is January).
pub open spec fn short_month_name(m: int) -> Seq<char> {
    if m == 1 {
        "Jan"@
    } else if m == 2 {
        "Feb"@
    } else if m == 3 {
        "Mar"@
    } else if m == 4 {
        "Apr"@
    } else if m == 5 {
        "May"@
    } else if m == 6 {
        "Jun"@
    } else if m == 7 {
        "Jul"@
    } else if m == 8 {
        "Aug"@
    } else if m == 9 {
        "Sep"@
    } else if m == 10 {
        "Oct"@
    } else if m == 11 {
        "Nov"@
    } else {
        "Dec"@
    }
}

/// The label of month `m` (1 is January) in the month pickers.
pub fn month_option_label(m: u32) -> (s: &'static str)
    requires
        1 <= m <= 12,
    ensures
        s@ == short_month_name(m as int),
{
    if m == 1 {
        "Jan"
    } else if m == 2 {
        "Feb"
    } else if m == 3 {
        "Mar"
    } else if m == 4 {
        "Apr"
    } else if m == 5 {
        "May"
    } else if m == 6 {
        "Jun"
    } else if m == 7 {
        "Jul"
    } else if m == 8 {
        "Aug"
    } else if m == 9 {
        "Sep"
    } else if m == 10 {
        "Oct"
    } else if m == 11 {
        "Nov"
    } else {
        "Dec"
    }
}

/// The value that the month pickers send for month `m`: its decimal number.
pub fn month_option_value(m: u32) -> (s: String)
    requires
        1 <= m <= 12,
    ensures
        s@ == int_decimal(m as int),
{
    int_to_decimal(m as i64)
}

/// Decimal text has no surrounding whitespace to trim.
proof fn lemma_trim_decimal(n: int)
    ensures
        trim(int_decimal(n)) == int_decimal(n),
{
    lemma_int_decimal_chars(n);
    let s = int_decimal(n);
    if s.len() > 0 {
        assert(!is_whitespace(s[0]));
        assert(trim_start(s) == s);
        assert(!is_whitespace(s[s.len() - 1]));
        assert(trim_end(s) == s);
    } else {
        assert(trim_start(s) == s);
        assert(trim_end(s) == s);
    }
}

/// Every period picked in a payslip form is accepted as it was picked: a
/// month offered by the pickers and a year typed as its decimal text read
/// back as that month and that year.
pub proof fn lemma_picked_period_accepted(year: int, month: int)
    requires
        i32::MIN <= year <= i32::MAX,
        1 <= month <= 12,
    ensures
        period_of(int_decimal(year), int_decimal(month)) == Some((year, month)),
{
    lemma_trim_decimal(year);
    lemma_trim_decimal(month);
    lemma_decimal_roundtrip(year, i32::MIN as int, i32::MAX as int);
    lemma_decimal_roundtrip(month, i32::MIN as int, i32::MAX as int);
}

/// Where the sign-in page sends a user who is already signed in: to their
/// dashboard; others stay.
pub fn login_page_redirect(session: Option<&Session>) -> (r: Option<&'static str>)
    ensures
        session matches Some(s) ==> (r matches Some(p) && p@ == dashboard_of(s.role)),
        session is None ==> r is None,
{
    match session {
        Some(s) => Some(dashboard_path(s.role)),
        None => None,
    }
}

/// What the sign-in page does once a password was sent for `email`, with
/// the service's answer `message`: the address (as typed) is kept as the one
/// waiting for its password, the message is kept as the notice that the
/// password page shows, and the user moves on to the password page.
pub fn after_otp_sent(email: &str, message: String) -> (r: (String, String, &'static str))
    ensures
        r.0@ == email@,
        r.1@ == message@,
        r.2@ == "/otp"@,
{
    (owned(email), message, "/otp")
}

/// Where the password page sends a visitor away to: to the sign-in page
/// when no address is waiting for its password.
pub fn otp_page_redirect(pending_email: Option<&str>) -> (r: Option<&'static str>)
    ensures
        r is None <==> pending_email is Some,
        r matches Some(p) ==> p@ == "/login"@,
{
    match pending_email {
        Some(_) => None,
        None => Some("/login"),
    }
}

/// The address that the password page submits: the one waiting for its
/// password, or an empty text where there is none.
pub open spec fn submitted_email(pending_email: Option<&str>) -> Seq<char> {
    match pending_email {
        Some(e) => e@,
        None => Seq::empty(),
    }
}

/// The password page's submit step: the address waiting for its password
/// and the password typed into the six boxes; fewer than six characters in
/// all are refused with a message, and nothing is submitted.
pub fn otp_submission(boxes: &Vec<String>, pending_email: Option<&str>) -> (r: Result<(String, String), String>)
    ensures
        r matches Ok((email, code)) ==> email@ == submitted_email(pending_email) && code@ == joined(
            boxes@,
        ) && code@.len() >= 6,
        r is Err <==> joined(boxes@).len() < 6,
        r matches Err(m) ==> m@ == "Please enter all 6 digits"@,
{
    let code = otp_from_boxes(boxes)?;
    let email = match pending_email {
        Some(e) => owned(e),
        None => String::new(),
    };
    Ok((email, code))
}

/// What the password page does once the service accepted the password for
/// `email`: the session to keep and the dashboard of the user's role to go
/// to (the waiting address is then cleared).
pub fn after_sign_in(resp: AuthResponse, email: &str) -> (r: (Session, &'static str))
    ensures
        r.0.token == resp.token,
        r.0.role == resp.role,
        r.0.name == resp.name,
        r.0.email@ == email@,
        r.1@ == dashboard_of(resp.role),
{
    let role = resp.role;
    (resp.into_session(email), dashboard_path(role))
}

/// What the header's logout button does: the session is dropped and the
/// user goes to the sign-in page.
pub fn after_logout() -> (r: (Option<Session>, &'static str))
    ensures
        r.0 is None,
        r.1@ == "/login"@,
{
    (None, "/login")
}

/// What the upload panel shows: the preview of the chosen file, and a
/// status message with whether it reports success.
pub struct UploadPanelView {
    pub preview: Option<CsvPreviewResponse>,
    pub message: Option<(bool, String)>,
}

/// The upload panel once a file is chosen: no preview and no message yet.
pub fn file_chosen() -> (v: UploadPanelView)
    ensures
        v.preview is None,
        v.message is None,
{
    UploadPanelView { preview: None, message: None }
}

/// The upload panel after the service answered a preview request: the
/// preview replaces the message, or the error is shown as a failure and
/// the earlier preview stays.
pub fn after_preview(view: UploadPanelView, answer: Result<CsvPreviewResponse, String>) -> (v: UploadPanelView)
    ensures
        answer matches Ok(p) ==> v.preview == Some(p) && v.message is None,
        answer matches Err(e) ==> v.preview == view.preview && v.message == Some((false, e)),
{
    match answer {
        Ok(p) => UploadPanelView { preview: Some(p), message: None },
        Err(e) => UploadPanelView { preview: view.preview, message: Some((false, e)) },
    }
}

/// The upload panel after the service answered an upload: its message is
/// shown as a success and the preview goes, or the error is shown as a
/// failure and the preview stays.
pub fn after_upload(view: UploadPanelView, answer: Result<UploadResponse, String>) -> (v: UploadPanelView)
    ensures
        answer matches Ok(u) ==> v.preview is None && v.message == Some((true, u.message)),
        answer matches Err(e) ==> v.preview == view.preview && v.message == Some((false, e)),
{
    match answer {
        Ok(u) => UploadPanelView { preview: None, message: Some((true, u.message)) },
        Err(e) => UploadPanelView { preview: view.preview, message: Some((false, e)) },
    }
}

/// The line above a preview table for a file of `total` rows.
pub fn preview_count_text(total: usize) -> (s: String)
    ensures
        s@ == "Showing first 5 of "@ + nat_digits(total as nat) + " rows"@,
{
    let mut s = owned("Showing first 5 of ");
    push_nat_digits(&mut s, total as u64);
    s.append(" rows");
    s
}

} // verus!
