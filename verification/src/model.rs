//! The messages exchanged between the web client and the service, and the
//! roles that users hold.

use vstd::prelude::*;

use crate::text::{owned, same_text};

verus! {

/// The role of a signed-in user.
#[derive(Clone, Copy, Debug, PartialEq, Eq, Structural)]
pub enum UserRole {
    Admin,
    Employee,
}

/// The lowercase name under which a role is stored and sent.
pub open spec fn role_name(role: UserRole) -> Seq<char> {
    match role {
        UserRole::Admin => "admin"@,
        UserRole::Employee => "employee"@,
    }
}

/// Each role has a name of its own, so the name under which a role is
/// stored and sent reads back as that role.
pub proof fn lemma_role_names_distinct(a: UserRole, b: UserRole)
    ensures
        role_name(a) == role_name(b) <==> a == b,
{
    reveal_strlit("admin");
    reveal_strlit("employee");
    if a != b {
        assert(role_name(a).len() != role_name(b).len());
    }
}

impl UserRole {
    /// The lowercase name of the role.
    pub fn name(&self) -> (s: &'static str)
        ensures
            s@ == role_name(*self),
    {
        match self {
            UserRole::Admin => "admin",
            UserRole::Employee => "employee",
        }
    }

    /// The role whose lowercase name is `s`, if any: the only names are
    /// `admin` and `employee`.
    pub fn from_name(s: &str) -> (r: Option<UserRole>)
        ensures
            r matches Some(role) ==> role_name(role) == s@,
            r is None ==> s@ != role_name(UserRole::Admin) && s@ != role_name(UserRole::Employee),
    {
        if same_text(s, "admin") {
            Some(UserRole::Admin)
        } else if same_text(s, "employee") {
            Some(UserRole::Employee)
        } else {
            None
        }
    }
}

/// Body of a request for a one-time password.
#[derive(Clone, Debug)]
pub struct SendOtpRequest {
    pub email: String,
}

/// Body of a request that submits a one-time password.
#[derive(Clone, Debug)]
pub struct VerifyOtpRequest {
    pub email: String,
    pub otp: String,
}

/// Answer to a successful sign-in.
#[derive(Clone, Debug)]
pub struct AuthResponse {
    pub token: String,
    pub role: UserRole,
    pub name: String,
}

/// The first rows of an uploaded CSV file, with its header and row count.
#[derive(Clone, Debug)]
pub struct CsvPreviewResponse {
    pub headers: Vec<String>,
    pub rows: Vec<Vec<String>>,
    pub total: usize,
}

/// Answer to a CSV upload.
#[derive(Clone, Debug)]
pub struct UploadResponse {
    pub uploaded: usize,
    pub message: String,
}

/// Body of an error answer.
#[derive(Clone, Debug)]
pub struct ApiError {
    pub message: String,
}

/// The pay period an employee asks for.
#[derive(Clone, Copy, Debug, PartialEq, Eq, Structural)]
pub struct PayslipQuery {
    pub year: i32,
    pub month: i32,
}

/// The pay period and employee an administrator asks for; the employee is
/// named by the 128-bit value of their UUID.
#[derive(Clone, Copy, Debug, PartialEq, Eq, Structural)]
pub struct AdminPayslipQuery {
    pub year: i32,
    pub month: i32,
    pub employee_id: u128,
}

/// A signed-in user as the web client keeps it.
#[derive(Clone, Debug)]
pub struct Session {
    pub token: String,
    pub role: UserRole,
    pub name: String,
    pub email: String,
}

impl AuthResponse {
    /// The session that the web client keeps after this sign-in by `email`.
    pub fn into_session(self, email: &str) -> (s: Session)
        ensures
            s.token == self.token,
            s.role == self.role,
            s.name == self.name,
            s.email@ == email@,
    {
        Session { token: self.token, role: self.role, name: self.name, email: owned(email) }
    }
}

} // verus!
