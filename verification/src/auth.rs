//! Account forms and the responses the account routes decide on.
//!
//! The routes themselves — cookies, form decoding, status codes on the wire —
//! live outside the core; the decisions they embody are the `*_outcome`
//! functions here, from the collaborator's answer to the HTTP status and the
//! response body.

use vstd::prelude::*;
use vstd::string::StringExecFns;

verus! {

/// The posted signup form.
pub struct SignupForm<'a> {
    pub username: &'a str,
    pub password: &'a str,
}

/// The posted login form.
pub struct LoginForm<'a> {
    pub username: &'a str,
    pub password: &'a str,
}

/// The posted password-change form.
pub struct ChangePasswordForm<'a> {
    pub current_password: &'a str,
    pub new_password: &'a str,
}

/// The signup route's response body.
pub struct SignupResponse {
    pub success: bool,
    pub redirect: Option<String>,
    pub error: Option<String>,
}

impl SignupResponse {
    /// A successful signup, redirecting to the given page.
    pub fn success(redirect: String) -> (r: SignupResponse)
        ensures
            r.success,
            r.redirect matches Some(s) && s@ == redirect@,
            r.error is None,
    {
        SignupResponse { success: true, redirect: Some(redirect), error: None }
    }

    /// A failed signup with the given error text.
    pub fn error(error: String) -> (r: SignupResponse)
        ensures
            !r.success,
            r.redirect is None,
            r.error matches Some(e) && e@ == error@,
    {
        SignupResponse { success: false, redirect: None, error: Some(error) }
    }
}

/// The login route's response body.
pub struct LoginResponse {
    pub success: bool,
    pub redirect: Option<String>,
    pub error: Option<String>,
}

impl LoginResponse {
    /// A successful login, redirecting to the given page.
    pub fn success(redirect: String) -> (r: LoginResponse)
        ensures
            r.success,
            r.redirect matches Some(s) && s@ == redirect@,
            r.error is None,
    {
        LoginResponse { success: true, redirect: Some(redirect), error: None }
    }

    /// A failed login with the given error text.
    pub fn error(error: String) -> (r: LoginResponse)
        ensures
            !r.success,
            r.redirect is None,
            r.error matches Some(e) && e@ == error@,
    {
        LoginResponse { success: false, redirect: None, error: Some(error) }
    }
}

/// The password-change route's response body.
pub struct ChangePasswordResponse {
    pub success: bool,
    pub error: Option<String>,
}

impl ChangePasswordResponse {
    /// A successful password change.
    pub fn success() -> (r: ChangePasswordResponse)
        ensures
            r.success,
            r.error is None,
    {
        ChangePasswordResponse { success: true, error: None }
    }

    /// A failed password change with the given error text.
    pub fn error(error: String) -> (r: ChangePasswordResponse)
        ensures
            !r.success,
            r.error matches Some(e) && e@ == error@,
    {
        ChangePasswordResponse { success: false, error: Some(error) }
    }
}

/// What the signup route answers once the user service has spoken: a created
/// account gets status 200 and a redirect home, a taken username status 401
/// and the fixed error text.
pub fn signup_outcome(created: bool) -> (r: (u16, SignupResponse))
    ensures
        created ==> r.0 == 200 && r.1.success && (r.1.redirect matches Some(s) && s@ == "/"@)
            && r.1.error is None,
        !created ==> r.0 == 401 && !r.1.success && r.1.redirect is None && (r.1.error matches Some(
            e,
        ) && e@ == "Username already taken"@),
{
    if created {
        (200, SignupResponse::success("/".to_owned()))
    } else {
        (401, SignupResponse::error("Username already taken".to_owned()))
    }
}

/// What the login route answers once the user service has spoken: a verified
/// password gets status 200 and a redirect home, anything else status 401
/// and the fixed error text.
pub fn login_outcome(verified: bool) -> (r: (u16, LoginResponse))
    ensures
        verified ==> r.0 == 200 && r.1.success && (r.1.redirect matches Some(s) && s@ == "/"@)
            && r.1.error is None,
        !verified ==> r.0 == 401 && !r.1.success && r.1.redirect is None && (r.1.error matches Some(
            e,
        ) && e@ == "Invalid username or password"@),
{
    if verified {
        (200, LoginResponse::success("/".to_owned()))
    } else {
        (401, LoginResponse::error("Invalid username or password".to_owned()))
    }
}

/// What the password-change route answers once the user service has spoken:
/// status 200 on success, status 401 and the fixed error text on a wrong
/// current password.
pub fn change_password_outcome(changed: bool) -> (r: (u16, ChangePasswordResponse))
    ensures
        changed ==> r.0 == 200 && r.1.success && r.1.error is None,
        !changed ==> r.0 == 401 && !r.1.success && (r.1.error matches Some(e) && e@
            == "Wrong password"@),
{
    if changed {
        (200, ChangePasswordResponse::success())
    } else {
        (401, ChangePasswordResponse::error("Wrong password".to_owned()))
    }
}

} // verus!
