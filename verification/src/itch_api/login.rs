//! Logging in to itch.io with a username and a password, with the reCAPTCHA
//! and TOTP steps that the API may ask for.
use vstd::prelude::*;
use vstd::string::StringExecFns;
use crate::itch_api::types::{ItchCookie, ItchKeySource, LoginCaptchaError, LoginTOTPError};
use crate::text::{decimal_digits, u64_to_decimal};

verus! {

/// An API key. The times are Unix timestamps, in seconds.
#[derive(Debug, Clone, PartialEq, Eq)]
pub struct ItchKey {
    pub key: String,
    pub id: u64,
    pub user_id: u64,
    pub source: ItchKeySource,
    pub revoked: Option<bool>,
    pub created_at: i64,
    pub updated_at: i64,
    pub last_used_at: Option<i64>,
}

/// A successful login: the session cookie and a new API key.
#[derive(Debug, Clone, PartialEq, Eq)]
pub struct LoginSuccess {
    pub success: bool,
    pub cookie: ItchCookie,
    pub key: ItchKey,
}

/// What the login call answers.
#[derive(Debug, Clone, PartialEq, Eq)]
pub enum LoginResponse {
    Success(LoginSuccess),
    CaptchaError(LoginCaptchaError),
    TOTPError(LoginTOTPError),
}

/// The texts of a form's fields.
pub open spec fn form_view(v: Seq<(String, String)>) -> Seq<(Seq<char>, Seq<char>)> {
    v.map_values(|p: (String, String)| (p.0@, p.1@))
}

fn field(k: &str, v: &str) -> (r: (String, String))
    ensures
        r.0@ == k@,
        r.1@ == v@,
{
    (String::from_str(k), String::from_str(v))
}

/// The fields of a login request. The API always asks for a reCAPTCHA
/// token, and the key is requested for the desktop.
pub open spec fn spec_login_form(username: Seq<char>, password: Seq<char>, recaptcha_response: Seq<char>) -> Seq<(Seq<char>, Seq<char>)> {
    seq![
        ("username"@, username),
        ("password"@, password),
        ("force_recaptcha"@, "true"@),
        ("recaptcha_response"@, recaptcha_response),
        ("source"@, "desktop"@),
    ]
}

/// The fields of a login request.
pub fn login_form(username: &str, password: &str, recaptcha_response: &str) -> (r: Vec<(String, String)>)
    ensures
        form_view(r@) == spec_login_form(username@, password@, recaptcha_response@),
{
    let mut form: Vec<(String, String)> = Vec::new();
    form.push(field("username", username));
    form.push(field("password", password));
    form.push(field("force_recaptcha", "true"));
    form.push(field("recaptcha_response", recaptcha_response));
    form.push(field("source", "desktop"));
    proof {
        assert(form_view(form@) =~= spec_login_form(username@, password@, recaptcha_response@));
    }
    form
}

/// The fields of a TOTP verification request: the token of the login step
/// and the code, in decimal.
pub open spec fn spec_totp_form(token: Seq<char>, code: u64) -> Seq<(Seq<char>, Seq<char>)> {
    seq![("token"@, token), ("code"@, decimal_digits(code as nat))]
}

/// The fields of a TOTP verification request.
pub fn totp_form(token: &str, code: u64) -> (r: Vec<(String, String)>)
    ensures
        form_view(r@) == spec_totp_form(token@, code),
{
    let mut form: Vec<(String, String)> = Vec::new();
    form.push(field("token", token));
    form.push((String::from_str("code"), u64_to_decimal(code)));
    proof {
        assert(form_view(form@) =~= spec_totp_form(token@, code));
    }
    form
}

/// Why a login can't go on by itself.
#[derive(Debug, Clone, PartialEq, Eq)]
pub enum LoginError {
    /// A reCAPTCHA must be solved first.
    CaptchaNeeded(LoginCaptchaError),
    /// The account needs a TOTP code, and none was given.
    TOTPNeeded(LoginTOTPError),
}

/// What comes after the answer to a login request.
#[derive(Debug, Clone, PartialEq, Eq)]
pub enum LoginStep {
    /// The login is done: this is the new API key.
    Done { api_key: String },
    /// The TOTP code must be verified with this token.
    VerifyTotp { token: String, code: u64 },
    /// The login stops here.
    Failed(LoginError),
}

/// Decides what comes after the answer to a login request, given the TOTP
/// code the user gave, if any.
pub fn login_step(response: LoginResponse, totp_code: Option<u64>) -> (r: LoginStep)
    ensures
        match response {
            LoginResponse::Success(s) => r matches LoginStep::Done { api_key } && api_key == s.key.key,
            LoginResponse::CaptchaError(e) => r == LoginStep::Failed(LoginError::CaptchaNeeded(e)),
            LoginResponse::TOTPError(e) => match totp_code {
                Some(code) => r matches LoginStep::VerifyTotp { token, code: c } && token == e.token
                    && c == code,
                None => r == LoginStep::Failed(LoginError::TOTPNeeded(e)),
            },
        },
{
    match response {
        LoginResponse::Success(s) => LoginStep::Done { api_key: s.key.key },
        LoginResponse::CaptchaError(e) => LoginStep::Failed(LoginError::CaptchaNeeded(e)),
        LoginResponse::TOTPError(e) => match totp_code {
            Some(code) => LoginStep::VerifyTotp { token: e.token, code },
            None => LoginStep::Failed(LoginError::TOTPNeeded(e)),
        },
    }
}

} // verus!
