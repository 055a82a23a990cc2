//! The ways a login attempt can fail.

use vstd::prelude::*;
use vstd::string::StringExecFns;
use crate::decimal::decimal;
use crate::decimal::push_decimal;

verus! {

/// The network operation that a login attempt was waiting on.
#[derive(Clone, Copy, Debug, PartialEq, Eq, Structural)]
pub enum Stage {
    FetchLoginPage,
    FetchPublicKey,
    SubmitLogin,
}

/// One of the two fields of the key material.
#[derive(Clone, Copy, Debug, PartialEq, Eq, Structural)]
pub enum KeyField {
    Modulus,
    Exponent,
}

/// Why a login attempt did not end in a response from the portal.
#[derive(Clone, Debug, PartialEq, Eq)]
pub enum LoginError {
    /// The transport failed while the given operation was under way.
    Network(Stage),
    /// The key endpoint answered with something other than the two-field shape.
    Parse,
    /// Neither token pattern stands in the login page.
    TokenNotFound,
    /// The key endpoint answered with this status instead of 200.
    HttpStatus(u16),
    /// A field of the key material is not base64.
    Decode(KeyField),
    /// Modulus and exponent do not form an acceptable public key.
    InvalidKey,
    /// The password is too long for the modulus.
    Encryption,
    /// The portal rejected user name or password.
    BadCredentials,
    /// The portal asks for a CAPTCHA.
    CaptchaRequired,
    /// The portal's answer matched no rule; holds the final URL.
    Unrecognized(String),
    /// An event arrived that the current state does not wait for.
    UnexpectedEvent,
}

/// A `LoginError` with its text as a sequence of characters.
pub enum LoginErrorView {
    Network(Stage),
    Parse,
    TokenNotFound,
    HttpStatus(u16),
    Decode(KeyField),
    InvalidKey,
    Encryption,
    BadCredentials,
    CaptchaRequired,
    Unrecognized(Seq<char>),
    UnexpectedEvent,
}

impl View for LoginError {
    type V = LoginErrorView;

    open spec fn view(&self) -> LoginErrorView {
        match self {
            LoginError::Network(stage) => LoginErrorView::Network(*stage),
            LoginError::Parse => LoginErrorView::Parse,
            LoginError::TokenNotFound => LoginErrorView::TokenNotFound,
            LoginError::HttpStatus(status) => LoginErrorView::HttpStatus(*status),
            LoginError::Decode(field) => LoginErrorView::Decode(*field),
            LoginError::InvalidKey => LoginErrorView::InvalidKey,
            LoginError::Encryption => LoginErrorView::Encryption,
            LoginError::BadCredentials => LoginErrorView::BadCredentials,
            LoginError::CaptchaRequired => LoginErrorView::CaptchaRequired,
            LoginError::Unrecognized(url) => LoginErrorView::Unrecognized(url@),
            LoginError::UnexpectedEvent => LoginErrorView::UnexpectedEvent,
        }
    }
}

/// What an error says of itself.
pub open spec fn message_of(error: LoginErrorView) -> Seq<char> {
    match error {
        LoginErrorView::Network(Stage::FetchLoginPage) => "Failed to fetch login page"@,
        LoginErrorView::Network(Stage::FetchPublicKey) => "Failed to fetch RSA public key"@,
        LoginErrorView::Network(Stage::SubmitLogin) => "Failed to send login request"@,
        LoginErrorView::Parse => "Failed to parse RSA public key"@,
        LoginErrorView::TokenNotFound => "Could not find csrftoken in login page"@,
        LoginErrorView::HttpStatus(status) => "Failed to get RSA public key: status "@ + decimal(
            status as nat,
        ),
        LoginErrorView::Decode(KeyField::Modulus) => "Failed to decode modulus base64"@,
        LoginErrorView::Decode(KeyField::Exponent) => "Failed to decode exponent base64"@,
        LoginErrorView::InvalidKey => "Failed to create RSA public key"@,
        LoginErrorView::Encryption => "Failed to encrypt password"@,
        LoginErrorView::BadCredentials => "登录失败：用户名或密码不正确"@,
        LoginErrorView::CaptchaRequired => "登录失败：需要验证码"@,
        LoginErrorView::Unrecognized(url) => "登录失败，当前 URL: "@ + url,
        LoginErrorView::UnexpectedEvent => "Unexpected event for the current state"@,
    }
}

impl LoginError {
    /// What the error says of itself, for the user to read.
    pub fn message(&self) -> (text: String)
        ensures
            text@ == message_of(self@),
    {
        match self {
            LoginError::Network(Stage::FetchLoginPage) => String::from_str(
                "Failed to fetch login page",
            ),
            LoginError::Network(Stage::FetchPublicKey) => String::from_str(
                "Failed to fetch RSA public key",
            ),
            LoginError::Network(Stage::SubmitLogin) => String::from_str(
                "Failed to send login request",
            ),
            LoginError::Parse => String::from_str("Failed to parse RSA public key"),
            LoginError::TokenNotFound => String::from_str("Could not find csrftoken in login page"),
            LoginError::HttpStatus(status) => {
                let mut text = String::from_str("Failed to get RSA public key: status ");
                push_decimal(&mut text, *status as u64);
                text
            },
            LoginError::Decode(KeyField::Modulus) => String::from_str(
                "Failed to decode modulus base64",
            ),
            LoginError::Decode(KeyField::Exponent) => String::from_str(
                "Failed to decode exponent base64",
            ),
            LoginError::InvalidKey => String::from_str("Failed to create RSA public key"),
            LoginError::Encryption => String::from_str("Failed to encrypt password"),
            LoginError::BadCredentials => String::from_str("登录失败：用户名或密码不正确"),
            LoginError::CaptchaRequired => String::from_str("登录失败：需要验证码"),
            LoginError::Unrecognized(url) => String::from_str("登录失败，当前 URL: ").concat(
                url.as_str(),
            ),
            LoginError::UnexpectedEvent => String::from_str(
                "Unexpected event for the current state",
            ),
        }
    }
}

/// A text or the error in its place, with every text as a sequence of characters.
pub open spec fn text_outcome(outcome: Result<String, LoginError>) -> Result<
    Seq<char>,
    LoginErrorView,
> {
    match outcome {
        Ok(text) => Ok(text@),
        Err(error) => Err(error@),
    }
}

} // verus!
