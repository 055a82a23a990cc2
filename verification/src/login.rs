//! The login handshake: token discovery, key retrieval, submission and the
//! classification of the portal's answer.

use vstd::prelude::*;
use vstd::slice::slice_subrange;
use vstd::string::StrSliceExecFns;
use vstd::string::StringExecFns;
use vstd::string::StringSliceAdditionalSpecFns;
use crate::classify::classification;
use crate::classify::classify;
use crate::client::ScauClient;
use crate::crypto::acceptable_key;
use crate::crypto::build_public_key;
use crate::crypto::decode_key_field;
use crate::crypto::encrypt;
use crate::crypto::fits;
use crate::crypto::is_encryption;
use crate::crypto::key_field_number;
use crate::decimal::decimal_string;
use crate::decimal::signed_decimal;
use crate::error::text_outcome;
use crate::error::KeyField;
use crate::error::LoginError;
use crate::error::LoginErrorView;
use crate::error::Stage;
use crate::text::chars_of;
use crate::text::find_from;
use crate::text::first_occurrence;
use crate::text::lemma_first_occurrence;
use crate::text::lemma_single_char_occurrence;

verus! {

/// The key material as the portal delivers it: two base64 fields, in which
/// `/` may stand escaped as `\/`.
#[derive(Debug, Clone, PartialEq, Eq)]
pub struct RsaPublicKey {
    pub modulus: String,
    pub exponent: String,
}

/// The portal's answer to a login: whether it let the user in, and its message.
#[derive(Debug, Clone, PartialEq, Eq)]
pub struct LoginResponse {
    pub flag: bool,
    pub msg: String,
}

/// A `LoginResponse` with its message as a sequence of characters.
pub struct LoginResponseView {
    pub flag: bool,
    pub msg: Seq<char>,
}

impl View for LoginResponse {
    type V = LoginResponseView;

    open spec fn view(&self) -> LoginResponseView {
        LoginResponseView { flag: self.flag, msg: self.msg@ }
    }
}

/// How a login attempt ended, with every text as a sequence of characters.
pub open spec fn outcome_view(outcome: Result<LoginResponse, LoginError>) -> Result<
    LoginResponseView,
    LoginErrorView,
> {
    match outcome {
        Ok(response) => Ok(response@),
        Err(error) => Err(error@),
    }
}

/// The path of the login page, which also takes the submission.
pub const LOGIN_PATH: &'static str = "/jwglxt/xtgl/login_slogin.html";

/// The path of the public-key endpoint.
pub const PUBLIC_KEY_PATH: &'static str = "/jwglxt/xtgl/login_getPublicKey.html";

/// The content type of the submission.
pub const FORM_CONTENT_TYPE: &'static str = "application/x-www-form-urlencoded";

/// The language that the submission names.
pub const LANGUAGE: &'static str = "zh_CN";

/// The attribute that marks the token's input element.
pub const ID_MARKER: &'static str = "id=\"csrftoken\"";

/// The attribute looked for where `ID_MARKER` yields no token.
pub const NAME_MARKER: &'static str = "name=\"csrftoken\"";

/// What opens an attribute value.
pub const VALUE_OPENING: &'static str = "value=\"";

/// What closes an attribute value.
pub const VALUE_CLOSING: &'static str = "\"";

/// What separates the token from its suffix.
pub const TOKEN_SEPARATOR: &'static str = ",";

/// The part of `value` before its first comma, or all of it where it has none.
pub open spec fn before_comma(value: Seq<char>) -> Seq<char> {
    match first_occurrence(value, TOKEN_SEPARATOR@, 0) {
        Some(i) => value.take(i),
        None => value,
    }
}

/// The token that follows the first occurrence of `marker` in `page`: the
/// text between the next `value="` and the `"` after it, cut at the first comma.
pub open spec fn token_after(page: Seq<char>, marker: Seq<char>) -> Option<Seq<char>> {
    match first_occurrence(page, marker, 0) {
        None => None,
        Some(m) => match first_occurrence(page, VALUE_OPENING@, m) {
            None => None,
            Some(v) => {
                let begin = v + VALUE_OPENING@.len();
                match first_occurrence(page, VALUE_CLOSING@, begin) {
                    None => None,
                    Some(end) => Some(before_comma(page.subrange(begin, end))),
                }
            },
        },
    }
}

/// The token of a login page: the one after `id="csrftoken"`, or else the
/// one after `name="csrftoken"`.
pub open spec fn csrf_token(page: Seq<char>) -> Option<Seq<char>> {
    match token_after(page, ID_MARKER@) {
        Some(token) => Some(token),
        None => token_after(page, NAME_MARKER@),
    }
}

/// No character of `text` is a comma or a double quote.
pub open spec fn is_clean(text: Seq<char>) -> bool {
    forall|i: int| 0 <= i < text.len() ==> text[i] != ',' && text[i] != '"'
}

/// The token holds neither a comma nor a double quote: it ends before the
/// first of either.
pub proof fn lemma_token_is_clean(page: Seq<char>, marker: Seq<char>)
    ensures
        token_after(page, marker) matches Some(token) ==> is_clean(token),
{
    reveal_strlit("\"");
    reveal_strlit(",");
    assert(VALUE_CLOSING@ =~= seq!['"']);
    assert(TOKEN_SEPARATOR@ =~= seq![',']);
    if token_after(page, marker) is Some {
        let m = first_occurrence(page, marker, 0).unwrap();
        let v = first_occurrence(page, VALUE_OPENING@, m).unwrap();
        let begin = v + VALUE_OPENING@.len();
        let end = first_occurrence(page, VALUE_CLOSING@, begin).unwrap();
        let value = page.subrange(begin, end);
        let token = before_comma(value);
        lemma_first_occurrence(page, VALUE_OPENING@, m);
        lemma_first_occurrence(page, VALUE_CLOSING@, begin);
        lemma_first_occurrence(value, TOKEN_SEPARATOR@, 0);
        assert forall|i: int| 0 <= i < token.len() implies token[i] != ',' && token[i] != '"' by {
            lemma_single_char_occurrence(page, '"', begin + i);
            lemma_single_char_occurrence(value, ',', i);
        }
    }
}

/// The character positions `[begin, end)` of the token that follows `marker`.
fn locate_token(page: &[char], marker: &str) -> (r: Option<(usize, usize)>)
    ensures
        match r {
            Some((begin, end)) => begin <= end <= page@.len() && token_after(page@, marker@)
                == Some(page@.subrange(begin as int, end as int)),
            None => token_after(page@, marker@) is None,
        },
{
    proof {
        reveal_strlit("value=\"");
        reveal_strlit("\"");
        reveal_strlit(",");
    }
    let marker_chars = chars_of(marker);
    let opening = chars_of(VALUE_OPENING);
    let closing = chars_of(VALUE_CLOSING);
    let separator = chars_of(TOKEN_SEPARATOR);
    let m = match find_from(page, marker_chars.as_slice(), 0) {
        Some(m) => m,
        None => { return None; },
    };
    let v = match find_from(page, opening.as_slice(), m) {
        Some(v) => v,
        None => { return None; },
    };
    proof {
        lemma_first_occurrence(page@, VALUE_OPENING@, m as int);
        assert(v + opening.len() <= page.len());
    }
    let begin: usize = v + opening.len();
    let end = match find_from(page, closing.as_slice(), begin) {
        Some(end) => end,
        None => { return None; },
    };
    proof {
        lemma_first_occurrence(page@, VALUE_CLOSING@, begin as int);
    }
    let value = slice_subrange(page, begin, end);
    match find_from(value, separator.as_slice(), 0) {
        Some(c) => {
            proof {
                lemma_first_occurrence(value@, TOKEN_SEPARATOR@, 0);
            }
            Some((begin, begin + c))
        },
        None => Some((begin, end)),
    }
}

/// Finds the anti-forgery token in the login page.
pub fn get_csrf_token(page: &str) -> (r: Result<String, LoginError>)
    ensures
        match csrf_token(page@) {
            Some(token) => r matches Ok(found) && found@ == token,
            None => r matches Err(LoginError::TokenNotFound),
        },
        r matches Ok(found) ==> is_clean(found@),
{
    proof {
        lemma_token_is_clean(page@, ID_MARKER@);
        lemma_token_is_clean(page@, NAME_MARKER@);
    }
    let chars = chars_of(page);
    let span = match locate_token(chars.as_slice(), ID_MARKER) {
        Some(span) => Some(span),
        None => locate_token(chars.as_slice(), NAME_MARKER),
    };
    match span {
        Some((begin, end)) => Ok(String::from_str(page.substring_char(begin, end))),
        None => Err(LoginError::TokenNotFound),
    }
}

/// The URL of the public-key endpoint for a request made at `now_millis`,
/// milliseconds since the Unix epoch: the time defeats caches.
pub open spec fn public_key_url_of(origin: Seq<char>, now_millis: int) -> Seq<char> {
    origin + PUBLIC_KEY_PATH@ + "?time="@ + signed_decimal(now_millis)
}

/// The URL of the public-key endpoint for a request made at `now_millis`.
pub fn public_key_url(client: &ScauClient, now_millis: i64) -> (url: String)
    ensures
        url@ == public_key_url_of(client.origin(), now_millis as int),
{
    let mut url = client.url(PUBLIC_KEY_PATH);
    url.append("?time=");
    url.append(decimal_string(now_millis).as_str());
    url
}

/// `chrono::Utc::now` and, on its result, `chrono::DateTime::timestamp_millis`:
/// the milliseconds from the Unix epoch to now. The clock decides the value;
/// it is never negative, since `now` does not return a time before the epoch.
#[verifier::external_body]
fn current_millis() -> (millis: i64)
    ensures
        millis >= 0,
{
    chrono::Utc::now().timestamp_millis()
}

/// `url` is the URL of the public-key endpoint for a request made at some
/// time since the Unix epoch.
pub open spec fn is_timed_public_key_url(origin: Seq<char>, url: Seq<char>) -> bool {
    exists|now: int| 0 <= now <= i64::MAX && url == #[trigger] public_key_url_of(origin, now)
}

/// The URL of the public-key endpoint for a request made now.
pub fn timed_public_key_url(client: &ScauClient) -> (url: String)
    ensures
        is_timed_public_key_url(client.origin(), url@),
{
    public_key_url(client, current_millis())
}

/// What the answer of the public-key endpoint amounts to: the key where the
/// status is 200 and the body had the two fields.
pub open spec fn key_response(status: u16, body: Option<RsaPublicKey>) -> Result<
    RsaPublicKey,
    LoginErrorView,
> {
    if status != 200 {
        Err(LoginErrorView::HttpStatus(status))
    } else {
        match body {
            Some(key) => Ok(key),
            None => Err(LoginErrorView::Parse),
        }
    }
}

/// Takes the key material from the answer of the public-key endpoint:
/// `status` is the answer's status, `body` what its body parsed to.
pub fn get_rsa_public_key(status: u16, body: Option<RsaPublicKey>) -> (r: Result<
    RsaPublicKey,
    LoginError,
>)
    ensures
        match key_response(status, body) {
            Ok(key) => r == Ok::<RsaPublicKey, LoginError>(key),
            Err(error) => r matches Err(e) && e@ == error,
        },
{
    if status != 200 {
        return Err(LoginError::HttpStatus(status));
    }
    match body {
        Some(key) => Ok(key),
        None => Err(LoginError::Parse),
    }
}

/// Modulus and exponent that the key material stands for, or the reason why
/// it stands for none.
pub open spec fn key_material(key: RsaPublicKey) -> Result<(nat, nat), LoginErrorView> {
    match key_field_number(key.modulus@) {
        None => Err(LoginErrorView::Decode(KeyField::Modulus)),
        Some(n) => match key_field_number(key.exponent@) {
            None => Err(LoginErrorView::Decode(KeyField::Exponent)),
            Some(e) => if acceptable_key(n, e) {
                Ok((n, e))
            } else {
                Err(LoginErrorView::InvalidKey)
            },
        },
    }
}

/// What encrypting `password` under the key material may give.
pub open spec fn is_encrypted_password(
    key: RsaPublicKey,
    password: Seq<u8>,
    r: Result<Seq<char>, LoginErrorView>,
) -> bool {
    match key_material(key) {
        Err(error) => r == Err::<Seq<char>, LoginErrorView>(error),
        Ok((n, e)) => is_encryption(n, e, password, r),
    }
}

/// Encrypts the password under the key material and returns the ciphertext
/// as base64 text.
pub fn encrypt_password(rsa_key: &RsaPublicKey, password: &str) -> (r: Result<String, LoginError>)
    ensures
        is_encrypted_password(*rsa_key, password.spec_bytes(), text_outcome(r)),
        key_material(*rsa_key) is Ok && !fits(key_material(*rsa_key)->Ok_0.0, password.spec_bytes())
            ==> text_outcome(r) == Err::<Seq<char>, LoginErrorView>(LoginErrorView::Encryption),
{
    let modulus = match decode_key_field(KeyField::Modulus, rsa_key.modulus.as_str()) {
        Ok(bytes) => bytes,
        Err(e) => { return Err(e); },
    };
    let exponent = match decode_key_field(KeyField::Exponent, rsa_key.exponent.as_str()) {
        Ok(bytes) => bytes,
        Err(e) => { return Err(e); },
    };
    let key = match build_public_key(modulus, exponent) {
        Ok(key) => key,
        Err(e) => { return Err(e); },
    };
    encrypt(&key, password.as_bytes())
}

/// Where a login attempt stands. The stages follow one another and none is
/// entered twice.
#[derive(Debug, Clone, PartialEq, Eq)]
pub enum LoginState {
    /// Nothing has been asked for yet.
    Start,
    /// The login page has been asked for.
    AwaitingLoginPage,
    /// The public key has been asked for; the token is in hand.
    AwaitingPublicKey { csrf_token: String },
    /// The form has been submitted.
    AwaitingLoginResult,
    /// The attempt is over.
    Finished,
}

/// A `LoginState` with its token as a sequence of characters.
pub enum LoginStateView {
    Start,
    AwaitingLoginPage,
    AwaitingPublicKey { csrf_token: Seq<char> },
    AwaitingLoginResult,
    Finished,
}

impl View for LoginState {
    type V = LoginStateView;

    open spec fn view(&self) -> LoginStateView {
        match self {
            LoginState::Start => LoginStateView::Start,
            LoginState::AwaitingLoginPage => LoginStateView::AwaitingLoginPage,
            LoginState::AwaitingPublicKey { csrf_token } => LoginStateView::AwaitingPublicKey {
                csrf_token: csrf_token@,
            },
            LoginState::AwaitingLoginResult => LoginStateView::AwaitingLoginResult,
            LoginState::Finished => LoginStateView::Finished,
        }
    }
}

/// What the transport reports back to a login attempt.
#[derive(Debug, Clone, PartialEq, Eq)]
pub enum LoginEvent {
    /// The attempt begins.
    Begin,
    /// The login page arrived.
    LoginPage { body: String },
    /// The public-key endpoint answered; `key` is what its body parsed to.
    PublicKey { status: u16, key: Option<RsaPublicKey> },
    /// The submission was answered; `json` is what the body parsed to.
    LoginResult { final_url: String, body: String, json: Option<LoginResponse> },
    /// The request did not get through.
    TransportFailed,
}

/// What a login attempt asks of the transport next.
#[derive(Debug, PartialEq, Eq)]
pub enum LoginAction {
    /// Get the login page at `url`.
    FetchLoginPage { url: String },
    /// Get the key material at `url`.
    FetchPublicKey { url: String },
    /// Post `fields` to `url` as a form, with these two headers.
    SubmitLogin { url: String, referer: String, content_type: String, fields: Vec<(String, String)> },
    /// Stop: the attempt ended this way.
    Finish(Result<LoginResponse, LoginError>),
}

/// A `LoginAction` with every text as a sequence of characters.
pub enum LoginActionView {
    FetchLoginPage { url: Seq<char> },
    FetchPublicKey { url: Seq<char> },
    SubmitLogin {
        url: Seq<char>,
        referer: Seq<char>,
        content_type: Seq<char>,
        fields: Seq<(Seq<char>, Seq<char>)>,
    },
    Finish(Result<LoginResponseView, LoginErrorView>),
}

impl View for LoginAction {
    type V = LoginActionView;

    open spec fn view(&self) -> LoginActionView {
        match self {
            LoginAction::FetchLoginPage { url } => LoginActionView::FetchLoginPage { url: url@ },
            LoginAction::FetchPublicKey { url } => LoginActionView::FetchPublicKey { url: url@ },
            LoginAction::SubmitLogin { url, referer, content_type, fields } => {
                LoginActionView::SubmitLogin {
                    url: url@,
                    referer: referer@,
                    content_type: content_type@,
                    fields: fields.deep_view(),
                }
            },
            LoginAction::Finish(outcome) => LoginActionView::Finish(outcome_view(*outcome)),
        }
    }
}

/// The end of an attempt with `error`.
pub open spec fn failed(error: LoginErrorView) -> (LoginStateView, LoginActionView) {
    (LoginStateView::Finished, LoginActionView::Finish(Err(error)))
}

/// The form that logs `username` in with the token and the encrypted password.
pub open spec fn login_form(
    csrf_token: Seq<char>,
    username: Seq<char>,
    encrypted_password: Seq<char>,
) -> Seq<(Seq<char>, Seq<char>)> {
    seq![
        ("csrftoken"@, csrf_token),
        ("language"@, LANGUAGE@),
        ("yhm"@, username),
        ("mm"@, encrypted_password),
    ]
}

/// The step that follows the encryption of the password: the submission of
/// the form to the login page, with that page as referer, or the end of the
/// attempt with the error that encryption gave.
pub open spec fn submission_of(
    origin: Seq<char>,
    csrf_token: Seq<char>,
    username: Seq<char>,
    encrypted: Result<Seq<char>, LoginErrorView>,
) -> (LoginStateView, LoginActionView) {
    match encrypted {
        Ok(text) => (
            LoginStateView::AwaitingLoginResult,
            LoginActionView::SubmitLogin {
                url: origin + LOGIN_PATH@,
                referer: origin + LOGIN_PATH@,
                content_type: FORM_CONTENT_TYPE@,
                fields: login_form(csrf_token, username, text),
            },
        ),
        Err(error) => failed(error),
    }
}

/// Submits the form with the encrypted password, or ends the attempt with
/// the error that stands in its place.
pub fn submission(
    client: &ScauClient,
    csrf_token: String,
    username: &str,
    encrypted: Result<String, LoginError>,
) -> (r: (LoginState, LoginAction))
    ensures
        (r.0@, r.1@) == submission_of(
            client.origin(),
            csrf_token@,
            username@,
            text_outcome(encrypted),
        ),
{
    match encrypted {
        Ok(text) => {
            let fields = vec![
                (String::from_str("csrftoken"), csrf_token),
                (String::from_str("language"), String::from_str(LANGUAGE)),
                (String::from_str("yhm"), String::from_str(username)),
                (String::from_str("mm"), text),
            ];
            assert(fields.deep_view() =~= login_form(csrf_token@, username@, text@));
            (
                LoginState::AwaitingLoginResult,
                LoginAction::SubmitLogin {
                    url: client.url(LOGIN_PATH),
                    referer: client.url(LOGIN_PATH),
                    content_type: String::from_str(FORM_CONTENT_TYPE),
                    fields,
                },
            )
        },
        Err(error) => (LoginState::Finished, LoginAction::Finish(Err(error))),
    }
}

/// What a step of the handshake may give: the next state and the next
/// action for `state` and `event`. Two steps leave a choice: the request for
/// the key carries the time at which it is made, and the encryption of the
/// password its random padding.
pub open spec fn is_step(
    origin: Seq<char>,
    username: Seq<char>,
    password: Seq<u8>,
    state: LoginState,
    event: LoginEvent,
    next: (LoginStateView, LoginActionView),
) -> bool {
    match (state, event) {
        (LoginState::Start, LoginEvent::Begin) => next == (
            LoginStateView::AwaitingLoginPage,
            LoginActionView::FetchLoginPage { url: origin + LOGIN_PATH@ },
        ),
        (LoginState::AwaitingLoginPage, LoginEvent::LoginPage { body }) => {
            match csrf_token(body@) {
                Some(token) => {
                    &&& next.0 == LoginStateView::AwaitingPublicKey { csrf_token: token }
                    &&& next.1 matches LoginActionView::FetchPublicKey { url }
                    &&& is_timed_public_key_url(origin, url)
                },
                None => next == failed(LoginErrorView::TokenNotFound),
            }
        },
        (LoginState::AwaitingLoginPage, LoginEvent::TransportFailed) => next == failed(
            LoginErrorView::Network(Stage::FetchLoginPage),
        ),
        (LoginState::AwaitingPublicKey { csrf_token }, LoginEvent::PublicKey { status, key }) => {
            match key_response(status, key) {
                Ok(material) => exists|encrypted: Result<Seq<char>, LoginErrorView>|
                    is_encrypted_password(material, password, encrypted) && next
                        == #[trigger] submission_of(origin, csrf_token@, username, encrypted),
                Err(error) => next == failed(error),
            }
        },
        (LoginState::AwaitingPublicKey { csrf_token }, LoginEvent::TransportFailed) => next
            == failed(LoginErrorView::Network(Stage::FetchPublicKey)),
        (LoginState::AwaitingLoginResult, LoginEvent::LoginResult { final_url, body, json }) => {
            next == (
                LoginStateView::Finished,
                LoginActionView::Finish(classification(final_url@, body@, json)),
            )
        },
        (LoginState::AwaitingLoginResult, LoginEvent::TransportFailed) => next == failed(
            LoginErrorView::Network(Stage::SubmitLogin),
        ),
        _ => next == failed(LoginErrorView::UnexpectedEvent),
    }
}

/// How far an attempt has come.
pub open spec fn progress(state: LoginStateView) -> nat {
    match state {
        LoginStateView::Start => 0,
        LoginStateView::AwaitingLoginPage => 1,
        LoginStateView::AwaitingPublicKey { .. } => 2,
        LoginStateView::AwaitingLoginResult => 3,
        LoginStateView::Finished => 4,
    }
}

/// The stages follow one another: a step leads to the next stage or ends
/// the attempt, never back and never to the same stage again, and it ends the
/// attempt exactly when its action is to stop.
pub proof fn lemma_step_moves_forward(
    origin: Seq<char>,
    username: Seq<char>,
    password: Seq<u8>,
    state: LoginState,
    event: LoginEvent,
    next: (LoginStateView, LoginActionView),
)
    requires
        is_step(origin, username, password, state, event, next),
    ensures
        next.0 == LoginStateView::Finished || progress(next.0) == progress(state@) + 1,
        next.0 == LoginStateView::Finished <==> next.1 is Finish,
{
}

/// One step of the handshake: from the state of the attempt and what the
/// transport reported, to the next state and what to ask of the transport.
/// The caller begins with `LoginState::Start` and `LoginEvent::Begin`,
/// performs each action on one session, and stops at `LoginAction::Finish`.
pub fn login(
    client: &ScauClient,
    username: &str,
    password: &str,
    state: LoginState,
    event: LoginEvent,
) -> (r: (LoginState, LoginAction))
    ensures
        is_step(client.origin(), username@, password.spec_bytes(), state, event, (r.0@, r.1@)),
{
    match (state, event) {
        (LoginState::Start, LoginEvent::Begin) => (
            LoginState::AwaitingLoginPage,
            LoginAction::FetchLoginPage { url: client.url(LOGIN_PATH) },
        ),
        (LoginState::AwaitingLoginPage, LoginEvent::LoginPage { body }) => {
            match get_csrf_token(body.as_str()) {
                Ok(csrf_token) => (
                    LoginState::AwaitingPublicKey { csrf_token },
                    LoginAction::FetchPublicKey { url: timed_public_key_url(client) },
                ),
                Err(error) => (LoginState::Finished, LoginAction::Finish(Err(error))),
            }
        },
        (LoginState::AwaitingLoginPage, LoginEvent::TransportFailed) => (
            LoginState::Finished,
            LoginAction::Finish(Err(LoginError::Network(Stage::FetchLoginPage))),
        ),
        (LoginState::AwaitingPublicKey { csrf_token }, LoginEvent::PublicKey { status, key }) => {
            match get_rsa_public_key(status, key) {
                Ok(material) => {
                    let encrypted = encrypt_password(&material, password);
                    submission(client, csrf_token, username, encrypted)
                },
                Err(error) => (LoginState::Finished, LoginAction::Finish(Err(error))),
            }
        },
        (LoginState::AwaitingPublicKey { csrf_token }, LoginEvent::TransportFailed) => (
            LoginState::Finished,
            LoginAction::Finish(Err(LoginError::Network(Stage::FetchPublicKey))),
        ),
        (LoginState::AwaitingLoginResult, LoginEvent::LoginResult { final_url, body, json }) => (
            LoginState::Finished,
            LoginAction::Finish(classify(final_url.as_str(), body.as_str(), json)),
        ),
        (LoginState::AwaitingLoginResult, LoginEvent::TransportFailed) => (
            LoginState::Finished,
            LoginAction::Finish(Err(LoginError::Network(Stage::SubmitLogin))),
        ),
        _ => (LoginState::Finished, LoginAction::Finish(Err(LoginError::UnexpectedEvent))),
    }
}

} // verus!
