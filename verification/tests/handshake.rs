use base64::Engine;
use rsa::BigUint;
use rsa::Pkcs1v15Encrypt;
use rsa::RsaPrivateKey;
use scau_login::client::ScauClient;
use scau_login::error::KeyField;
use scau_login::error::LoginError;
use scau_login::error::Stage;
use scau_login::login::get_rsa_public_key;
use scau_login::login::login;
use scau_login::login::public_key_url;
use scau_login::login::submission;
use scau_login::login::timed_public_key_url;
use scau_login::login::LoginAction;
use scau_login::login::LoginEvent;
use scau_login::login::LoginResponse;
use scau_login::login::LoginState;
use scau_login::login::RsaPublicKey;

const N_HEX: &str = "d12a9c9063ca860a36cc3f1239f43451ff19bb067bb77478f2fbff522ad3abd86b6e1e0e3296b887d321d70c1047bc98bf59d7a0b45d193c6169a595c0bcc6dc8864c77be6c6c71ee60738dc76d4e63b362df0d44ad6429162487580c3281a877b59436398c00d1507f98b6d412a50c3616e8373b636c9a4a8b27b6e11bc634d";
const D_HEX: &str = "02d0a1fec7790848c6e804c948026359df27077f54d6e9385f7cc8b8e05eace762babea8ce417d0646ef23a7c3e8533f7303d08517285198a06efd8d80648a00938c20603bc7571e3698f96e2b005d4067eb8636a699bbd52a0c227a80fbef586cbefb2f4cde121f588bbcdedb7cfbdb326aaa6f12183e802f3b8bec20f38881";
const P_HEX: &str = "fda2e7286e040dd4c02bc607abc004fc2592316b9be452843d4ba18afd4a7a32343541616b556485a88875fc95e49a72f48ed5a270b8ec9acdfe526e1afa41f1";
const Q_HEX: &str = "d31d9e0b71eb1933974a50d4aaffe891bc74d0c5e84d87e1a4520236f1db356abad51480b604340c910cd3abc69a13243a6902a594a36c4c1bcc34b43ed69b1d";
const N_B64_ESCAPED: &str = "0SqckGPKhgo2zD8SOfQ0Uf8ZuwZ7t3R48vv\\/UirTq9hrbh4OMpa4h9Mh1wwQR7yYv1nXoLRdGTxhaaWVwLzG3Ihkx3vmxsce5gc43HbU5js2LfDUStZCkWJIdYDDKBqHe1lDY5jADRUH+YttQSpQw2Fug3O2NsmkqLJ7bhG8Y00=";

const LOGIN_URL: &str = "https://jwzf.scau.edu.cn/jwglxt/xtgl/login_slogin.html";
const MENU_URL: &str = "https://jwzf.scau.edu.cn/jwglxt/xtgl/index_initMenu.html";
const PAGE: &str = "<input type=\"hidden\" id=\"csrftoken\" name=\"csrftoken\" value=\"t1\"/>";

fn unhex(s: &str) -> Vec<u8> {
    let digits: Vec<u8> = s.chars().map(|c| c.to_digit(16).unwrap() as u8).collect();
    digits.chunks(2).map(|pair| pair[0] * 16 + pair[1]).collect()
}

fn private_key() -> RsaPrivateKey {
    RsaPrivateKey::from_components(
        BigUint::from_bytes_be(&unhex(N_HEX)),
        BigUint::from_bytes_be(&[1, 0, 1]),
        BigUint::from_bytes_be(&unhex(D_HEX)),
        vec![BigUint::from_bytes_be(&unhex(P_HEX)), BigUint::from_bytes_be(&unhex(Q_HEX))],
    )
    .unwrap()
}

fn key_material() -> RsaPublicKey {
    RsaPublicKey { modulus: N_B64_ESCAPED.to_string(), exponent: "AQAB".to_string() }
}

fn page_event() -> LoginEvent {
    LoginEvent::LoginPage { body: PAGE.to_string() }
}

fn key_event() -> LoginEvent {
    LoginEvent::PublicKey { status: 200, key: Some(key_material()) }
}

fn awaiting_key() -> LoginState {
    LoginState::AwaitingPublicKey { csrf_token: "t1".to_string() }
}

fn failed(error: LoginError) -> (LoginState, LoginAction) {
    (LoginState::Finished, LoginAction::Finish(Err(error)))
}

fn assert_timed_key_url(url: &str) {
    let time = url
        .strip_prefix("https://jwzf.scau.edu.cn/jwglxt/xtgl/login_getPublicKey.html?time=")
        .unwrap();
    assert!(!time.is_empty());
    assert!(time.chars().all(|c| c.is_ascii_digit()));
    assert_eq!(time.parse::<i64>().unwrap().to_string(), time);
    // later than the first of January 2020, in milliseconds
    assert!(time.parse::<i64>().unwrap() > 1_577_836_800_000);
}

/// A portal that hands out the token `t1` and the test key, and lets in
/// whoever submits the expected password encrypted under that key.
fn serve(action: &LoginAction, expected_user: &str, expected_password: &str) -> LoginEvent {
    match action {
        LoginAction::FetchLoginPage { url } => {
            assert_eq!(url, LOGIN_URL);
            page_event()
        }
        LoginAction::FetchPublicKey { url } => {
            assert_timed_key_url(url);
            key_event()
        }
        LoginAction::SubmitLogin { url, referer, content_type, fields } => {
            assert_eq!(url, LOGIN_URL);
            assert_eq!(referer, LOGIN_URL);
            assert_eq!(content_type, "application/x-www-form-urlencoded");
            assert_eq!(fields.len(), 4);
            assert_eq!(fields[0], ("csrftoken".to_string(), "t1".to_string()));
            assert_eq!(fields[1], ("language".to_string(), "zh_CN".to_string()));
            assert_eq!(fields[2], ("yhm".to_string(), expected_user.to_string()));
            assert_eq!(fields[3].0, "mm");
            let cipher = base64::prelude::BASE64_STANDARD.decode(&fields[3].1).unwrap();
            let plain = private_key().decrypt(Pkcs1v15Encrypt, &cipher).unwrap();
            assert_eq!(plain, expected_password.as_bytes());
            LoginEvent::LoginResult {
                final_url: MENU_URL.to_string(),
                body: "<html>menu</html>".to_string(),
                json: None,
            }
        }
        LoginAction::Finish(outcome) => panic!("the portal was handed {:?}", outcome),
    }
}

#[test]
fn handshake_with_a_mocked_portal_ends_in_success() {
    let client = ScauClient::new();
    let mut state = LoginState::Start;
    let mut event = LoginEvent::Begin;
    let mut requests = 0;
    let outcome = loop {
        let (next, action) = login(&client, "20230001", "hunter2", state, event);
        state = next;
        if let LoginAction::Finish(outcome) = action {
            break outcome;
        }
        requests += 1;
        assert!(requests <= 3);
        event = serve(&action, "20230001", "hunter2");
    };
    assert_eq!(requests, 3);
    assert_eq!(state, LoginState::Finished);
    assert_eq!(outcome, Ok(LoginResponse { flag: true, msg: "登录成功".to_string() }));
}

#[test]
fn handshake_begins_with_the_login_page() {
    let client = ScauClient::new();
    let (state, action) = login(&client, "u", "p", LoginState::Start, LoginEvent::Begin);
    assert_eq!(state, LoginState::AwaitingLoginPage);
    assert_eq!(action, LoginAction::FetchLoginPage { url: LOGIN_URL.to_string() });
}

#[test]
fn login_page_leads_to_the_key_request() {
    let client = ScauClient::new();
    let (state, action) = login(&client, "u", "p", LoginState::AwaitingLoginPage, page_event());
    assert_eq!(state, awaiting_key());
    match action {
        LoginAction::FetchPublicKey { url } => assert_timed_key_url(&url),
        other => panic!("the step asked for {:?}", other),
    }
}

#[test]
fn login_page_without_token_ends_the_attempt() {
    let client = ScauClient::new();
    let event = LoginEvent::LoginPage { body: "<html></html>".to_string() };
    assert_eq!(
        login(&client, "u", "p", LoginState::AwaitingLoginPage, event),
        failed(LoginError::TokenNotFound)
    );
}

#[test]
fn key_leads_to_the_submission() {
    let client = ScauClient::new();
    let (state, action) = login(&client, "20230001", "hunter2", awaiting_key(), key_event());
    assert_eq!(state, LoginState::AwaitingLoginResult);
    let answer = serve(&action, "20230001", "hunter2");
    assert!(matches!(answer, LoginEvent::LoginResult { .. }));
}

#[test]
fn key_endpoint_that_refuses_ends_the_attempt() {
    let client = ScauClient::new();
    let event = LoginEvent::PublicKey { status: 500, key: Some(key_material()) };
    assert_eq!(
        login(&client, "u", "p", awaiting_key(), event),
        failed(LoginError::HttpStatus(500))
    );
    let event = LoginEvent::PublicKey { status: 302, key: None };
    assert_eq!(
        login(&client, "u", "p", awaiting_key(), event),
        failed(LoginError::HttpStatus(302))
    );
}

#[test]
fn key_that_does_not_parse_ends_the_attempt() {
    let client = ScauClient::new();
    let event = LoginEvent::PublicKey { status: 200, key: None };
    assert_eq!(login(&client, "u", "p", awaiting_key(), event), failed(LoginError::Parse));
}

#[test]
fn key_that_cannot_be_used_ends_the_attempt() {
    let client = ScauClient::new();
    let key = RsaPublicKey { modulus: "%%%".to_string(), exponent: "AQAB".to_string() };
    let event = LoginEvent::PublicKey { status: 200, key: Some(key) };
    assert_eq!(
        login(&client, "u", "p", awaiting_key(), event),
        failed(LoginError::Decode(KeyField::Modulus))
    );
    let key = RsaPublicKey { modulus: "AQAB".to_string(), exponent: "AQAB".to_string() };
    let event = LoginEvent::PublicKey { status: 200, key: Some(key) };
    assert_eq!(login(&client, "u", "p", awaiting_key(), event), failed(LoginError::InvalidKey));
}

#[test]
fn password_too_long_ends_the_attempt() {
    let client = ScauClient::new();
    let password = "x".repeat(118);
    assert_eq!(
        login(&client, "u", &password, awaiting_key(), key_event()),
        failed(LoginError::Encryption)
    );
}

#[test]
fn answer_to_the_submission_is_classified() {
    let client = ScauClient::new();
    let event = LoginEvent::LoginResult {
        final_url: LOGIN_URL.to_string(),
        body: "用户名或密码不正确".to_string(),
        json: None,
    };
    assert_eq!(
        login(&client, "u", "p", LoginState::AwaitingLoginResult, event),
        failed(LoginError::BadCredentials)
    );
    let event = LoginEvent::LoginResult {
        final_url: LOGIN_URL.to_string(),
        body: "?".to_string(),
        json: None,
    };
    assert_eq!(
        login(&client, "u", "p", LoginState::AwaitingLoginResult, event),
        failed(LoginError::Unrecognized(LOGIN_URL.to_string()))
    );
    let answer = LoginResponse { flag: false, msg: "m".to_string() };
    let event = LoginEvent::LoginResult {
        final_url: LOGIN_URL.to_string(),
        body: "{\"flag\":false,\"msg\":\"m\"}".to_string(),
        json: Some(answer.clone()),
    };
    assert_eq!(
        login(&client, "u", "p", LoginState::AwaitingLoginResult, event),
        (LoginState::Finished, LoginAction::Finish(Ok(answer)))
    );
}

#[test]
fn transport_failure_names_the_stage() {
    let client = ScauClient::new();
    assert_eq!(
        login(&client, "u", "p", LoginState::AwaitingLoginPage, LoginEvent::TransportFailed),
        failed(LoginError::Network(Stage::FetchLoginPage))
    );
    assert_eq!(
        login(&client, "u", "p", awaiting_key(), LoginEvent::TransportFailed),
        failed(LoginError::Network(Stage::FetchPublicKey))
    );
    assert_eq!(
        login(&client, "u", "p", LoginState::AwaitingLoginResult, LoginEvent::TransportFailed),
        failed(LoginError::Network(Stage::SubmitLogin))
    );
}

#[test]
fn event_out_of_turn_ends_the_attempt() {
    let client = ScauClient::new();
    assert_eq!(
        login(&client, "u", "p", LoginState::Start, page_event()),
        failed(LoginError::UnexpectedEvent)
    );
    assert_eq!(
        login(&client, "u", "p", LoginState::Start, LoginEvent::TransportFailed),
        failed(LoginError::UnexpectedEvent)
    );
    assert_eq!(
        login(&client, "u", "p", LoginState::AwaitingLoginPage, key_event()),
        failed(LoginError::UnexpectedEvent)
    );
    assert_eq!(
        login(&client, "u", "p", awaiting_key(), LoginEvent::Begin),
        failed(LoginError::UnexpectedEvent)
    );
    assert_eq!(
        login(&client, "u", "p", LoginState::AwaitingLoginResult, page_event()),
        failed(LoginError::UnexpectedEvent)
    );
    assert_eq!(
        login(&client, "u", "p", LoginState::Finished, LoginEvent::Begin),
        failed(LoginError::UnexpectedEvent)
    );
}

#[test]
fn timed_public_key_url_carries_the_present_time() {
    let client = ScauClient::new();
    let first = timed_public_key_url(&client);
    assert_timed_key_url(&first);
    let second = timed_public_key_url(&client);
    assert_timed_key_url(&second);
    let time = |url: &str| url.rsplit('=').next().unwrap().parse::<i64>().unwrap();
    assert!(time(&first) <= time(&second));
}

#[test]
fn public_key_url_carries_the_time() {
    let client = ScauClient::new();
    assert_eq!(
        public_key_url(&client, 1717171717171),
        "https://jwzf.scau.edu.cn/jwglxt/xtgl/login_getPublicKey.html?time=1717171717171"
    );
    assert_eq!(
        public_key_url(&client, 0),
        "https://jwzf.scau.edu.cn/jwglxt/xtgl/login_getPublicKey.html?time=0"
    );
    assert_eq!(
        public_key_url(&client, -42),
        "https://jwzf.scau.edu.cn/jwglxt/xtgl/login_getPublicKey.html?time=-42"
    );
}

#[test]
fn key_is_taken_only_from_an_ok_answer_that_parsed() {
    assert_eq!(get_rsa_public_key(200, Some(key_material())), Ok(key_material()));
    assert_eq!(get_rsa_public_key(200, None), Err(LoginError::Parse));
    assert_eq!(get_rsa_public_key(404, Some(key_material())), Err(LoginError::HttpStatus(404)));
    assert_eq!(get_rsa_public_key(201, Some(key_material())), Err(LoginError::HttpStatus(201)));
    assert_eq!(get_rsa_public_key(0, None), Err(LoginError::HttpStatus(0)));
}

#[test]
fn submission_builds_the_form() {
    let client = ScauClient::new();
    let (state, action) =
        submission(&client, "t1".to_string(), "20230001", Ok("Y2lwaGVy".to_string()));
    assert_eq!(state, LoginState::AwaitingLoginResult);
    assert_eq!(
        action,
        LoginAction::SubmitLogin {
            url: LOGIN_URL.to_string(),
            referer: LOGIN_URL.to_string(),
            content_type: "application/x-www-form-urlencoded".to_string(),
            fields: vec![
                ("csrftoken".to_string(), "t1".to_string()),
                ("language".to_string(), "zh_CN".to_string()),
                ("yhm".to_string(), "20230001".to_string()),
                ("mm".to_string(), "Y2lwaGVy".to_string()),
            ],
        }
    );
}

#[test]
fn submission_hands_an_error_on() {
    let client = ScauClient::new();
    assert_eq!(
        submission(&client, "t1".to_string(), "u", Err(LoginError::Encryption)),
        failed(LoginError::Encryption)
    );
}
