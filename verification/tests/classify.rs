use scau_login::classify::apply_rules;
use scau_login::classify::classify;
use scau_login::classify::rule_table;
use scau_login::classify::Evidence;
use scau_login::classify::Rule;
use scau_login::classify::Verdict;
use scau_login::error::LoginError;
use scau_login::login::LoginResponse;

const LOGIN_URL: &str = "https://jwzf.scau.edu.cn/jwglxt/xtgl/login_slogin.html";
const MENU_URL: &str = "https://jwzf.scau.edu.cn/jwglxt/xtgl/index_initMenu.html?jsdm=xs&_t=1";
const INDEX_URL: &str = "https://jwzf.scau.edu.cn/jwglxt/xtgl/index.html";

fn success() -> LoginResponse {
    LoginResponse { flag: true, msg: "登录成功".to_string() }
}

fn chars(s: &str) -> Vec<char> {
    s.chars().collect()
}

#[test]
fn arrival_in_the_authenticated_area_is_success() {
    assert_eq!(classify(MENU_URL, "<html>菜单</html>", None), Ok(success()));
    assert_eq!(classify(INDEX_URL, "", None), Ok(success()));
}

#[test]
fn arrival_in_the_authenticated_area_is_success_whatever_the_body_says() {
    assert_eq!(classify(MENU_URL, "用户名或密码不正确", None), Ok(success()));
    assert_eq!(classify(MENU_URL, "密码错误", None), Ok(success()));
    assert_eq!(classify(INDEX_URL, "请输入验证码", None), Ok(success()));
    let refusal = LoginResponse { flag: false, msg: "no".to_string() };
    assert_eq!(classify(INDEX_URL, "{\"flag\":false,\"msg\":\"no\"}", Some(refusal)), Ok(success()));
}

#[test]
fn bad_credentials_are_told_by_the_body() {
    let body = "<p id=\"tips\">用户名或密码不正确，请重新输入！</p>";
    assert_eq!(classify(LOGIN_URL, body, None), Err(LoginError::BadCredentials));
    assert_eq!(classify(LOGIN_URL, "密码错误", None), Err(LoginError::BadCredentials));
}

#[test]
fn bad_credentials_come_before_captcha_and_json() {
    let body = "验证码 密码错误";
    assert_eq!(classify(LOGIN_URL, body, None), Err(LoginError::BadCredentials));
    assert_eq!(classify(LOGIN_URL, body, Some(success())), Err(LoginError::BadCredentials));
}

#[test]
fn captcha_is_told_by_the_body() {
    assert_eq!(classify(LOGIN_URL, "请输入验证码", None), Err(LoginError::CaptchaRequired));
    assert_eq!(
        classify(LOGIN_URL, "请输入验证码", Some(success())),
        Err(LoginError::CaptchaRequired)
    );
}

#[test]
fn parsed_answer_is_handed_on_as_it_is() {
    let refusal = LoginResponse { flag: false, msg: "账号已锁定".to_string() };
    assert_eq!(
        classify(LOGIN_URL, "{\"flag\":false,\"msg\":\"账号已锁定\"}", Some(refusal.clone())),
        Ok(refusal)
    );
    let welcome = LoginResponse { flag: true, msg: String::new() };
    assert_eq!(classify(LOGIN_URL, "{}", Some(welcome.clone())), Ok(welcome));
}

#[test]
fn anything_else_is_unrecognized_and_carries_the_url() {
    assert_eq!(
        classify(LOGIN_URL, "<html></html>", None),
        Err(LoginError::Unrecognized(LOGIN_URL.to_string()))
    );
    assert_eq!(classify("", "", None), Err(LoginError::Unrecognized(String::new())));
}

#[test]
fn markers_are_matched_letter_for_letter() {
    assert_eq!(
        classify("https://h/xtgl/INDEX.html", "", None),
        Err(LoginError::Unrecognized("https://h/xtgl/INDEX.html".to_string()))
    );
    assert_eq!(classify("https://h/a/b/xtgl/index.html#x", "", None), Ok(success()));
    assert_eq!(
        classify("index_initMenu.htm", "index_initMenu.html", None),
        Err(LoginError::Unrecognized("index_initMenu.htm".to_string()))
    );
}

#[test]
fn rules_stand_in_the_order_of_their_priority() {
    let rules = rule_table();
    assert_eq!(rules.len(), 5);
    let listed: Vec<(Evidence, &str, Verdict)> =
        rules.iter().map(|rule| (rule.evidence, rule.phrase, rule.verdict)).collect();
    assert_eq!(
        listed,
        vec![
            (Evidence::FinalUrl, "index_initMenu.html", Verdict::Success),
            (Evidence::FinalUrl, "xtgl/index.html", Verdict::Success),
            (Evidence::Body, "用户名或密码不正确", Verdict::BadCredentials),
            (Evidence::Body, "密码错误", Verdict::BadCredentials),
            (Evidence::Body, "验证码", Verdict::CaptchaRequired),
        ]
    );
}

#[test]
fn first_rule_that_fires_decides() {
    let rules = vec![
        Rule { evidence: Evidence::Body, phrase: "b", verdict: Verdict::CaptchaRequired },
        Rule { evidence: Evidence::FinalUrl, phrase: "u", verdict: Verdict::Success },
        Rule { evidence: Evidence::Body, phrase: "c", verdict: Verdict::BadCredentials },
    ];
    assert_eq!(apply_rules(&rules, &chars("u"), &chars("abc")), Some(Verdict::CaptchaRequired));
    assert_eq!(apply_rules(&rules, &chars("u"), &chars("c")), Some(Verdict::Success));
    assert_eq!(apply_rules(&rules, &chars("b"), &chars("c")), Some(Verdict::BadCredentials));
    assert_eq!(apply_rules(&rules, &chars("b"), &chars("u")), None);
    assert_eq!(apply_rules(&[], &chars("u"), &chars("b")), None);
}
