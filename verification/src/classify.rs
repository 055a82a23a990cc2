//! The ordered rules by which the portal's answer to a login is judged.

use vstd::prelude::*;
use vstd::string::StringExecFns;
use crate::error::LoginError;
use crate::error::LoginErrorView;
use crate::login::outcome_view;
use crate::login::LoginResponse;
use crate::login::LoginResponseView;
use crate::text::chars_of;
use crate::text::contains;
use crate::text::has_substring;

verus! {

/// The menu page of the authenticated area.
pub const MENU_MARKER: &'static str = "index_initMenu.html";

/// The index page of the authenticated area.
pub const INDEX_MARKER: &'static str = "xtgl/index.html";

/// The portal's words for a wrong user name or password.
pub const BAD_CREDENTIALS_PHRASE: &'static str = "用户名或密码不正确";

/// The portal's words for a wrong password.
pub const WRONG_PASSWORD_PHRASE: &'static str = "密码错误";

/// The portal's word for a CAPTCHA.
pub const CAPTCHA_PHRASE: &'static str = "验证码";

/// The message of a login that was judged by where it led.
pub const SUCCESS_MESSAGE: &'static str = "登录成功";

/// Where a rule looks.
#[derive(Clone, Copy, Debug, PartialEq, Eq, Structural)]
pub enum Evidence {
    /// The URL that the submission ended at, after redirects.
    FinalUrl,
    /// The body of the answer.
    Body,
}

/// What a rule concludes.
#[derive(Clone, Copy, Debug, PartialEq, Eq, Structural)]
pub enum Verdict {
    Success,
    BadCredentials,
    CaptchaRequired,
}

/// One rule: where `phrase` stands in the evidence, the verdict holds.
#[derive(Clone, Copy, Debug)]
pub struct Rule {
    pub evidence: Evidence,
    pub phrase: &'static str,
    pub verdict: Verdict,
}

/// The rules in the order of their priority: where the submission led comes
/// before what the answer says.
pub open spec fn ordered_rules() -> Seq<Rule> {
    seq![
        Rule { evidence: Evidence::FinalUrl, phrase: MENU_MARKER, verdict: Verdict::Success },
        Rule { evidence: Evidence::FinalUrl, phrase: INDEX_MARKER, verdict: Verdict::Success },
        Rule {
            evidence: Evidence::Body,
            phrase: BAD_CREDENTIALS_PHRASE,
            verdict: Verdict::BadCredentials,
        },
        Rule {
            evidence: Evidence::Body,
            phrase: WRONG_PASSWORD_PHRASE,
            verdict: Verdict::BadCredentials,
        },
        Rule { evidence: Evidence::Body, phrase: CAPTCHA_PHRASE, verdict: Verdict::CaptchaRequired },
    ]
}

/// The rule's phrase stands in its evidence.
pub open spec fn fires(rule: Rule, final_url: Seq<char>, body: Seq<char>) -> bool {
    match rule.evidence {
        Evidence::FinalUrl => contains(final_url, rule.phrase@),
        Evidence::Body => contains(body, rule.phrase@),
    }
}

/// The verdict of the first rule that fires, if one does.
pub open spec fn first_verdict(rules: Seq<Rule>, final_url: Seq<char>, body: Seq<char>) -> Option<
    Verdict,
>
    decreases rules.len(),
{
    if rules.len() == 0 {
        None
    } else if fires(rules[0], final_url, body) {
        Some(rules[0].verdict)
    } else {
        first_verdict(rules.skip(1), final_url, body)
    }
}

/// The submission ended in the authenticated area.
pub open spec fn reached_authenticated_area(final_url: Seq<char>) -> bool {
    contains(final_url, MENU_MARKER@) || contains(final_url, INDEX_MARKER@)
}

/// The answer says that user name or password are wrong.
pub open spec fn reports_bad_credentials(body: Seq<char>) -> bool {
    contains(body, BAD_CREDENTIALS_PHRASE@) || contains(body, WRONG_PASSWORD_PHRASE@)
}

/// The answer asks for a CAPTCHA.
pub open spec fn asks_for_captcha(body: Seq<char>) -> bool {
    contains(body, CAPTCHA_PHRASE@)
}

/// How the answer to a submission is judged: by where it led, then by what
/// it says, then by the response it parses to, and as unrecognized, with the
/// final URL, where none of these decides.
pub open spec fn classification(
    final_url: Seq<char>,
    body: Seq<char>,
    json: Option<LoginResponse>,
) -> Result<LoginResponseView, LoginErrorView> {
    if reached_authenticated_area(final_url) {
        Ok(LoginResponseView { flag: true, msg: SUCCESS_MESSAGE@ })
    } else if reports_bad_credentials(body) {
        Err(LoginErrorView::BadCredentials)
    } else if asks_for_captcha(body) {
        Err(LoginErrorView::CaptchaRequired)
    } else {
        match json {
            Some(response) => Ok(response@),
            None => Err(LoginErrorView::Unrecognized(final_url)),
        }
    }
}

/// The ordered rules decide as the three questions of `classification` do.
pub proof fn lemma_ordered_rules(final_url: Seq<char>, body: Seq<char>)
    ensures
        first_verdict(ordered_rules(), final_url, body) == if reached_authenticated_area(
            final_url,
        ) {
            Some(Verdict::Success)
        } else if reports_bad_credentials(body) {
            Some(Verdict::BadCredentials)
        } else if asks_for_captcha(body) {
            Some(Verdict::CaptchaRequired)
        } else {
            None
        },
{
    let rules = ordered_rules();
    assert forall|i: int| 0 <= i <= rules.len() implies first_verdict(
        #[trigger] rules.skip(i),
        final_url,
        body,
    ) == if i == rules.len() {
        None
    } else if fires(rules[i], final_url, body) {
        Some(rules[i].verdict)
    } else {
        first_verdict(rules.skip(i + 1), final_url, body)
    } by {
        if i < rules.len() {
            assert(rules.skip(i).skip(1) == rules.skip(i + 1));
        }
    }
}

/// The rules in the order of their priority.
pub fn rule_table() -> (rules: Vec<Rule>)
    ensures
        rules@ == ordered_rules(),
{
    vec![
        Rule { evidence: Evidence::FinalUrl, phrase: MENU_MARKER, verdict: Verdict::Success },
        Rule { evidence: Evidence::FinalUrl, phrase: INDEX_MARKER, verdict: Verdict::Success },
        Rule {
            evidence: Evidence::Body,
            phrase: BAD_CREDENTIALS_PHRASE,
            verdict: Verdict::BadCredentials,
        },
        Rule {
            evidence: Evidence::Body,
            phrase: WRONG_PASSWORD_PHRASE,
            verdict: Verdict::BadCredentials,
        },
        Rule { evidence: Evidence::Body, phrase: CAPTCHA_PHRASE, verdict: Verdict::CaptchaRequired },
    ]
}

/// The verdict of the first of `rules` that fires.
pub fn apply_rules(rules: &[Rule], final_url: &[char], body: &[char]) -> (verdict: Option<Verdict>)
    ensures
        verdict == first_verdict(rules@, final_url@, body@),
{
    let mut i: usize = 0;
    assert(rules@.skip(0) == rules@);
    while i < rules.len()
        invariant
            i <= rules.len(),
            first_verdict(rules@.skip(i as int), final_url@, body@) == first_verdict(
                rules@,
                final_url@,
                body@,
            ),
        decreases rules.len() - i,
    {
        let rule = rules[i];
        let phrase = chars_of(rule.phrase);
        let fired = match rule.evidence {
            Evidence::FinalUrl => has_substring(final_url, phrase.as_slice()),
            Evidence::Body => has_substring(body, phrase.as_slice()),
        };
        if fired {
            return Some(rule.verdict);
        }
        assert(rules@.skip(i as int).skip(1) == rules@.skip(i + 1));
        i += 1;
    }
    None
}

/// Judges the answer to a submission from the URL it ended at, its body, and
/// the response that the body parses to, if it does.
pub fn classify(final_url: &str, body: &str, json: Option<LoginResponse>) -> (r: Result<
    LoginResponse,
    LoginError,
>)
    ensures
        outcome_view(r) == classification(final_url@, body@, json),
        reached_authenticated_area(final_url@) ==> outcome_view(r) == Ok::<
            LoginResponseView,
            LoginErrorView,
        >(LoginResponseView { flag: true, msg: SUCCESS_MESSAGE@ }),
        !reached_authenticated_area(final_url@) && reports_bad_credentials(body@) ==> outcome_view(
            r,
        ) == Err::<LoginResponseView, LoginErrorView>(LoginErrorView::BadCredentials),
{
    let url_chars = chars_of(final_url);
    let body_chars = chars_of(body);
    let rules = rule_table();
    proof {
        lemma_ordered_rules(final_url@, body@);
    }
    match apply_rules(rules.as_slice(), url_chars.as_slice(), body_chars.as_slice()) {
        Some(Verdict::Success) => Ok(
            LoginResponse { flag: true, msg: String::from_str(SUCCESS_MESSAGE) },
        ),
        Some(Verdict::BadCredentials) => Err(LoginError::BadCredentials),
        Some(Verdict::CaptchaRequired) => Err(LoginError::CaptchaRequired),
        None => match json {
            Some(response) => Ok(response),
            None => Err(LoginError::Unrecognized(String::from_str(final_url))),
        },
    }
}

} // verus!
