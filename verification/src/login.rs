//! The login handshake: request building, flow-token extraction and the
//! classification of an attempt.

use vstd::prelude::*;
use crate::constants::{CAPTCHA_MARKER, CAS_LOGIN_URL, FLOW_ID_SELECTOR, LOGIN_PAGE_MARKER, WRONG_CREDENTIALS_MARKER};
use crate::form::{append_query_pair, encode_form, field, fields_view, form_encoded, url_with_query_pair};
use crate::html::{matched_nodes, opt_nodes_view, select_nodes, Node, NodeView};
use crate::text::{str_contains, text_contains};

verus! {

/// How a login attempt ended.
#[derive(Debug, Clone, Copy, PartialEq, Eq, Structural)]
pub enum LoginOutcome {
    /// The browser landed on the target service.
    Success,
    /// The login page came back with the wrong-credentials marker.
    InvalidCredentials,
    /// The login page came back with the captcha marker.
    RateLimited,
    /// Anything else.
    Unknown,
}

/// Why a login attempt did not succeed.
#[derive(Debug, Clone, Copy, PartialEq, Eq, Structural)]
pub enum LoginError {
    /// The login URL could not be built.
    Config,
    /// The login page holds no flow-token control with a value.
    MissingFlowToken,
    /// The server turned the attempt down for a wrong user name or password.
    InvalidCredentials,
    /// The server asked for a captcha.
    RateLimited,
    /// The attempt failed for a reason that cannot be told.
    Unknown,
    /// An event arrived that the handshake did not wait for.
    OutOfOrder,
}

/// One rule of the body classification: where `pattern` stands in the body
/// of the login page, the attempt ended with `outcome`.
#[derive(Debug, Clone)]
pub struct MarkerRule {
    /// Matched byte for byte against the raw body, as it is written.
    pub pattern: String,
    pub outcome: LoginOutcome,
}

/// The patterns and outcomes of a list of rules, in order.
pub open spec fn rules_view(rules: Seq<MarkerRule>) -> Seq<(Seq<char>, LoginOutcome)> {
    Seq::new(rules.len(), |i: int| (rules[i].pattern@, rules[i].outcome))
}

/// The outcome that a list of rules gives a body: that of the first rule
/// whose pattern stands in it, `Unknown` where none does.
pub open spec fn first_match(body: Seq<char>, rules: Seq<(Seq<char>, LoginOutcome)>) -> LoginOutcome
    decreases rules.len(),
{
    if rules.len() == 0 {
        LoginOutcome::Unknown
    } else if text_contains(body, rules[0].0) {
        rules[0].1
    } else {
        first_match(body, rules.drop_first())
    }
}

/// The rules of the portal: wrong credentials first, then the captcha.
pub open spec fn portal_rules() -> Seq<(Seq<char>, LoginOutcome)> {
    seq![
        (WRONG_CREDENTIALS_MARKER@, LoginOutcome::InvalidCredentials),
        (CAPTCHA_MARKER@, LoginOutcome::RateLimited),
    ]
}

/// The outcome of an attempt under a list of rules, read from the URL the
/// last response came from and from its body. A response from the login
/// page is judged by its body; any other one by its URL alone.
pub open spec fn login_outcome_with(
    final_url: Seq<char>,
    body: Seq<char>,
    service_url: Seq<char>,
    rules: Seq<(Seq<char>, LoginOutcome)>,
) -> LoginOutcome {
    if text_contains(final_url, LOGIN_PAGE_MARKER@) {
        first_match(body, rules)
    } else if text_contains(final_url, service_url) {
        LoginOutcome::Success
    } else {
        LoginOutcome::Unknown
    }
}

/// The outcome of an attempt under the rules of the portal.
pub open spec fn login_outcome(final_url: Seq<char>, body: Seq<char>, service_url: Seq<char>) -> LoginOutcome {
    login_outcome_with(final_url, body, service_url, portal_rules())
}

/// Lists the rules of the portal.
pub fn default_marker_rules() -> (r: Vec<MarkerRule>)
    ensures
        rules_view(r@) == portal_rules(),
{
    let mut rules: Vec<MarkerRule> = Vec::new();
    rules.push(
        MarkerRule { pattern: WRONG_CREDENTIALS_MARKER.to_owned(), outcome: LoginOutcome::InvalidCredentials },
    );
    rules.push(MarkerRule { pattern: CAPTCHA_MARKER.to_owned(), outcome: LoginOutcome::RateLimited });
    assert(rules_view(rules@) =~= portal_rules());
    rules
}

/// Classifies the body of a login page by the first rule that matches.
pub fn classify_body(body: &str, rules: &Vec<MarkerRule>) -> (r: LoginOutcome)
    ensures
        r == first_match(body@, rules_view(rules@)),
{
    let ghost all = rules_view(rules@);
    let mut i: usize = 0;
    assert(all.skip(0) =~= all);
    while i < rules.len()
        invariant
            i <= rules@.len(),
            all == rules_view(rules@),
            first_match(body@, all) == first_match(body@, all.skip(i as int)),
        decreases rules@.len() - i,
    {
        assert(all.skip(i as int)[0] == all[i as int]);
        assert(all.skip(i as int).drop_first() =~= all.skip(i + 1));
        if str_contains(body, rules[i].pattern.as_str()) {
            return rules[i].outcome;
        }
        i += 1;
    }
    LoginOutcome::Unknown
}

/// Classifies a login attempt under a list of rules.
pub fn classify_login_with(final_url: &str, body: &str, service_url: &str, rules: &Vec<MarkerRule>) -> (r:
    LoginOutcome)
    ensures
        r == login_outcome_with(final_url@, body@, service_url@, rules_view(rules@)),
{
    if str_contains(final_url, LOGIN_PAGE_MARKER) {
        classify_body(body, rules)
    } else if str_contains(final_url, service_url) {
        LoginOutcome::Success
    } else {
        LoginOutcome::Unknown
    }
}

/// Classifies a login attempt by the URL the last response came from and by
/// its body, under the rules of the portal.
pub fn classify_login(final_url: &str, body: &str, service_url: &str) -> (r: LoginOutcome)
    ensures
        r == login_outcome(final_url@, body@, service_url@),
{
    let rules = default_marker_rules();
    classify_login_with(final_url, body, service_url, &rules)
}

/// What the caller of a login gets for an outcome.
pub open spec fn outcome_result(outcome: LoginOutcome) -> Result<(), LoginError> {
    match outcome {
        LoginOutcome::Success => Ok(()),
        LoginOutcome::InvalidCredentials => Err(LoginError::InvalidCredentials),
        LoginOutcome::RateLimited => Err(LoginError::RateLimited),
        LoginOutcome::Unknown => Err(LoginError::Unknown),
    }
}

/// Turns an outcome into the result of the login: only `Success` is `Ok`.
pub fn login_result(outcome: LoginOutcome) -> (r: Result<(), LoginError>)
    ensures
        r == outcome_result(outcome),
{
    match outcome {
        LoginOutcome::Success => Ok(()),
        LoginOutcome::InvalidCredentials => Err(LoginError::InvalidCredentials),
        LoginOutcome::RateLimited => Err(LoginError::RateLimited),
        LoginOutcome::Unknown => Err(LoginError::Unknown),
    }
}

/// A final URL that has left the login page and holds the service URL is a
/// success, whatever the body says.
pub proof fn lemma_service_url_is_success(final_url: Seq<char>, body: Seq<char>, service_url: Seq<char>)
    requires
        !text_contains(final_url, LOGIN_PAGE_MARKER@),
        text_contains(final_url, service_url),
    ensures
        login_outcome(final_url, body, service_url) == LoginOutcome::Success,
{
}

/// A final URL that has left the login page and does not hold the service
/// URL is an unknown failure, whatever the body says.
pub proof fn lemma_other_url_is_unknown(final_url: Seq<char>, body: Seq<char>, service_url: Seq<char>)
    requires
        !text_contains(final_url, LOGIN_PAGE_MARKER@),
        !text_contains(final_url, service_url),
    ensures
        login_outcome(final_url, body, service_url) == LoginOutcome::Unknown,
{
}

/// On the login page the body decides: the wrong-credentials marker comes
/// first, then the captcha marker, and without either the outcome is
/// unknown. The login page is never a success.
pub proof fn lemma_login_page_outcome(final_url: Seq<char>, body: Seq<char>, service_url: Seq<char>)
    requires
        text_contains(final_url, LOGIN_PAGE_MARKER@),
    ensures
        login_outcome(final_url, body, service_url) == if text_contains(body, WRONG_CREDENTIALS_MARKER@) {
            LoginOutcome::InvalidCredentials
        } else if text_contains(body, CAPTCHA_MARKER@) {
            LoginOutcome::RateLimited
        } else {
            LoginOutcome::Unknown
        },
        login_outcome(final_url, body, service_url) != LoginOutcome::Success,
{
    let rules = portal_rules();
    let rest = rules.drop_first();
    assert(rest.len() == 1);
    assert(rest[0] == rules[1]);
    assert(rest.drop_first().len() == 0);
    assert(first_match(body, rest.drop_first()) == LoginOutcome::Unknown);
    assert(first_match(body, rest) == if text_contains(body, CAPTCHA_MARKER@) {
        LoginOutcome::RateLimited
    } else {
        LoginOutcome::Unknown
    });
}

/// The flow token that a list of matched controls gives: the `value` of the
/// first one.
pub open spec fn flow_token_of(nodes: Option<Seq<NodeView>>) -> Option<Seq<char>> {
    match nodes {
        Some(s) => if s.len() > 0 {
            s[0].value
        } else {
            None
        },
        None => None,
    }
}

/// Picks the flow token out of the controls matched on the login page.
pub fn flow_token_from(nodes: &Option<Vec<Node>>) -> (r: Result<String, LoginError>)
    ensures
        match flow_token_of(opt_nodes_view(*nodes)) {
            Some(token) => r matches Ok(s) && s@ == token,
            None => r == Err::<String, LoginError>(LoginError::MissingFlowToken),
        },
{
    match nodes {
        Some(list) => {
            if list.len() > 0 {
                match &list[0].value {
                    Some(token) => Ok(token.clone()),
                    None => Err(LoginError::MissingFlowToken),
                }
            } else {
                Err(LoginError::MissingFlowToken)
            }
        },
        None => Err(LoginError::MissingFlowToken),
    }
}

/// Extracts the one-time flow token from the markup of the login page.
pub fn extract_flow_id(html: &str) -> (r: Result<String, LoginError>)
    ensures
        match flow_token_of(matched_nodes(html@, FLOW_ID_SELECTOR@)) {
            Some(token) => r matches Ok(s) && s@ == token,
            None => r == Err::<String, LoginError>(LoginError::MissingFlowToken),
        },
{
    let nodes = select_nodes(html, FLOW_ID_SELECTOR);
    flow_token_from(&nodes)
}

/// The address of the login page for a target service, if it can be built.
pub open spec fn login_url_of(service_url: Seq<char>) -> Option<Seq<char>> {
    url_with_query_pair(CAS_LOGIN_URL@, "service"@, service_url)
}

/// Builds the address of the login page: the login endpoint with the target
/// service as its `service` query parameter.
pub fn login_url(service_url: &str) -> (r: Result<String, LoginError>)
    ensures
        match login_url_of(service_url@) {
            Some(address) => r matches Ok(s) && s@ == address,
            None => r == Err::<String, LoginError>(LoginError::Config),
        },
{
    match append_query_pair(CAS_LOGIN_URL, "service", service_url) {
        Some(address) => Ok(address),
        None => Err(LoginError::Config),
    }
}

/// The fields of the credential form, in the order in which they are sent.
pub open spec fn login_fields(username: Seq<char>, password: Seq<char>, token: Seq<char>) -> Seq<
    (Seq<char>, Seq<char>),
> {
    seq![
        ("username"@, username),
        ("password"@, password),
        ("loginType"@, "username_password"@),
        ("flowId"@, token),
        ("submit"@, "登录"@),
        ("captcha"@, ""@),
        ("delegator"@, ""@),
        ("tokenCode"@, ""@),
    ]
}

/// Lists the fields of the credential form for one attempt.
pub fn login_form_fields(username: &str, password: &str, flow_id: &str) -> (r: Vec<(String, String)>)
    ensures
        fields_view(r@) == login_fields(username@, password@, flow_id@),
{
    let mut fields: Vec<(String, String)> = Vec::new();
    fields.push(field("username", username));
    fields.push(field("password", password));
    fields.push(field("loginType", "username_password"));
    fields.push(field("flowId", flow_id));
    fields.push(field("submit", "登录"));
    fields.push(field("captcha", ""));
    fields.push(field("delegator", ""));
    fields.push(field("tokenCode", ""));
    assert(fields_view(fields@) =~= login_fields(username@, password@, flow_id@));
    fields
}

/// Builds the body of the credential submission.
pub fn login_form_body(username: &str, password: &str, flow_id: &str) -> (r: String)
    ensures
        r@ == form_encoded(login_fields(username@, password@, flow_id@)),
{
    let fields = login_form_fields(username, password, flow_id);
    encode_form(&fields)
}

/// What a login attempt is made with.
#[derive(Debug, Clone)]
pub struct Credentials {
    pub username: String,
    pub password: String,
    /// The service the login is for.
    pub service_url: String,
}

/// Where a login attempt stands.
#[derive(Debug)]
pub enum LoginState {
    /// Nothing has been sent.
    Start,
    /// The login page was asked for at `login_url`.
    AwaitingPage { login_url: String },
    /// The credentials were submitted.
    AwaitingOutcome,
    /// The attempt is over.
    Done,
}

/// What the caller reports back to the handshake.
#[derive(Debug)]
pub enum LoginEvent {
    /// The attempt starts.
    Begin,
    /// The login page arrived.
    PageFetched { html: String },
    /// The credential submission was answered, after redirects, from
    /// `final_url` with `body`.
    Landed { final_url: String, body: String },
}

/// What the caller has to do next.
#[derive(Debug)]
pub enum LoginAction {
    /// Fetch `url` with GET and report the page.
    Get { url: String },
    /// POST the form body `body` to `url` and report where it landed.
    PostForm { url: String, body: String },
    /// Stop: the attempt ended with `result`.
    Finish { result: Result<(), LoginError> },
}

/// The step ends the attempt with `result`.
pub open spec fn finishes(step: (LoginState, LoginAction), result: Result<(), LoginError>) -> bool {
    &&& step.0 is Done
    &&& step.1 == (LoginAction::Finish { result })
}

/// The step the handshake takes from `state` on `event`.
///
/// The three exchanges follow each other strictly: the page request, the
/// credential submission with the token of the page just fetched, and the
/// classification. An event that the state did not wait for ends the attempt
/// with `OutOfOrder`; no step is ever repeated.
pub open spec fn login_step_spec(
    credentials: Credentials,
    state: LoginState,
    event: LoginEvent,
    step: (LoginState, LoginAction),
) -> bool {
    match (state, event) {
        (LoginState::Start, LoginEvent::Begin) => match login_url_of(credentials.service_url@) {
            Some(address) => {
                &&& step.0 matches LoginState::AwaitingPage { login_url }
                &&& login_url@ == address
                &&& step.1 matches LoginAction::Get { url }
                &&& url@ == address
            },
            None => finishes(step, Err(LoginError::Config)),
        },
        (LoginState::AwaitingPage { login_url }, LoginEvent::PageFetched { html }) => match flow_token_of(
            matched_nodes(html@, FLOW_ID_SELECTOR@),
        ) {
            Some(token) => {
                &&& step.0 is AwaitingOutcome
                &&& step.1 matches LoginAction::PostForm { url, body }
                &&& url@ == login_url@
                &&& body@ == form_encoded(login_fields(credentials.username@, credentials.password@, token))
            },
            None => finishes(step, Err(LoginError::MissingFlowToken)),
        },
        (LoginState::AwaitingOutcome, LoginEvent::Landed { final_url, body }) => finishes(
            step,
            outcome_result(
                login_outcome(final_url@, body@, credentials.service_url@),
            ),
        ),
        _ => finishes(step, Err(LoginError::OutOfOrder)),
    }
}

/// Advances the login handshake by one event and says what to do next.
pub fn login_step(credentials: &Credentials, state: LoginState, event: LoginEvent) -> (r: (
    LoginState,
    LoginAction,
))
    ensures
        login_step_spec(*credentials, state, event, r),
{
    match (state, event) {
        (LoginState::Start, LoginEvent::Begin) => match login_url(credentials.service_url.as_str()) {
            Ok(address) => {
                let url = address.clone();
                (LoginState::AwaitingPage { login_url: address }, LoginAction::Get { url })
            },
            Err(error) => (LoginState::Done, LoginAction::Finish { result: Err(error) }),
        },
        (LoginState::AwaitingPage { login_url }, LoginEvent::PageFetched { html }) => match extract_flow_id(
            html.as_str(),
        ) {
            Ok(token) => {
                let body = login_form_body(
                    credentials.username.as_str(),
                    credentials.password.as_str(),
                    token.as_str(),
                );
                (LoginState::AwaitingOutcome, LoginAction::PostForm { url: login_url, body })
            },
            Err(error) => (LoginState::Done, LoginAction::Finish { result: Err(error) }),
        },
        (LoginState::AwaitingOutcome, LoginEvent::Landed { final_url, body }) => {
            let outcome = classify_login(final_url.as_str(), body.as_str(), credentials.service_url.as_str());
            (LoginState::Done, LoginAction::Finish { result: login_result(outcome) })
        },
        _ => (LoginState::Done, LoginAction::Finish { result: Err(LoginError::OutOfOrder) }),
    }
}

} // verus!
