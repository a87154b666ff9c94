//! The login flow against the identity provider.

use vstd::prelude::*;
use vstd::string::*;
use crate::credential::{
    can_seal, encrypt_password, is_credential, seal_error,
};
use crate::http::{
    fields_view, is_redirect, Body, BodyView, Field, LocationView, Location, Method, Payload, PayloadView,
    ReadBody, Request, RequestView, Response, ResponseView, FOUND, OK,
};
use crate::json::{lemma_object_view, members_view, Json, JsonView, Member, MemberView};
use crate::mfa::{detect_request, detect_request_of, mfa_state, mfa_state_of};
use crate::redirect::{
    FollowStep, FollowStepView, FollowerView, RedirectFollower, StopRule, StopRuleView, MAX_HOPS,
};
use crate::text::{decimal, to_decimal};
use crate::tokens::{
    extract_tokens, page_tokens, LoginFormTokens, LoginFormTokensView,
};

verus! {

/// The service a login is for. It decides where the flow enters and how a
/// successful login is recognised.
#[derive(Clone, Copy, Debug, PartialEq, Eq, Structural)]
pub enum Service {
    AiPlatform,
    CourseSelection,
}

impl Service {
    /// The service's name for people.
    pub fn label(&self) -> (name: &'static str)
        ensures
            name@ == match *self {
                Service::AiPlatform => "AI 平台"@,
                Service::CourseSelection => "选课系统"@,
            },
    {
        match self {
            Service::AiPlatform => "AI 平台",
            Service::CourseSelection => "选课系统",
        }
    }
}

/// Why a login attempt was given up.
#[derive(Debug, PartialEq, Eq)]
pub enum LoginError {
    /// The transport could not complete a request; its message.
    RequestError(String),
    /// The detection endpoint answered with something else than
    /// `{"data": {"state": "<text>"}}`; the answer, if it was JSON at all.
    MFADetectFailure(Option<Json>),
    /// A step needed a particular status (a redirect with a usable
    /// `Location`, or a plain 200) and got this status from this URL.
    ExpectedRedirect(String, u16),
    /// The attempt had already ended in failure.
    LoginFailed,
    /// The provider's answer did not have the expected shape.
    Other(String),
}

/// The mathematical value of a `LoginError`.
pub enum LoginErrorView {
    RequestError(Seq<char>),
    MFADetectFailure(Option<JsonView>),
    ExpectedRedirect(Seq<char>, u16),
    LoginFailed,
    Other(Seq<char>),
}

impl View for LoginError {
    type V = LoginErrorView;

    open spec fn view(&self) -> LoginErrorView {
        match self {
            LoginError::RequestError(m) => LoginErrorView::RequestError(m@),
            LoginError::MFADetectFailure(j) => LoginErrorView::MFADetectFailure(
                match j {
                    Some(j) => Some(j@),
                    None => None,
                },
            ),
            LoginError::ExpectedRedirect(url, status) => LoginErrorView::ExpectedRedirect(
                url@,
                *status,
            ),
            LoginError::LoginFailed => LoginErrorView::LoginFailed,
            LoginError::Other(m) => LoginErrorView::Other(m@),
        }
    }
}

/// What `truncate_string` returns: `s` itself when it has at most `max_len`
/// characters, otherwise its first `max_len` characters followed by the
/// number of characters left out.
pub open spec fn truncated(s: Seq<char>, max_len: nat) -> Seq<char> {
    if s.len() <= max_len {
        s
    } else {
        s.subrange(0, max_len as int) + "... ("@ + decimal((s.len() - max_len) as nat)
            + " truncated)"@
    }
}

/// Shortens a sensitive value for a log line: at most `max_len` characters
/// are kept, and the count of omitted characters is appended.
pub fn truncate_string(s: &str, max_len: usize) -> (out: String)
    ensures
        out@ == truncated(s@, max_len as nat),
{
    let n = s.unicode_len();
    if n <= max_len {
        String::from_str(s)
    } else {
        let mut out = String::from_str(s.substring_char(0, max_len));
        out.append("... (");
        let omitted = to_decimal((n - max_len) as u64);
        out.append(omitted.as_str());
        out.append(" truncated)");
        out
    }
}

/// Who logs in, where, and with which key the password is encrypted.
#[derive(Debug, PartialEq, Eq)]
pub struct Account {
    pub service: Service,
    pub username: String,
    pub password: String,
    pub public_key_pem: String,
}

/// The mathematical value of an `Account`.
pub struct AccountView {
    pub service: Service,
    pub username: Seq<char>,
    pub password: Seq<char>,
    pub public_key_pem: Seq<char>,
}

impl View for Account {
    type V = AccountView;

    open spec fn view(&self) -> AccountView {
        AccountView {
            service: self.service,
            username: self.username@,
            password: self.password@,
            public_key_pem: self.public_key_pem@,
        }
    }
}

/// Where a login attempt stands.
#[derive(Debug, PartialEq, Eq)]
pub enum Phase {
    /// Finding the URL the login starts from: waiting for the answer to the
    /// initiation request, or following the service's entry URL.
    ResolveEntryUrl(Option<RedirectFollower>),
    /// Following the entry URL to the login page.
    FetchLoginPage(RedirectFollower),
    /// The page's tokens are in hand; the password is to be encrypted.
    EncryptCredential { endpoint: String, tokens: LoginFormTokens },
    /// Waiting for the detection endpoint's answer.
    DetectMfa { endpoint: String, tokens: LoginFormTokens, credential: String },
    /// Waiting for the answer to the login submission.
    SubmitLogin,
    /// Following the redirects that a successful submission sets off.
    FollowSuccessRedirects(RedirectFollower),
    /// The session is logged in.
    Authenticated,
    /// The attempt failed; nothing leaves this phase.
    Failed,
}

/// The mathematical value of a `Phase`.
pub enum PhaseView {
    ResolveEntryUrl(Option<FollowerView>),
    FetchLoginPage(FollowerView),
    EncryptCredential { endpoint: Seq<char>, tokens: LoginFormTokensView },
    DetectMfa { endpoint: Seq<char>, tokens: LoginFormTokensView, credential: Seq<char> },
    SubmitLogin,
    FollowSuccessRedirects(FollowerView),
    Authenticated,
    Failed,
}

impl View for Phase {
    type V = PhaseView;

    open spec fn view(&self) -> PhaseView {
        match self {
            Phase::ResolveEntryUrl(f) => PhaseView::ResolveEntryUrl(
                match f {
                    Some(f) => Some(f@),
                    None => None,
                },
            ),
            Phase::FetchLoginPage(f) => PhaseView::FetchLoginPage(f@),
            Phase::EncryptCredential { endpoint, tokens } => PhaseView::EncryptCredential {
                endpoint: endpoint@,
                tokens: tokens@,
            },
            Phase::DetectMfa { endpoint, tokens, credential } => PhaseView::DetectMfa {
                endpoint: endpoint@,
                tokens: tokens@,
                credential: credential@,
            },
            Phase::SubmitLogin => PhaseView::SubmitLogin,
            Phase::FollowSuccessRedirects(f) => PhaseView::FollowSuccessRedirects(f@),
            Phase::Authenticated => PhaseView::Authenticated,
            Phase::Failed => PhaseView::Failed,
        }
    }
}

/// What the transport reports back for the request it was given.
#[derive(Debug, PartialEq, Eq)]
pub enum Event {
    /// The request was answered.
    Response(Response),
    /// The request could not be completed; the transport's message.
    TransportFailed(String),
}

/// The mathematical value of an `Event`.
pub enum EventView {
    Response(ResponseView),
    TransportFailed(Seq<char>),
}

impl View for Event {
    type V = EventView;

    open spec fn view(&self) -> EventView {
        match self {
            Event::Response(r) => EventView::Response(r@),
            Event::TransportFailed(m) => EventView::TransportFailed(m@),
        }
    }
}

/// What is to be done next for a login attempt.
#[derive(Debug, PartialEq, Eq)]
pub enum Action {
    /// Send this request and report what came of it.
    Send(Request),
    /// Encrypt the password and hand in the credential.
    Encrypt,
    /// The login succeeded: the transport's cookies are the session.
    Done,
    /// The login failed.
    Abort(LoginError),
}

/// The mathematical value of an `Action`.
pub enum ActionView {
    Send(RequestView),
    Encrypt,
    Done,
    Abort(LoginErrorView),
}

impl View for Action {
    type V = ActionView;

    open spec fn view(&self) -> ActionView {
        match self {
            Action::Send(r) => ActionView::Send(r@),
            Action::Encrypt => ActionView::Encrypt,
            Action::Done => ActionView::Done,
            Action::Abort(e) => ActionView::Abort(e@),
        }
    }
}

/// One login attempt: a state machine that is told what the transport saw
/// and answers with what to do next. Nothing is retried; an attempt that
/// failed stays failed, and a new attempt starts from scratch.
#[derive(Debug, PartialEq, Eq)]
pub struct LoginFlow {
    pub account: Account,
    pub phase: Phase,
}

/// The mathematical value of a `LoginFlow`.
pub struct FlowView {
    pub account: AccountView,
    pub phase: PhaseView,
}

impl View for LoginFlow {
    type V = FlowView;

    open spec fn view(&self) -> FlowView {
        FlowView { account: self.account@, phase: self.phase@ }
    }
}

/// The endpoint that starts a login to the AI platform.
pub open spec fn ai_login_url() -> Seq<char> {
    "https://ai.xjtu.edu.cn/api/auth/login"@
}

/// The URL through which the course selection service is entered.
pub open spec fn course_entry_url() -> Seq<char> {
    "https://xkfw.xjtu.edu.cn/xsxkapp/sys/xsxkapp/*default/index.do"@
}

/// The path that the AI platform redirects a successful login to.
pub open spec fn success_path() -> Seq<char> {
    "/login-success"@
}

/// The message for a body that could not be read as what was asked for.
pub open spec fn undecodable_body() -> Seq<char> {
    "error decoding response body"@
}

/// The document that asks the AI platform to start a login.
pub open spec fn ai_login_document() -> JsonView {
    JsonView::Object(
        seq![
            MemberView { key: "SSO"@, value: JsonView::Text("Oauth"@) },
            MemberView { key: "IdpID"@, value: JsonView::Text("1"@) },
            MemberView { key: "RedirectUrl"@, value: JsonView::Text("/"@) },
        ],
    )
}

/// The login submission: the fixed field set of the provider's form.
pub open spec fn login_request_of(
    endpoint: Seq<char>,
    username: Seq<char>,
    credential: Seq<char>,
    execution: Seq<char>,
    fingerprint: Seq<char>,
    mfa_state: Seq<char>,
) -> RequestView {
    RequestView {
        method: Method::Post,
        url: endpoint,
        payload: PayloadView::Form(
            seq![
                ("username"@, username),
                ("password"@, credential),
                ("execution"@, execution),
                ("submit1"@, "Login1"@),
                ("_eventId"@, "submit"@),
                ("geolocation"@, ""@),
                ("trustAgent"@, ""@),
                ("fpVisitorId"@, fingerprint),
                ("trustAgent"@, ""@),
                ("captcha"@, ""@),
                ("currentMenu"@, "1"@),
                ("failN"@, "0"@),
                ("mfaState"@, mfa_state),
            ],
        ),
        read: ReadBody::Nothing,
    }
}

impl Service {
    /// The rule that ends the redirects after a successful submission
    /// early: the AI platform's chain is caught at the redirect to its
    /// success path; the course selection's chain runs to its end.
    pub open spec fn stop_rule_of(self) -> Option<StopRuleView> {
        match self {
            Service::AiPlatform => Some(StopRuleView { success_prefix: success_path() }),
            Service::CourseSelection => None,
        }
    }

    /// The status of the response that shows a login to have succeeded:
    /// for the AI platform the redirect to the success path, for the course
    /// selection a plain page.
    pub open spec fn final_status_of(self) -> u16 {
        match self {
            Service::AiPlatform => FOUND,
            Service::CourseSelection => OK,
        }
    }

    /// The phase and the request a login to the service starts with.
    pub open spec fn entry_of(self) -> (PhaseView, RequestView) {
        match self {
            Service::AiPlatform => (
                PhaseView::ResolveEntryUrl(None),
                RequestView {
                    method: Method::Post,
                    url: ai_login_url(),
                    payload: PayloadView::Json(ai_login_document()),
                    read: ReadBody::Json,
                },
            ),
            Service::CourseSelection => (
                PhaseView::ResolveEntryUrl(
                    Some(FollowerView::fresh(course_entry_url(), None, ReadBody::Nothing)),
                ),
                RequestView::get(course_entry_url(), ReadBody::Nothing),
            ),
        }
    }

    /// See `stop_rule_of`.
    pub fn success_predicate(&self) -> (rule: Option<StopRule>)
        ensures
            match rule {
                Some(r) => self.stop_rule_of() == Some(r@),
                None => self.stop_rule_of() is None,
            },
    {
        match self {
            Service::AiPlatform => Some(
                StopRule { success_prefix: String::from_str("/login-success") },
            ),
            Service::CourseSelection => None,
        }
    }

    /// See `final_status_of`.
    pub fn final_status(&self) -> (status: u16)
        ensures
            status == self.final_status_of(),
    {
        match self {
            Service::AiPlatform => FOUND,
            Service::CourseSelection => OK,
        }
    }

    /// See `entry_of`.
    pub fn entry_url_resolver(&self) -> (entry: (Phase, Request))
        ensures
            (entry.0@, entry.1@) == self.entry_of(),
    {
        match self {
            Service::AiPlatform => {
                let mut members: Vec<Member> = Vec::new();
                members.push(
                    Member { key: String::from_str("SSO"), value: Json::Text(String::from_str("Oauth")) },
                );
                members.push(
                    Member { key: String::from_str("IdpID"), value: Json::Text(String::from_str("1")) },
                );
                members.push(
                    Member {
                        key: String::from_str("RedirectUrl"),
                        value: Json::Text(String::from_str("/")),
                    },
                );
                proof {
                    lemma_object_view(members);
                    assert(members_view(members@) =~= ai_login_document()->Object_0);
                }
                let request = Request {
                    method: Method::Post,
                    url: String::from_str("https://ai.xjtu.edu.cn/api/auth/login"),
                    payload: Payload::Json(Json::Object(members)),
                    read: ReadBody::Json,
                };
                (Phase::ResolveEntryUrl(None), request)
            },
            Service::CourseSelection => {
                let follower = RedirectFollower::new(
                    String::from_str(
                        "https://xkfw.xjtu.edu.cn/xsxkapp/sys/xsxkapp/*default/index.do",
                    ),
                    None,
                    ReadBody::Nothing,
                );
                let request = follower.request();
                (Phase::ResolveEntryUrl(Some(follower)), request)
            },
        }
    }
}

/// The entry URL in the AI platform's answer to the initiation request:
/// the text at `redirect_uri` of a JSON object.
pub open spec fn entry_url_of(body: BodyView) -> Result<Seq<char>, LoginErrorView> {
    match body {
        BodyView::Json(answer) => if answer is Object {
            match answer.member("redirect_uri"@) {
                Some(JsonView::Text(url)) => Ok(url),
                _ => Err(LoginErrorView::Other("No url found in login start response"@)),
            }
        } else {
            Err(LoginErrorView::Other("Unexpected login start response"@))
        },
        BodyView::Failed(message) => Err(LoginErrorView::RequestError(message)),
        _ => Err(LoginErrorView::RequestError(undecodable_body())),
    }
}

/// The target of the redirect that must answer the login submission: the
/// `Location` text of a 302. Anything else is an error that names the URL
/// and the status.
pub open spec fn redirect_target_of(resp: ResponseView) -> Result<Seq<char>, LoginErrorView> {
    if resp.status != FOUND {
        Err(LoginErrorView::ExpectedRedirect(resp.url, resp.status))
    } else {
        match resp.location {
            LocationView::Text(target) => Ok(target),
            _ => Err(LoginErrorView::ExpectedRedirect(resp.url, resp.status)),
        }
    }
}

impl FlowView {
    /// The attempt fails with `error`.
    pub open spec fn fail(account: AccountView, error: LoginErrorView) -> (FlowView, ActionView) {
        (FlowView { account, phase: PhaseView::Failed }, ActionView::Abort(error))
    }

    /// The attempt goes on in `phase` with the request `request`.
    pub open spec fn send(account: AccountView, phase: PhaseView, request: RequestView) -> (
        FlowView,
        ActionView,
    ) {
        (FlowView { account, phase }, ActionView::Send(request))
    }

    /// The attempt goes on to fetch the login page from `url`.
    pub open spec fn fetch_login_page(account: AccountView, url: Seq<char>) -> (
        FlowView,
        ActionView,
    ) {
        Self::send(
            account,
            PhaseView::FetchLoginPage(FollowerView::fresh(url, None, ReadBody::Text)),
            RequestView::get(url, ReadBody::Text),
        )
    }

    /// What follows from the login page `page`: its URL is where the login
    /// is submitted to, and its tokens go into the submission.
    pub open spec fn on_login_page(account: AccountView, page: ResponseView) -> (
        FlowView,
        ActionView,
    ) {
        match page.body {
            BodyView::Text(html) => match page_tokens(html) {
                Ok(tokens) => (
                    FlowView {
                        account,
                        phase: PhaseView::EncryptCredential { endpoint: page.url, tokens },
                    },
                    ActionView::Encrypt,
                ),
                Err(e) => Self::fail(account, e),
            },
            BodyView::Failed(message) => Self::fail(account, LoginErrorView::RequestError(message)),
            _ => Self::fail(account, LoginErrorView::RequestError(undecodable_body())),
        }
    }

    /// What follows from the last response `last` of the redirects after
    /// the submission: the login succeeded if it has the status that the
    /// service ends on.
    pub open spec fn on_landing(account: AccountView, last: ResponseView) -> (
        FlowView,
        ActionView,
    ) {
        if last.status == account.service.final_status_of() {
            (FlowView { account, phase: PhaseView::Authenticated }, ActionView::Done)
        } else {
            Self::fail(account, LoginErrorView::ExpectedRedirect(last.url, last.status))
        }
    }

    /// What follows from the answer `resp` in a phase that waits for one.
    pub open spec fn responded(account: AccountView, phase: PhaseView, resp: ResponseView) -> (
        FlowView,
        ActionView,
    ) {
        match phase {
            PhaseView::ResolveEntryUrl(None) => match entry_url_of(resp.body) {
                Ok(url) => Self::fetch_login_page(account, url),
                Err(e) => Self::fail(account, e),
            },
            PhaseView::ResolveEntryUrl(Some(f)) => match f.after(resp) {
                FollowStepView::Request(next) => Self::send(
                    account,
                    PhaseView::ResolveEntryUrl(Some(next)),
                    next.request(),
                ),
                FollowStepView::Finished(last) => Self::fetch_login_page(account, last.url),
                FollowStepView::Failed(e) => Self::fail(account, e),
            },
            PhaseView::FetchLoginPage(f) => match f.after(resp) {
                FollowStepView::Request(next) => Self::send(
                    account,
                    PhaseView::FetchLoginPage(next),
                    next.request(),
                ),
                FollowStepView::Finished(page) => Self::on_login_page(account, page),
                FollowStepView::Failed(e) => Self::fail(account, e),
            },
            PhaseView::DetectMfa { endpoint, tokens, credential } => match mfa_state_of(
                resp.body,
            ) {
                Ok(state) => Self::send(
                    account,
                    PhaseView::SubmitLogin,
                    login_request_of(
                        endpoint,
                        account.username,
                        credential,
                        tokens.execution,
                        tokens.visitor_fingerprint,
                        state,
                    ),
                ),
                Err(e) => Self::fail(account, e),
            },
            PhaseView::SubmitLogin => match redirect_target_of(resp) {
                Ok(target) => Self::send(
                    account,
                    PhaseView::FollowSuccessRedirects(
                        FollowerView::fresh(target, account.service.stop_rule_of(), ReadBody::Nothing),
                    ),
                    RequestView::get(target, ReadBody::Nothing),
                ),
                Err(e) => Self::fail(account, e),
            },
            PhaseView::FollowSuccessRedirects(f) => match f.after(resp) {
                FollowStepView::Request(next) => Self::send(
                    account,
                    PhaseView::FollowSuccessRedirects(next),
                    next.request(),
                ),
                FollowStepView::Finished(last) => Self::on_landing(account, last),
                FollowStepView::Failed(e) => Self::fail(account, e),
            },
            PhaseView::EncryptCredential { .. } => (
                FlowView { account, phase },
                ActionView::Encrypt,
            ),
            PhaseView::Authenticated => (FlowView { account, phase }, ActionView::Done),
            PhaseView::Failed => (
                FlowView { account, phase },
                ActionView::Abort(LoginErrorView::LoginFailed),
            ),
        }
    }

    /// Whether the flow waits for the transport to report on a request.
    pub open spec fn awaits_response(self) -> bool {
        !(self.phase is EncryptCredential || self.phase is Authenticated || self.phase is Failed)
    }

    /// The flow and the next action after the transport reported `event`.
    /// A flow that waits for no report stays as it is and repeats what it
    /// is waiting for.
    pub open spec fn received(self, event: EventView) -> (FlowView, ActionView) {
        if self.awaits_response() {
            match event {
                EventView::Response(resp) => Self::responded(self.account, self.phase, resp),
                EventView::TransportFailed(message) => Self::fail(
                    self.account,
                    LoginErrorView::RequestError(message),
                ),
            }
        } else {
            match self.phase {
                PhaseView::EncryptCredential { .. } => (self, ActionView::Encrypt),
                PhaseView::Authenticated => (self, ActionView::Done),
                _ => (self, ActionView::Abort(LoginErrorView::LoginFailed)),
            }
        }
    }

    /// The flow and the next action after the outcome `credential` of the
    /// encryption was handed in. Out of turn it fails the attempt, unless
    /// the attempt is over already.
    pub open spec fn submitted(self, credential: Result<Seq<char>, LoginErrorView>) -> (
        FlowView,
        ActionView,
    ) {
        match self.phase {
            PhaseView::EncryptCredential { endpoint, tokens } => match credential {
                Ok(c) => Self::send(
                    self.account,
                    PhaseView::DetectMfa { endpoint, tokens, credential: c },
                    detect_request_of(self.account.username, c, tokens.visitor_fingerprint),
                ),
                Err(e) => Self::fail(self.account, e),
            },
            PhaseView::Authenticated => (self, ActionView::Done),
            _ => Self::fail(self.account, LoginErrorView::LoginFailed),
        }
    }

    /// Whether `credential` can be what encrypting the account's password
    /// came to: a credential under the account's key if the password fits
    /// the key, and the reason for the failure if not.
    pub open spec fn admits(self, credential: Result<Seq<char>, LoginErrorView>) -> bool {
        let pem = self.account.public_key_pem;
        let len = vstd::utf8::encode_utf8(self.account.password).len();
        match credential {
            Ok(c) => can_seal(pem, len) && is_credential(c, pem),
            Err(e) => !can_seal(pem, len) && e == seal_error(pem, len),
        }
    }
}

/// The attempt fails with `error`.
fn fail(account: Account, error: LoginError) -> (next: (LoginFlow, Action))
    ensures
        (next.0@, next.1@) == FlowView::fail(account@, error@),
{
    (LoginFlow { account, phase: Phase::Failed }, Action::Abort(error))
}

/// The attempt goes on to fetch the login page from `url`.
fn fetch_login_page(account: Account, url: String) -> (next: (LoginFlow, Action))
    ensures
        (next.0@, next.1@) == FlowView::fetch_login_page(account@, url@),
{
    let follower = RedirectFollower::new(url, None, ReadBody::Text);
    let request = follower.request();
    (LoginFlow { account, phase: Phase::FetchLoginPage(follower) }, Action::Send(request))
}

/// Reads the entry URL from the AI platform's answer to the initiation
/// request.
pub fn entry_url(body: Body) -> (url: Result<String, LoginError>)
    ensures
        match url {
            Ok(u) => entry_url_of(body@) == Ok::<Seq<char>, LoginErrorView>(u@),
            Err(e) => entry_url_of(body@) == Err::<Seq<char>, LoginErrorView>(e@),
        },
{
    match body {
        Body::Json(answer) => {
            match &answer {
                Json::Object(_) => {
                    match answer.get("redirect_uri") {
                        Some(Json::Text(url)) => Ok(url.clone()),
                        _ => Err(
                            LoginError::Other(
                                String::from_str("No url found in login start response"),
                            ),
                        ),
                    }
                },
                _ => Err(LoginError::Other(String::from_str("Unexpected login start response"))),
            }
        },
        Body::Failed(message) => Err(LoginError::RequestError(message)),
        _ => Err(LoginError::RequestError(String::from_str("error decoding response body"))),
    }
}

/// Takes the redirect target out of the answer to the login submission.
pub fn expect_redirect(resp: Response) -> (target: Result<String, LoginError>)
    ensures
        match target {
            Ok(t) => redirect_target_of(resp@) == Ok::<Seq<char>, LoginErrorView>(t@),
            Err(e) => redirect_target_of(resp@) == Err::<Seq<char>, LoginErrorView>(e@),
        },
{
    if resp.status != FOUND {
        Err(LoginError::ExpectedRedirect(resp.url, resp.status))
    } else {
        match resp.location {
            Location::Text(target) => Ok(target),
            _ => Err(LoginError::ExpectedRedirect(resp.url, resp.status)),
        }
    }
}

/// Builds the login submission.
pub fn login_request(
    endpoint: &str,
    username: &str,
    credential: &str,
    execution: &str,
    fingerprint: &str,
    mfa_state: &str,
) -> (req: Request)
    ensures
        req@ == login_request_of(
            endpoint@,
            username@,
            credential@,
            execution@,
            fingerprint@,
            mfa_state@,
        ),
{
    let mut fields: Vec<Field> = Vec::new();
    fields.push(Field::new("username", username));
    fields.push(Field::new("password", credential));
    fields.push(Field::new("execution", execution));
    fields.push(Field::new("submit1", "Login1"));
    fields.push(Field::new("_eventId", "submit"));
    fields.push(Field::new("geolocation", ""));
    fields.push(Field::new("trustAgent", ""));
    fields.push(Field::new("fpVisitorId", fingerprint));
    fields.push(Field::new("trustAgent", ""));
    fields.push(Field::new("captcha", ""));
    fields.push(Field::new("currentMenu", "1"));
    fields.push(Field::new("failN", "0"));
    fields.push(Field::new("mfaState", mfa_state));
    assert(fields_view(fields@) =~= login_request_of(
        endpoint@,
        username@,
        credential@,
        execution@,
        fingerprint@,
        mfa_state@,
    ).payload->Form_0);
    Request::post_form(endpoint, fields, ReadBody::Nothing)
}

/// What follows from the login page.
fn on_login_page(account: Account, page: Response) -> (next: (LoginFlow, Action))
    ensures
        (next.0@, next.1@) == FlowView::on_login_page(account@, page@),
{
    match page.body {
        Body::Text(html) => match extract_tokens(html.as_str()) {
            Ok(tokens) => (
                LoginFlow { account, phase: Phase::EncryptCredential { endpoint: page.url, tokens } },
                Action::Encrypt,
            ),
            Err(e) => fail(account, e),
        },
        Body::Failed(message) => fail(account, LoginError::RequestError(message)),
        _ => fail(
            account,
            LoginError::RequestError(String::from_str("error decoding response body")),
        ),
    }
}

/// What follows from the last response of the redirects after the
/// submission.
fn on_landing(account: Account, last: Response) -> (next: (LoginFlow, Action))
    ensures
        (next.0@, next.1@) == FlowView::on_landing(account@, last@),
{
    if last.status == account.service.final_status() {
        (LoginFlow { account, phase: Phase::Authenticated }, Action::Done)
    } else {
        fail(account, LoginError::ExpectedRedirect(last.url, last.status))
    }
}

/// What follows from the answer `resp` in phase `phase`.
fn on_response(account: Account, phase: Phase, resp: Response) -> (next: (LoginFlow, Action))
    ensures
        (next.0@, next.1@) == FlowView::responded(account@, phase@, resp@),
{
    match phase {
        Phase::ResolveEntryUrl(None) => match entry_url(resp.body) {
            Ok(url) => fetch_login_page(account, url),
            Err(e) => fail(account, e),
        },
        Phase::ResolveEntryUrl(Some(follower)) => match follower.on_response(resp) {
            FollowStep::Request(next) => {
                let request = next.request();
                (
                    LoginFlow { account, phase: Phase::ResolveEntryUrl(Some(next)) },
                    Action::Send(request),
                )
            },
            FollowStep::Finished(last) => fetch_login_page(account, last.url),
            FollowStep::Failed(e) => fail(account, e),
        },
        Phase::FetchLoginPage(follower) => match follower.on_response(resp) {
            FollowStep::Request(next) => {
                let request = next.request();
                (LoginFlow { account, phase: Phase::FetchLoginPage(next) }, Action::Send(request))
            },
            FollowStep::Finished(page) => on_login_page(account, page),
            FollowStep::Failed(e) => fail(account, e),
        },
        Phase::DetectMfa { endpoint, tokens, credential } => match mfa_state(resp.body) {
            Ok(state) => {
                let request = login_request(
                    endpoint.as_str(),
                    account.username.as_str(),
                    credential.as_str(),
                    tokens.execution.as_str(),
                    tokens.visitor_fingerprint.as_str(),
                    state.as_str(),
                );
                (LoginFlow { account, phase: Phase::SubmitLogin }, Action::Send(request))
            },
            Err(e) => fail(account, e),
        },
        Phase::SubmitLogin => match expect_redirect(resp) {
            Ok(target) => {
                let follower = RedirectFollower::new(
                    target,
                    account.service.success_predicate(),
                    ReadBody::Nothing,
                );
                let request = follower.request();
                (
                    LoginFlow { account, phase: Phase::FollowSuccessRedirects(follower) },
                    Action::Send(request),
                )
            },
            Err(e) => fail(account, e),
        },
        Phase::FollowSuccessRedirects(follower) => match follower.on_response(resp) {
            FollowStep::Request(next) => {
                let request = next.request();
                (
                    LoginFlow { account, phase: Phase::FollowSuccessRedirects(next) },
                    Action::Send(request),
                )
            },
            FollowStep::Finished(last) => on_landing(account, last),
            FollowStep::Failed(e) => fail(account, e),
        },
        Phase::EncryptCredential { endpoint, tokens } => (
            LoginFlow { account, phase: Phase::EncryptCredential { endpoint, tokens } },
            Action::Encrypt,
        ),
        Phase::Authenticated => (LoginFlow { account, phase: Phase::Authenticated }, Action::Done),
        Phase::Failed => (
            LoginFlow { account, phase: Phase::Failed },
            Action::Abort(LoginError::LoginFailed),
        ),
    }
}

impl LoginFlow {
    /// Starts a login attempt. The request returned is the first to send.
    pub fn start(service: Service, username: &str, password: &str, public_key_pem: &str) -> (first:
        (LoginFlow, Request))
        ensures
            first.0@.account == (AccountView {
                service,
                username: username@,
                password: password@,
                public_key_pem: public_key_pem@,
            }),
            (first.0@.phase, first.1@) == service.entry_of(),
            first.0@.well_formed(),
    {
        let account = Account {
            service,
            username: username.to_owned(),
            password: password.to_owned(),
            public_key_pem: public_key_pem.to_owned(),
        };
        let (phase, request) = service.entry_url_resolver();
        (LoginFlow { account, phase }, request)
    }

    /// Whether the flow waits for the transport to report on a request.
    pub fn awaits_response(&self) -> (waiting: bool)
        ensures
            waiting == self@.awaits_response(),
    {
        match &self.phase {
            Phase::EncryptCredential { .. } => false,
            Phase::Authenticated => false,
            Phase::Failed => false,
            _ => true,
        }
    }

    /// Takes the transport's report on the request last handed out and
    /// says what to do next. The password is not encrypted here: once the
    /// login page is read the answer is `Action::Encrypt`, and
    /// `submit_credential` takes the outcome.
    pub fn receive(self, event: Event) -> (next: (LoginFlow, Action))
        ensures
            (next.0@, next.1@) == self@.received(event@),
            self@.well_formed() ==> next.0@.well_formed(),
    {
        if self.awaits_response() {
            match event {
                Event::Response(resp) => on_response(self.account, self.phase, resp),
                Event::TransportFailed(message) => fail(
                    self.account,
                    LoginError::RequestError(message),
                ),
            }
        } else {
            let action = match &self.phase {
                Phase::EncryptCredential { .. } => Action::Encrypt,
                Phase::Authenticated => Action::Done,
                _ => Action::Abort(LoginError::LoginFailed),
            };
            (self, action)
        }
    }

    /// Takes the outcome of encrypting the password and says what to do
    /// next: the detection request, or the end of the attempt.
    pub fn submit_credential(self, credential: Result<String, LoginError>) -> (next: (
        LoginFlow,
        Action,
    ))
        ensures
            (next.0@, next.1@) == self@.submitted(
                match credential {
                    Ok(c) => Ok(c@),
                    Err(e) => Err(e@),
                },
            ),
            self@.well_formed() ==> next.0@.well_formed(),
    {
        match self.phase {
            Phase::EncryptCredential { endpoint, tokens } => match credential {
                Ok(c) => {
                    let request = detect_request(
                        self.account.username.as_str(),
                        c.as_str(),
                        tokens.visitor_fingerprint.as_str(),
                    );
                    (
                        LoginFlow {
                            account: self.account,
                            phase: Phase::DetectMfa { endpoint, tokens, credential: c },
                        },
                        Action::Send(request),
                    )
                },
                Err(e) => fail(self.account, e),
            },
            Phase::Authenticated => (
                LoginFlow { account: self.account, phase: Phase::Authenticated },
                Action::Done,
            ),
            _ => fail(self.account, LoginError::LoginFailed),
        }
    }

    /// Takes the transport's report and says what to do next, encrypting
    /// the password when its turn has come. The answer is never
    /// `Action::Encrypt`.
    ///
    /// The ciphertext is random, so the detection request is fixed only up
    /// to the credential in it.
    pub fn step(self, event: Event) -> (next: (LoginFlow, Action))
        ensures
            !(self@.received(event@).1 is Encrypt) ==> (next.0@, next.1@) == self@.received(
                event@,
            ),
            self@.received(event@).1 is Encrypt ==> exists|credential: Result<
                Seq<char>,
                LoginErrorView,
            >|
                self@.admits(credential) && (next.0@, next.1@) == #[trigger] self@.received(
                    event@,
                ).0.submitted(credential),
            !(next.1@ is Encrypt),
            self@.well_formed() ==> next.0@.well_formed(),
    {
        let ghost before = self@;
        let ghost report = event@;
        let (flow, action) = self.receive(event);
        match action {
            Action::Encrypt => {
                let credential = encrypt_password(
                    flow.account.password.as_str(),
                    flow.account.public_key_pem.as_str(),
                );
                let ghost outcome: Result<Seq<char>, LoginErrorView> = match &credential {
                    Ok(c) => Ok(c@),
                    Err(e) => Err(e@),
                };
                let ghost waiting = flow@;
                assert(waiting == before.received(report).0);
                let next = flow.submit_credential(credential);
                assert(before.admits(outcome) && (next.0@, next.1@) == waiting.submitted(outcome));
                next
            },
            other => (flow, other),
        }
    }
}

impl FlowView {
    /// Whether `action` is what a flow in this phase asks for: a request
    /// while it waits for an answer, the credential while it waits for
    /// that, and the verdict once the attempt is over.
    pub open spec fn asks_for(self, action: ActionView) -> bool {
        match self.phase {
            PhaseView::EncryptCredential { .. } => action is Encrypt,
            PhaseView::Authenticated => action is Done,
            PhaseView::Failed => action is Abort,
            _ => action is Send,
        }
    }
}

/// Whatever the transport reports, the action handed out fits the phase
/// the flow is left in. So success is announced only by a flow that is
/// authenticated, and every failure leaves the flow failed. The account
/// is never changed.
pub proof fn lemma_action_fits_phase(flow: FlowView, event: EventView)
    ensures
        flow.received(event).0.asks_for(flow.received(event).1),
        flow.received(event).0.account == flow.account,
{
}

/// The same holds when a credential is handed in, except that a flow
/// which already succeeded stays as it is.
pub proof fn lemma_credential_fits_phase(
    flow: FlowView,
    credential: Result<Seq<char>, LoginErrorView>,
)
    ensures
        flow.submitted(credential).0.asks_for(flow.submitted(credential).1),
        flow.submitted(credential).0.account == flow.account,
        flow.phase is EncryptCredential ==> !(flow.submitted(credential).1 is Encrypt),
{
}

/// A failed attempt stays failed: no report and no credential brings it
/// back, and the answer is always the same error.
pub proof fn lemma_failure_is_final(
    flow: FlowView,
    event: EventView,
    credential: Result<Seq<char>, LoginErrorView>,
)
    requires
        flow.phase is Failed,
    ensures
        flow.received(event) == (flow, ActionView::Abort(LoginErrorView::LoginFailed)),
        flow.submitted(credential).0 == flow,
        flow.submitted(credential).1 == ActionView::Abort(LoginErrorView::LoginFailed),
{
}

/// An authenticated session is not changed again.
pub proof fn lemma_success_is_final(
    flow: FlowView,
    event: EventView,
    credential: Result<Seq<char>, LoginErrorView>,
)
    requires
        flow.phase is Authenticated,
    ensures
        flow.received(event) == (flow, ActionView::Done),
        flow.submitted(credential) == (flow, ActionView::Done),
{
}

/// A transport failure ends any attempt that waits for an answer, with
/// the transport's message.
pub proof fn lemma_transport_failure_aborts(flow: FlowView, message: Seq<char>)
    requires
        flow.awaits_response(),
    ensures
        flow.received(EventView::TransportFailed(message)) == FlowView::fail(
            flow.account,
            LoginErrorView::RequestError(message),
        ),
{
}

/// The service is entered only through a 302 with a readable target: any
/// other answer to the submission fails the attempt with the URL and the
/// status of that answer.
pub proof fn lemma_submission_needs_redirect(flow: FlowView, resp: ResponseView)
    requires
        flow.phase is SubmitLogin,
        resp.status != FOUND || !(resp.location is Text),
    ensures
        flow.received(EventView::Response(resp)) == FlowView::fail(
            flow.account,
            LoginErrorView::ExpectedRedirect(resp.url, resp.status),
        ),
{
}

impl FlowView {
    /// What holds of every flow that `LoginFlow::start` made and its own
    /// steps moved on: each follower runs under the settings of its phase
    /// and has requests left, and the way the entry URL is found is the
    /// service's.
    pub open spec fn well_formed(self) -> bool {
        match self.phase {
            PhaseView::ResolveEntryUrl(None) => self.account.service == Service::AiPlatform,
            PhaseView::ResolveEntryUrl(Some(f)) => self.account.service == Service::CourseSelection
                && f.hops < MAX_HOPS && f.stop is None && f.read == ReadBody::Nothing,
            PhaseView::FetchLoginPage(f) => f.hops < MAX_HOPS && f.stop is None && f.read
                == ReadBody::Text,
            PhaseView::FollowSuccessRedirects(f) => f.hops < MAX_HOPS && f.stop
                == self.account.service.stop_rule_of() && f.read == ReadBody::Nothing,
            _ => true,
        }
    }

    /// The most requests the attempt can still take, the one it waits on
    /// included.
    pub open spec fn requests_left(self) -> nat {
        let submission = 1 + MAX_HOPS as nat;
        let detection = 1 + submission;
        match self.phase {
            PhaseView::ResolveEntryUrl(None) => 1 + MAX_HOPS as nat + detection,
            PhaseView::ResolveEntryUrl(Some(f)) => (MAX_HOPS - f.hops) as nat + MAX_HOPS as nat
                + detection,
            PhaseView::FetchLoginPage(f) => (MAX_HOPS - f.hops) as nat + detection,
            PhaseView::EncryptCredential { .. } => detection,
            PhaseView::DetectMfa { .. } => detection,
            PhaseView::SubmitLogin => submission,
            PhaseView::FollowSuccessRedirects(f) => (MAX_HOPS - f.hops) as nat,
            PhaseView::Authenticated => 0,
            PhaseView::Failed => 0,
        }
    }
}

/// A login starts well-formed, for either service.
pub proof fn lemma_start_is_well_formed(account: AccountView)
    ensures
        (FlowView { account, phase: account.service.entry_of().0 }).well_formed(),
{
}

/// Steps keep a flow well-formed.
pub proof fn lemma_steps_keep_well_formed(
    flow: FlowView,
    event: EventView,
    credential: Result<Seq<char>, LoginErrorView>,
)
    requires
        flow.well_formed(),
    ensures
        flow.received(event).0.well_formed(),
        flow.submitted(credential).0.well_formed(),
{
}

/// Every request that is handed out uses up one of the requests left, so
/// an attempt ends after a bounded number of them: at most 32 from the
/// start.
pub proof fn lemma_requests_are_bounded(
    flow: FlowView,
    event: EventView,
    credential: Result<Seq<char>, LoginErrorView>,
)
    requires
        flow.well_formed(),
    ensures
        flow.awaits_response() ==> flow.received(event).0.requests_left() < flow.requests_left(),
        flow.received(event).0.requests_left() <= flow.requests_left(),
        flow.submitted(credential).0.requests_left() <= flow.requests_left(),
        flow.requests_left() <= 32,
{
}

/// A login to the AI platform succeeds on exactly one kind of response
/// to the redirects after the submission: a 302 whose target begins with
/// the success path. A plain page there is a failure.
pub proof fn lemma_ai_platform_success(flow: FlowView, resp: ResponseView)
    requires
        flow.well_formed(),
        flow.phase is FollowSuccessRedirects,
        flow.account.service == Service::AiPlatform,
    ensures
        flow.received(EventView::Response(resp)).1 is Done <==> (resp.status == FOUND && (
        match resp.location {
            LocationView::Text(target) => success_path().is_prefix_of(target),
            _ => false,
        })),
        flow.received(EventView::Response(resp)).1 is Send ==> resp.status == FOUND,
{
}

/// A login to the course selection succeeds on exactly one kind of
/// response to the redirects after the submission: a 200.
pub proof fn lemma_course_selection_success(flow: FlowView, resp: ResponseView)
    requires
        flow.well_formed(),
        flow.phase is FollowSuccessRedirects,
        flow.account.service == Service::CourseSelection,
    ensures
        flow.received(EventView::Response(resp)).1 is Done <==> resp.status == OK,
        flow.received(EventView::Response(resp)).1 is Send ==> is_redirect(resp.status),
{
}

} // verus!
