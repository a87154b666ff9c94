use base64::Engine;
use cas_login::http::{Body, Field, Location, Method, Payload, ReadBody, Request, Response};
use cas_login::json::{Json, Member};
use cas_login::login::{
    entry_url, expect_redirect, login_request, Action, Event, LoginError, LoginFlow, Phase,
    Service,
};
use rsa::pkcs8::EncodePublicKey;

const LOGIN_PAGE: &str = "<html><body><form id=\"fm1\" method=\"post\">\
    <input name=\"username\"/>\
    <input type=\"hidden\" name=\"execution\" value=\"ABCD1234-e1s1\"/>\
    <input name=\"submit\" type=\"submit\" value=\"Login1\"/>\
    <input type=\"hidden\" name=\"fpVisitorId\" value=\"fp-001\"/>\
    </form></body></html>";

fn keypair() -> (rsa::RsaPrivateKey, String) {
    let private = rsa::RsaPrivateKey::new(&mut rsa::rand_core::OsRng, 512).unwrap();
    let pem = private.to_public_key().to_public_key_pem(rsa::pkcs8::LineEnding::LF).unwrap();
    (private, pem)
}

fn object(members: Vec<(&str, Json)>) -> Json {
    Json::Object(
        members.into_iter().map(|(k, v)| Member { key: k.to_string(), value: v }).collect(),
    )
}

fn text(s: &str) -> Json {
    Json::Text(s.to_string())
}

fn field(name: &str, value: &str) -> Field {
    Field { name: name.to_string(), value: value.to_string() }
}

fn get(url: &str, read: ReadBody) -> Request {
    Request { method: Method::Get, url: url.to_string(), payload: Payload::Empty, read }
}

fn answer(status: u16, url: &str, location: Option<&str>, body: Body) -> Event {
    Event::Response(Response {
        status,
        url: url.to_string(),
        location: match location {
            Some(target) => Location::Text(target.to_string()),
            None => Location::Absent,
        },
        body,
    })
}

fn sent(action: Action) -> Request {
    match action {
        Action::Send(request) => request,
        other => panic!("expected a request, got {:?}", other),
    }
}

fn form(request: &Request) -> Vec<(String, String)> {
    match &request.payload {
        Payload::Form(fields) => fields.iter().map(|f| (f.name.clone(), f.value.clone())).collect(),
        other => panic!("expected a form, got {:?}", other),
    }
}

/// Drives an AI platform login up to the submission and returns the flow
/// that waits for the submission's answer.
fn up_to_submission(private: &rsa::RsaPrivateKey, pem: &str) -> LoginFlow {
    let (flow, first) = LoginFlow::start(Service::AiPlatform, "2213710000", "hunter2", pem);
    assert_eq!(
        first,
        Request {
            method: Method::Post,
            url: "https://ai.xjtu.edu.cn/api/auth/login".to_string(),
            payload: Payload::Json(object(vec![
                ("SSO", text("Oauth")),
                ("IdpID", text("1")),
                ("RedirectUrl", text("/")),
            ])),
            read: ReadBody::Json,
        }
    );
    assert_eq!(flow.phase, Phase::ResolveEntryUrl(None));

    let started = object(vec![("redirect_uri", text("https://idp.test/cas/oauth?id=1"))]);
    let (flow, action) =
        flow.step(answer(200, "https://ai.xjtu.edu.cn/api/auth/login", None, Body::Json(started)));
    assert_eq!(sent(action), get("https://idp.test/cas/oauth?id=1", ReadBody::Text));

    let (flow, action) = flow.step(answer(
        302,
        "https://idp.test/cas/oauth?id=1",
        Some("https://idp.test/cas/login?service=ai"),
        Body::Text(String::new()),
    ));
    assert_eq!(sent(action), get("https://idp.test/cas/login?service=ai", ReadBody::Text));

    let (flow, action) = flow.step(answer(
        200,
        "https://idp.test/cas/login?service=ai",
        None,
        Body::Text(LOGIN_PAGE.to_string()),
    ));
    let detect = sent(action);
    assert_eq!(detect.method, Method::Post);
    assert_eq!(detect.url, "https://login.xjtu.edu.cn/cas/mfa/detect");
    assert_eq!(detect.read, ReadBody::Json);
    let fields = form(&detect);
    assert_eq!(fields.len(), 3);
    assert_eq!(fields[0], ("username".to_string(), "2213710000".to_string()));
    assert_eq!(fields[0].0, "username");
    assert_eq!(fields[1].0, "password");
    assert_eq!(fields[2], ("fpVisitorId".to_string(), "fp-001".to_string()));
    let credential = fields[1].1.clone();
    let sealed = base64::engine::general_purpose::STANDARD
        .decode(credential.strip_prefix("__RSA__").unwrap())
        .unwrap();
    assert_eq!(private.decrypt(rsa::Pkcs1v15Encrypt, &sealed).unwrap(), b"hunter2");

    let detected = object(vec![("data", object(vec![("state", text("NONE"))]))]);
    let (flow, action) = flow.step(answer(
        200,
        "https://login.xjtu.edu.cn/cas/mfa/detect",
        None,
        Body::Json(detected),
    ));
    let submission = sent(action);
    assert_eq!(
        submission,
        Request {
            method: Method::Post,
            url: "https://idp.test/cas/login?service=ai".to_string(),
            payload: Payload::Form(vec![
                field("username", "2213710000"),
                field("password", &credential),
                field("execution", "ABCD1234-e1s1"),
                field("submit1", "Login1"),
                field("_eventId", "submit"),
                field("geolocation", ""),
                field("trustAgent", ""),
                field("fpVisitorId", "fp-001"),
                field("trustAgent", ""),
                field("captcha", ""),
                field("currentMenu", "1"),
                field("failN", "0"),
                field("mfaState", "NONE"),
            ]),
            read: ReadBody::Nothing,
        }
    );
    assert_eq!(flow.phase, Phase::SubmitLogin);
    flow
}

#[test]
fn login_to_the_ai_platform_succeeds() {
    let (private, pem) = keypair();
    let flow = up_to_submission(&private, &pem);
    let (flow, action) = flow.step(answer(
        302,
        "https://idp.test/cas/login?service=ai",
        Some("/login-success/home"),
        Body::Unread,
    ));
    assert_eq!(sent(action), get("/login-success/home", ReadBody::Nothing));
    let (flow, action) = flow.step(answer(
        302,
        "https://ai.xjtu.edu.cn/login-success/home",
        Some("/login-success/home?session=1"),
        Body::Unread,
    ));
    assert_eq!(action, Action::Done);
    assert_eq!(flow.phase, Phase::Authenticated);
}

#[test]
fn login_that_is_sent_to_the_failure_page_fails() {
    let (private, pem) = keypair();
    let flow = up_to_submission(&private, &pem);
    let (flow, action) = flow.step(answer(
        302,
        "https://idp.test/cas/login?service=ai",
        Some("/login-failure"),
        Body::Unread,
    ));
    assert_eq!(sent(action), get("/login-failure", ReadBody::Nothing));
    let (flow, action) =
        flow.step(answer(200, "https://ai.xjtu.edu.cn/login-failure", None, Body::Unread));
    assert_eq!(
        action,
        Action::Abort(LoginError::ExpectedRedirect(
            "https://ai.xjtu.edu.cn/login-failure".to_string(),
            200
        ))
    );
    assert_eq!(flow.phase, Phase::Failed);
}

#[test]
fn submission_that_is_not_answered_by_a_redirect_fails() {
    let (private, pem) = keypair();
    let flow = up_to_submission(&private, &pem);
    let (flow, action) = flow.step(answer(
        200,
        "https://idp.test/cas/login?service=ai",
        None,
        Body::Unread,
    ));
    assert_eq!(
        action,
        Action::Abort(LoginError::ExpectedRedirect(
            "https://idp.test/cas/login?service=ai".to_string(),
            200
        ))
    );
    assert_eq!(flow.phase, Phase::Failed);
}

#[test]
fn success_redirects_pass_through_the_service() {
    let (private, pem) = keypair();
    let flow = up_to_submission(&private, &pem);
    let (flow, action) = flow.step(answer(
        302,
        "https://idp.test/cas/login?service=ai",
        Some("https://ai.xjtu.edu.cn/api/auth/callback?ticket=ST-1"),
        Body::Unread,
    ));
    assert_eq!(
        sent(action),
        get("https://ai.xjtu.edu.cn/api/auth/callback?ticket=ST-1", ReadBody::Nothing)
    );
    let (flow, action) = flow.step(answer(
        302,
        "https://ai.xjtu.edu.cn/api/auth/callback?ticket=ST-1",
        Some("/login-success?token=abc"),
        Body::Unread,
    ));
    assert_eq!(action, Action::Done);
    assert_eq!(flow.phase, Phase::Authenticated);
}

#[test]
fn login_to_the_course_selection_succeeds() {
    let (_, pem) = keypair();
    let entry = "https://xkfw.xjtu.edu.cn/xsxkapp/sys/xsxkapp/*default/index.do";
    let (flow, first) = LoginFlow::start(Service::CourseSelection, "2213710000", "hunter2", &pem);
    assert_eq!(first, get(entry, ReadBody::Nothing));

    let (flow, action) =
        flow.step(answer(302, entry, Some("https://idp.test/cas/login?service=xk"), Body::Unread));
    assert_eq!(sent(action), get("https://idp.test/cas/login?service=xk", ReadBody::Nothing));
    let (flow, action) =
        flow.step(answer(200, "https://idp.test/cas/login?service=xk", None, Body::Unread));
    assert_eq!(sent(action), get("https://idp.test/cas/login?service=xk", ReadBody::Text));
    let (flow, action) = flow.step(answer(
        200,
        "https://idp.test/cas/login;jsessionid=9?service=xk",
        None,
        Body::Text(LOGIN_PAGE.to_string()),
    ));
    assert_eq!(sent(action).url, "https://login.xjtu.edu.cn/cas/mfa/detect");
    let detected = object(vec![("data", object(vec![("state", text("tok-1"))]))]);
    let (flow, action) = flow.step(answer(
        200,
        "https://login.xjtu.edu.cn/cas/mfa/detect",
        None,
        Body::Json(detected),
    ));
    let submission = sent(action);
    assert_eq!(submission.url, "https://idp.test/cas/login;jsessionid=9?service=xk");
    assert_eq!(form(&submission)[12], ("mfaState".to_string(), "tok-1".to_string()));

    let (flow, action) = flow.step(answer(
        302,
        "https://idp.test/cas/login;jsessionid=9?service=xk",
        Some("https://xkfw.xjtu.edu.cn/xsxkapp/index.do?ticket=ST-2"),
        Body::Unread,
    ));
    assert_eq!(
        sent(action),
        get("https://xkfw.xjtu.edu.cn/xsxkapp/index.do?ticket=ST-2", ReadBody::Nothing)
    );
    let (flow, action) = flow.step(answer(
        302,
        "https://xkfw.xjtu.edu.cn/xsxkapp/index.do?ticket=ST-2",
        Some("/login-success"),
        Body::Unread,
    ));
    assert_eq!(sent(action), get("/login-success", ReadBody::Nothing));
    let (flow, action) =
        flow.step(answer(200, "https://xkfw.xjtu.edu.cn/login-success", None, Body::Unread));
    assert_eq!(action, Action::Done);
    assert_eq!(flow.phase, Phase::Authenticated);
}

#[test]
fn course_selection_must_land_on_a_plain_page() {
    let flow = LoginFlow {
        account: LoginFlow::start(Service::CourseSelection, "u", "p", "k").0.account,
        phase: Phase::SubmitLogin,
    };
    let (flow, action) = flow.step(answer(302, "https://idp.test/login", Some("/x"), Body::Unread));
    assert_eq!(sent(action), get("/x", ReadBody::Nothing));
    let (flow, action) = flow.step(answer(403, "https://xk.test/x", None, Body::Unread));
    assert_eq!(
        action,
        Action::Abort(LoginError::ExpectedRedirect("https://xk.test/x".to_string(), 403))
    );
    assert_eq!(flow.phase, Phase::Failed);
}

#[test]
fn transport_failure_aborts_the_attempt() {
    let (flow, _) = LoginFlow::start(Service::CourseSelection, "u", "p", "k");
    let (flow, action) = flow.step(Event::TransportFailed("connection refused".to_string()));
    assert_eq!(action, Action::Abort(LoginError::RequestError("connection refused".to_string())));
    assert_eq!(flow.phase, Phase::Failed);
}

#[test]
fn failed_attempt_stays_failed() {
    let (flow, _) = LoginFlow::start(Service::AiPlatform, "u", "p", "k");
    let (flow, _) = flow.step(Event::TransportFailed("timeout".to_string()));
    let (flow, action) = flow.step(answer(200, "https://a/", None, Body::Unread));
    assert_eq!(action, Action::Abort(LoginError::LoginFailed));
    let (flow, action) = flow.receive(Event::TransportFailed("again".to_string()));
    assert_eq!(action, Action::Abort(LoginError::LoginFailed));
    let (flow, action) = flow.submit_credential(Ok("__RSA__x".to_string()));
    assert_eq!(action, Action::Abort(LoginError::LoginFailed));
    assert_eq!(flow.phase, Phase::Failed);
}

#[test]
fn authenticated_session_is_not_touched_again() {
    let flow = LoginFlow {
        account: LoginFlow::start(Service::AiPlatform, "u", "p", "k").0.account,
        phase: Phase::Authenticated,
    };
    let (flow, action) = flow.step(Event::TransportFailed("late".to_string()));
    assert_eq!(action, Action::Done);
    let (flow, action) = flow.submit_credential(Err(LoginError::LoginFailed));
    assert_eq!(action, Action::Done);
    assert_eq!(flow.phase, Phase::Authenticated);
    assert!(!flow.awaits_response());
}

#[test]
fn missing_redirect_uri_aborts() {
    let (flow, _) = LoginFlow::start(Service::AiPlatform, "u", "p", "k");
    let (flow, action) = flow.step(answer(
        200,
        "https://ai.xjtu.edu.cn/api/auth/login",
        None,
        Body::Json(object(vec![("error", text("busy"))])),
    ));
    assert_eq!(
        action,
        Action::Abort(LoginError::Other("No url found in login start response".to_string()))
    );
    assert_eq!(flow.phase, Phase::Failed);
}

#[test]
fn entry_url_shapes() {
    assert_eq!(
        entry_url(Body::Json(object(vec![("redirect_uri", text("https://idp/"))]))),
        Ok("https://idp/".to_string())
    );
    assert_eq!(
        entry_url(Body::Json(object(vec![("redirect_uri", Json::Number("1".to_string()))]))),
        Err(LoginError::Other("No url found in login start response".to_string()))
    );
    assert_eq!(
        entry_url(Body::Json(Json::Array(vec![]))),
        Err(LoginError::Other("Unexpected login start response".to_string()))
    );
    assert_eq!(
        entry_url(Body::Failed("EOF while parsing".to_string())),
        Err(LoginError::RequestError("EOF while parsing".to_string()))
    );
    assert_eq!(
        entry_url(Body::Unread),
        Err(LoginError::RequestError("error decoding response body".to_string()))
    );
}

#[test]
fn login_page_without_tokens_aborts() {
    let (flow, _) = LoginFlow::start(Service::CourseSelection, "u", "p", "k");
    let (flow, _) = flow.step(answer(200, "https://idp/login", None, Body::Unread));
    let (flow, action) = flow.step(answer(
        200,
        "https://idp/login",
        None,
        Body::Text("<html><body>maintenance</body></html>".to_string()),
    ));
    assert_eq!(
        action,
        Action::Abort(LoginError::Other("No execution token found in login page".to_string()))
    );
    assert_eq!(flow.phase, Phase::Failed);
}

#[test]
fn login_page_that_cannot_be_read_aborts() {
    let (flow, _) = LoginFlow::start(Service::CourseSelection, "u", "p", "k");
    let (flow, _) = flow.step(answer(200, "https://idp/login", None, Body::Unread));
    let (_, action) = flow.step(answer(
        200,
        "https://idp/login",
        None,
        Body::Failed("connection reset".to_string()),
    ));
    assert_eq!(action, Action::Abort(LoginError::RequestError("connection reset".to_string())));
}

#[test]
fn encryption_failure_aborts_before_detection() {
    let (flow, _) = LoginFlow::start(Service::CourseSelection, "u", "p", "not a key");
    let (flow, _) = flow.step(answer(200, "https://idp/login", None, Body::Unread));
    let (flow, action) =
        flow.step(answer(200, "https://idp/login", None, Body::Text(LOGIN_PAGE.to_string())));
    assert_eq!(
        action,
        Action::Abort(LoginError::Other("Public key is not valid".to_string()))
    );
    assert_eq!(flow.phase, Phase::Failed);
}

#[test]
fn receive_leaves_the_encryption_to_the_caller() {
    let (flow, _) = LoginFlow::start(Service::CourseSelection, "u", "p", "k");
    let (flow, _) = flow.receive(answer(200, "https://idp/login", None, Body::Unread));
    let (flow, action) =
        flow.receive(answer(200, "https://idp/login?x", None, Body::Text(LOGIN_PAGE.to_string())));
    assert_eq!(action, Action::Encrypt);
    assert!(!flow.awaits_response());
    let (flow, action) = flow.receive(Event::TransportFailed("ignored".to_string()));
    assert_eq!(action, Action::Encrypt);
    let (flow, action) = flow.submit_credential(Ok("__RSA__Zm9v".to_string()));
    assert_eq!(
        sent(action),
        Request {
            method: Method::Post,
            url: "https://login.xjtu.edu.cn/cas/mfa/detect".to_string(),
            payload: Payload::Form(vec![
                field("username", "u"),
                field("password", "__RSA__Zm9v"),
                field("fpVisitorId", "fp-001"),
            ]),
            read: ReadBody::Json,
        }
    );
    assert!(flow.awaits_response());
}

#[test]
fn credential_out_of_turn_fails_the_attempt() {
    let (flow, _) = LoginFlow::start(Service::AiPlatform, "u", "p", "k");
    let (flow, action) = flow.submit_credential(Ok("__RSA__Zm9v".to_string()));
    assert_eq!(action, Action::Abort(LoginError::LoginFailed));
    assert_eq!(flow.phase, Phase::Failed);
}

#[test]
fn malformed_detection_answer_aborts() {
    let (flow, _) = LoginFlow::start(Service::CourseSelection, "u", "p", "k");
    let (flow, _) = flow.receive(answer(200, "https://idp/login", None, Body::Unread));
    let (flow, _) =
        flow.receive(answer(200, "https://idp/login", None, Body::Text(LOGIN_PAGE.to_string())));
    let (flow, _) = flow.submit_credential(Ok("__RSA__Zm9v".to_string()));
    let (flow, action) = flow.step(answer(
        200,
        "https://login.xjtu.edu.cn/cas/mfa/detect",
        None,
        Body::Json(object(vec![("data", object(vec![]))])),
    ));
    assert_eq!(
        action,
        Action::Abort(LoginError::MFADetectFailure(Some(object(vec![("data", object(vec![]))]))))
    );
    assert_eq!(flow.phase, Phase::Failed);
}

#[test]
fn too_many_redirects_on_the_way_to_the_login_page() {
    let (mut flow, _) = LoginFlow::start(Service::CourseSelection, "u", "p", "k");
    for _ in 0..9 {
        let (next, action) = flow.step(answer(302, "https://a/", Some("https://a/"), Body::Unread));
        assert_eq!(sent(action), get("https://a/", ReadBody::Nothing));
        flow = next;
    }
    let (flow, action) = flow.step(answer(302, "https://a/", Some("https://a/"), Body::Unread));
    assert_eq!(action, Action::Abort(LoginError::Other("Too many redirects".to_string())));
    assert_eq!(flow.phase, Phase::Failed);
}

#[test]
fn redirect_target_of_a_submission() {
    let resp = |status: u16, location: Location| Response {
        status,
        url: "https://idp/login".to_string(),
        location,
        body: Body::Unread,
    };
    assert_eq!(
        expect_redirect(resp(302, Location::Text("/next".to_string()))),
        Ok("/next".to_string())
    );
    for (status, location) in [
        (301, Location::Text("/next".to_string())),
        (200, Location::Absent),
        (302, Location::Absent),
        (302, Location::Unreadable),
    ] {
        assert_eq!(
            expect_redirect(resp(status, location)),
            Err(LoginError::ExpectedRedirect("https://idp/login".to_string(), status))
        );
    }
}

#[test]
fn login_submission_fields() {
    let request = login_request("https://idp/login", "u", "c", "e", "f", "m");
    assert_eq!(request.method, Method::Post);
    assert_eq!(request.url, "https://idp/login");
    let names: Vec<String> = form(&request).into_iter().map(|f| f.0).collect();
    assert_eq!(
        names,
        vec![
            "username", "password", "execution", "submit1", "_eventId", "geolocation",
            "trustAgent", "fpVisitorId", "trustAgent", "captcha", "currentMenu", "failN",
            "mfaState",
        ]
    );
}

#[test]
fn services() {
    assert_eq!(Service::AiPlatform.label(), "AI 平台");
    assert_eq!(Service::CourseSelection.label(), "选课系统");
    assert_eq!(Service::AiPlatform.final_status(), 302);
    assert_eq!(Service::CourseSelection.final_status(), 200);
    assert_eq!(Service::CourseSelection.success_predicate(), None);
    assert_eq!(
        Service::AiPlatform.success_predicate().unwrap().success_prefix,
        "/login-success"
    );
}
