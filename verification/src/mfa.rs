//! Multi-factor detection.
//!
//! Before every login submission the provider is asked whether a second
//! factor is due. Its answer carries a state token that the submission
//! must echo, challenge or not; without the token the login cannot go on.

use vstd::prelude::*;
use vstd::string::*;
use crate::http::{
    fields_view, Body, BodyView, Field, Method, PayloadView, ReadBody, Request, RequestView,
};
use crate::login::{LoginError, LoginErrorView};

verus! {

/// The detection endpoint.
pub open spec fn detect_url() -> Seq<char> {
    "https://login.xjtu.edu.cn/cas/mfa/detect"@
}

/// The detection request for an account: a form POST of the user name, the
/// encrypted password and the visitor fingerprint, answered in JSON.
pub open spec fn detect_request_of(
    username: Seq<char>,
    credential: Seq<char>,
    fingerprint: Seq<char>,
) -> RequestView {
    RequestView {
        method: Method::Post,
        url: detect_url(),
        payload: PayloadView::Form(
            seq![
                ("username"@, username),
                ("password"@, credential),
                ("fpVisitorId"@, fingerprint),
            ],
        ),
        read: ReadBody::Json,
    }
}

/// Builds the detection request.
pub fn detect_request(username: &str, credential: &str, fingerprint: &str) -> (req: Request)
    ensures
        req@ == detect_request_of(username@, credential@, fingerprint@),
{
    let mut fields: Vec<Field> = Vec::new();
    fields.push(Field::new("username", username));
    fields.push(Field::new("password", credential));
    fields.push(Field::new("fpVisitorId", fingerprint));
    assert(fields_view(fields@) =~= seq![
        ("username"@, username@),
        ("password"@, credential@),
        ("fpVisitorId"@, fingerprint@),
    ]);
    Request::post_form("https://login.xjtu.edu.cn/cas/mfa/detect", fields, ReadBody::Json)
}

/// The state token in the answer `body`: the text at `data.state` of a
/// JSON body. Any other JSON is handed back in the error; a body that is
/// no JSON leaves the error empty.
pub open spec fn mfa_state_of(body: BodyView) -> Result<Seq<char>, LoginErrorView> {
    match body {
        BodyView::Json(answer) => match answer.text_at("data"@, "state"@) {
            Some(state) => Ok(state),
            None => Err(LoginErrorView::MFADetectFailure(Some(answer))),
        },
        _ => Err(LoginErrorView::MFADetectFailure(None)),
    }
}

/// Reads the state token from the detection endpoint's answer.
pub fn mfa_state(body: Body) -> (state: Result<String, LoginError>)
    ensures
        match state {
            Ok(s) => mfa_state_of(body@) == Ok::<Seq<char>, LoginErrorView>(s@),
            Err(e) => mfa_state_of(body@) == Err::<Seq<char>, LoginErrorView>(e@),
        },
{
    match body {
        Body::Json(answer) => {
            let found = match answer.str_at("data", "state") {
                Some(state) => Some(String::from_str(state)),
                None => None,
            };
            match found {
                Some(state) => Ok(state),
                None => Err(LoginError::MFADetectFailure(Some(answer))),
            }
        },
        _ => Err(LoginError::MFADetectFailure(None)),
    }
}

} // verus!
