//! The three hidden values of the provider's login form.
//!
//! The login POST cannot succeed without the one-time `execution` token,
//! the value of the `submit` input, and the visitor fingerprint
//! `fpVisitorId`. None is optional: a page that lacks one is an error.

use vstd::prelude::*;
use vstd::string::*;
use crate::html::{
    children_view, first_match_siblings, select_siblings, select_values, selected_values,
    ChildNode, ChildNodeView,
};
use crate::login::{LoginError, LoginErrorView};
use crate::text::str_eq;

verus! {

/// The values scraped from one rendering of the login page. They are good
/// for one submission only.
#[derive(Debug, PartialEq, Eq)]
pub struct LoginFormTokens {
    pub execution: String,
    pub submit: String,
    pub visitor_fingerprint: String,
}

/// The mathematical value of a `LoginFormTokens`.
pub struct LoginFormTokensView {
    pub execution: Seq<char>,
    pub submit: Seq<char>,
    pub visitor_fingerprint: Seq<char>,
}

impl View for LoginFormTokens {
    type V = LoginFormTokensView;

    open spec fn view(&self) -> LoginFormTokensView {
        LoginFormTokensView {
            execution: self.execution@,
            submit: self.submit@,
            visitor_fingerprint: self.visitor_fingerprint@,
        }
    }
}

/// The selector of the input that holds the execution token.
pub open spec fn execution_selector() -> Seq<char> {
    "input[name=\"execution\"]"@
}

/// The selector of the submit input.
pub open spec fn submit_selector() -> Seq<char> {
    "input[name=\"submit\"]"@
}

/// The error for a page without a usable execution token.
pub open spec fn missing_execution() -> LoginErrorView {
    LoginErrorView::Other("No execution token found in login page"@)
}

/// The error for a page without a usable submit input.
pub open spec fn missing_submit() -> LoginErrorView {
    LoginErrorView::Other("No submit input found in login page"@)
}

/// The error for a page whose form has no fingerprint input.
pub open spec fn missing_fingerprint() -> LoginErrorView {
    LoginErrorView::Other("No fpVisitorId input found in login page"@)
}

/// The `value` of the first element found, when there is such an element
/// and it has the attribute.
pub open spec fn first_value(found: Option<Seq<Option<Seq<char>>>>) -> Option<Seq<char>> {
    match found {
        Some(values) => if values.len() > 0 {
            values[0]
        } else {
            None
        },
        None => None,
    }
}

/// An attribute's text, or the empty text when the attribute is missing.
pub open spec fn or_empty(attribute: Option<Seq<char>>) -> Seq<char> {
    match attribute {
        Some(text) => text,
        None => Seq::empty(),
    }
}

/// Whether `child` is an `input` element whose `name` is `name`.
pub open spec fn is_input_named(child: ChildNodeView, name: Seq<char>) -> bool {
    child.tag == Some("input"@) && or_empty(child.name) == name
}

/// The value of the first `input` among `children` whose `name` is
/// `name`; an input without a `value` counts as holding the empty text.
pub open spec fn input_value(children: Seq<ChildNodeView>, name: Seq<char>) -> Option<Seq<char>>
    decreases children.len(),
{
    if children.len() == 0 {
        None
    } else if is_input_named(children[0], name) {
        Some(or_empty(children[0].value))
    } else {
        input_value(children.skip(1), name)
    }
}

/// The tokens of a page, from what the selectors found on it:
/// `executions` and `submits` are the `value` attributes of the inputs
/// named `execution` and `submit`, and `siblings` are the children of the
/// first submit input's parent. The first of the three values that is
/// missing decides the error.
pub open spec fn tokens_of(
    executions: Option<Seq<Option<Seq<char>>>>,
    submits: Option<Seq<Option<Seq<char>>>>,
    siblings: Option<Seq<ChildNodeView>>,
) -> Result<LoginFormTokensView, LoginErrorView> {
    match first_value(executions) {
        None => Err(missing_execution()),
        Some(execution) => match first_value(submits) {
            None => Err(missing_submit()),
            Some(submit) => match siblings {
                None => Err(missing_fingerprint()),
                Some(children) => match input_value(children, "fpVisitorId"@) {
                    None => Err(missing_fingerprint()),
                    Some(visitor_fingerprint) => Ok(
                        LoginFormTokensView { execution, submit, visitor_fingerprint },
                    ),
                },
            },
        },
    }
}

/// The `value` of the first element found.
fn take_first_value(found: Option<Vec<Option<String>>>) -> (value: Option<String>)
    ensures
        value.deep_view() == first_value(found.deep_view()),
{
    match found {
        Some(mut values) => {
            if values.len() > 0 {
                values.swap_remove(0)
            } else {
                None
            }
        },
        None => None,
    }
}

/// The text of an attribute, empty when the attribute is missing.
fn text_or_empty(attribute: &Option<String>) -> (text: &str)
    ensures
        text@ == or_empty(attribute.deep_view()),
{
    match attribute {
        Some(text) => text.as_str(),
        None => {
            proof {
                reveal_strlit("");
            }
            assert(""@ =~= Seq::<char>::empty());
            ""
        },
    }
}

/// Whether `child` is an `input` element whose `name` is `name`.
fn input_named(child: &ChildNode, name: &str) -> (yes: bool)
    ensures
        yes == is_input_named(child@, name@),
{
    match &child.tag {
        Some(tag) => str_eq(tag.as_str(), "input") && str_eq(text_or_empty(&child.name), name),
        None => false,
    }
}

/// The value of the first `input` among `children` whose `name` is `name`.
fn find_input_value(children: &Vec<ChildNode>, name: &str) -> (value: Option<String>)
    ensures
        value.deep_view() == input_value(children_view(children@), name@),
{
    let ghost all = children_view(children@);
    let mut i: usize = 0;
    proof {
        assert(all.skip(0) =~= all);
    }
    while i < children.len()
        invariant
            i <= children.len(),
            all == children_view(children@),
            input_value(all, name@) == input_value(all.skip(i as int), name@),
        decreases children.len() - i,
    {
        assert(all.skip(i as int)[0] == children@[i as int]@);
        if input_named(&children[i], name) {
            return Some(String::from_str(text_or_empty(&children[i].value)));
        }
        assert(all.skip(i as int).skip(1) =~= all.skip(i as int + 1));
        i = i + 1;
    }
    None
}

/// Picks the three tokens out of what the selectors found on the login
/// page.
pub fn tokens_from_matches(
    executions: Option<Vec<Option<String>>>,
    submits: Option<Vec<Option<String>>>,
    siblings: Option<Vec<ChildNode>>,
) -> (tokens: Result<LoginFormTokens, LoginError>)
    ensures
        match tokens {
            Ok(t) => tokens_of(
                executions.deep_view(),
                submits.deep_view(),
                match siblings {
                    Some(children) => Some(children_view(children@)),
                    None => None,
                },
            ) == Ok::<LoginFormTokensView, LoginErrorView>(t@),
            Err(e) => tokens_of(
                executions.deep_view(),
                submits.deep_view(),
                match siblings {
                    Some(children) => Some(children_view(children@)),
                    None => None,
                },
            ) == Err::<LoginFormTokensView, LoginErrorView>(e@),
        },
{
    let execution = match take_first_value(executions) {
        Some(execution) => execution,
        None => {
            return Err(
                LoginError::Other(String::from_str("No execution token found in login page")),
            );
        },
    };
    let submit = match take_first_value(submits) {
        Some(submit) => submit,
        None => {
            return Err(LoginError::Other(String::from_str("No submit input found in login page")));
        },
    };
    let fingerprint = match &siblings {
        Some(children) => find_input_value(children, "fpVisitorId"),
        None => None,
    };
    match fingerprint {
        Some(visitor_fingerprint) => Ok(
            LoginFormTokens { execution, submit, visitor_fingerprint },
        ),
        None => Err(
            LoginError::Other(String::from_str("No fpVisitorId input found in login page")),
        ),
    }
}

/// Reads the login form's tokens from the page `html`.
pub fn extract_tokens(html: &str) -> (tokens: Result<LoginFormTokens, LoginError>)
    ensures
        match tokens {
            Ok(t) => page_tokens(html@) == Ok::<LoginFormTokensView, LoginErrorView>(t@),
            Err(e) => page_tokens(html@) == Err::<LoginFormTokensView, LoginErrorView>(e@),
        },
{
    let executions = select_values(html, "input[name=\"execution\"]");
    let submits = select_values(html, "input[name=\"submit\"]");
    let siblings = select_siblings(html, "input[name=\"submit\"]");
    tokens_from_matches(executions, submits, siblings)
}

/// The tokens of the page `html`, or the error for the first that it
/// lacks.
pub open spec fn page_tokens(html: Seq<char>) -> Result<LoginFormTokensView, LoginErrorView> {
    tokens_of(
        selected_values(html, execution_selector()),
        selected_values(html, submit_selector()),
        first_match_siblings(html, submit_selector()),
    )
}

/// Tokens come out exactly when all three values were found, and then
/// they are the values found; a page that lacks one is an error.
pub proof fn lemma_tokens_need_all_three(
    executions: Option<Seq<Option<Seq<char>>>>,
    submits: Option<Seq<Option<Seq<char>>>>,
    siblings: Option<Seq<ChildNodeView>>,
)
    ensures
        tokens_of(executions, submits, siblings) is Ok <==> (first_value(executions) is Some
            && first_value(submits) is Some && siblings is Some && input_value(
            siblings.unwrap(),
            "fpVisitorId"@,
        ) is Some),
        tokens_of(executions, submits, siblings) matches Ok(t) ==> Some(t.execution)
            == first_value(executions) && Some(t.submit) == first_value(submits) && Some(
            t.visitor_fingerprint,
        ) == input_value(siblings.unwrap(), "fpVisitorId"@),
        first_value(executions) is None ==> tokens_of(executions, submits, siblings) == Err::<
            LoginFormTokensView,
            LoginErrorView,
        >(missing_execution()),
{
}

/// Children without an input of the name asked for hold no value.
pub proof fn lemma_no_input_no_value(children: Seq<ChildNodeView>, name: Seq<char>)
    requires
        forall|i: int| 0 <= i < children.len() ==> !is_input_named(#[trigger] children[i], name),
    ensures
        input_value(children, name) is None,
    decreases children.len(),
{
    if children.len() > 0 {
        let rest = children.skip(1);
        assert(!is_input_named(children[0], name));
        assert forall|i: int| 0 <= i < rest.len() implies !is_input_named(
            #[trigger] rest[i],
            name,
        ) by {
            assert(rest[i] == children[i + 1]);
        }
        lemma_no_input_no_value(rest, name);
    }
}

/// The value found is that of the first input of the name asked for.
pub proof fn lemma_first_input_gives_value(children: Seq<ChildNodeView>, name: Seq<char>, i: int)
    requires
        0 <= i < children.len(),
        is_input_named(children[i], name),
        forall|j: int| 0 <= j < i ==> !is_input_named(#[trigger] children[j], name),
    ensures
        input_value(children, name) == Some(or_empty(children[i].value)),
    decreases i,
{
    if i > 0 {
        let rest = children.skip(1);
        assert(!is_input_named(children[0], name));
        assert(rest[i - 1] == children[i]);
        assert forall|j: int| 0 <= j < i - 1 implies !is_input_named(#[trigger] rest[j], name) by {
            assert(rest[j] == children[j + 1]);
        }
        lemma_first_input_gives_value(rest, name, i - 1);
    }
}

} // verus!
