//! Following redirects by hand.
//!
//! The transport never follows a redirect itself. After each response the
//! follower decides: hand the response back, ask for the next hop, or give
//! up. A caller may name a stop rule to catch a chain at a meaningful hop;
//! a response that the rule matches is handed back as it is, even when it
//! is itself a redirect.

use vstd::prelude::*;
use vstd::string::*;
use crate::http::{
    is_redirect, Location, LocationView, ReadBody, Request, RequestView, Response, ResponseView,
    FOUND, MOVED_PERMANENTLY,
};
use crate::login::{LoginError, LoginErrorView};
use crate::text::starts_with;

verus! {

/// The number of requests one chain may take.
pub const MAX_HOPS: u8 = 10;

/// The message of the error that ends a chain longer than `MAX_HOPS`.
pub open spec fn too_many_redirects() -> Seq<char> {
    "Too many redirects"@
}

/// Stops a chain at a response that is no 302, or whose `Location` begins
/// with `success_prefix`.
#[derive(Debug, PartialEq, Eq)]
pub struct StopRule {
    pub success_prefix: String,
}

/// The mathematical value of a `StopRule`.
pub struct StopRuleView {
    pub success_prefix: Seq<char>,
}

impl View for StopRule {
    type V = StopRuleView;

    open spec fn view(&self) -> StopRuleView {
        StopRuleView { success_prefix: self.success_prefix@ }
    }
}

impl StopRuleView {
    /// Whether the rule stops the chain at `r`.
    pub open spec fn matches(self, r: ResponseView) -> bool {
        r.status != FOUND || match r.location {
            LocationView::Text(target) => self.success_prefix.is_prefix_of(target),
            _ => false,
        }
    }
}

impl StopRule {
    /// Whether the rule stops the chain at `r`.
    pub fn matches(&self, r: &Response) -> (stop: bool)
        ensures
            stop == self@.matches(r@),
    {
        if r.status != FOUND {
            true
        } else {
            match &r.location {
                Location::Text(target) => starts_with(target.as_str(), self.success_prefix.as_str()),
                _ => false,
            }
        }
    }
}

/// A chain in progress: the URL to ask next, and how many requests of the
/// chain were answered already.
#[derive(Debug, PartialEq, Eq)]
pub struct RedirectFollower {
    pub url: String,
    pub hops: u8,
    pub stop: Option<StopRule>,
    pub read: ReadBody,
}

/// The mathematical value of a `RedirectFollower`.
pub struct FollowerView {
    pub url: Seq<char>,
    pub hops: nat,
    pub stop: Option<StopRuleView>,
    pub read: ReadBody,
}

impl View for RedirectFollower {
    type V = FollowerView;

    open spec fn view(&self) -> FollowerView {
        FollowerView {
            url: self.url@,
            hops: self.hops as nat,
            stop: match self.stop {
                Some(rule) => Some(rule@),
                None => None,
            },
            read: self.read,
        }
    }
}

/// What the follower makes of one response.
#[derive(Debug, PartialEq, Eq)]
pub enum FollowStep {
    /// The chain goes on: send the follower's request.
    Request(RedirectFollower),
    /// The chain ended with this response.
    Finished(Response),
    /// The chain is given up.
    Failed(LoginError),
}

/// The mathematical value of a `FollowStep`.
pub enum FollowStepView {
    Request(FollowerView),
    Finished(ResponseView),
    Failed(LoginErrorView),
}

impl View for FollowStep {
    type V = FollowStepView;

    open spec fn view(&self) -> FollowStepView {
        match self {
            FollowStep::Request(f) => FollowStepView::Request(f@),
            FollowStep::Finished(r) => FollowStepView::Finished(r@),
            FollowStep::Failed(e) => FollowStepView::Failed(e@),
        }
    }
}

impl FollowerView {
    /// A follower about to ask for `url`, with no request answered yet.
    pub open spec fn fresh(url: Seq<char>, stop: Option<StopRuleView>, read: ReadBody)
        -> FollowerView {
        FollowerView { url, hops: 0, stop, read }
    }

    /// The request the follower waits on: a GET of its URL.
    pub open spec fn request(self) -> RequestView {
        RequestView::get(self.url, self.read)
    }

    /// Whether the follower's stop rule matches `r`. Without a rule
    /// nothing matches.
    pub open spec fn stops_at(self, r: ResponseView) -> bool {
        match self.stop {
            Some(rule) => rule.matches(r),
            None => false,
        }
    }

    /// Whether `r` sends the follower on to another URL: the stop rule
    /// does not match, and `r` is a redirect whose `Location` is text.
    pub open spec fn forwards(self, r: ResponseView) -> bool {
        !self.stops_at(r) && is_redirect(r.status) && r.location is Text
    }

    /// The follower's decision on the response `r` to its request.
    pub open spec fn after(self, r: ResponseView) -> FollowStepView {
        if self.stops_at(r) {
            FollowStepView::Finished(r)
        } else if is_redirect(r.status) {
            match r.location {
                LocationView::Text(target) => if self.hops + 1 >= MAX_HOPS {
                    FollowStepView::Failed(LoginErrorView::Other(too_many_redirects()))
                } else {
                    FollowStepView::Request(
                        FollowerView {
                            url: target,
                            hops: self.hops + 1,
                            stop: self.stop,
                            read: self.read,
                        },
                    )
                },
                _ => FollowStepView::Failed(LoginErrorView::ExpectedRedirect(self.url, r.status)),
            }
        } else {
            FollowStepView::Finished(r)
        }
    }

    /// The state of the chain once the responses of `chain` have come in,
    /// one per request, in order. Responses after the one that ends the
    /// chain are never asked for and do not count.
    pub open spec fn run(self, chain: Seq<ResponseView>) -> FollowStepView
        decreases chain.len(),
    {
        if chain.len() == 0 {
            FollowStepView::Request(self)
        } else {
            match self.after(chain[0]) {
                FollowStepView::Request(next) => next.run(chain.skip(1)),
                done => done,
            }
        }
    }
}

impl RedirectFollower {
    /// A follower about to ask for `url`.
    pub fn new(url: String, stop: Option<StopRule>, read: ReadBody) -> (f: RedirectFollower)
        ensures
            f@ == FollowerView::fresh(
                url@,
                match stop {
                    Some(rule) => Some(rule@),
                    None => None,
                },
                read,
            ),
    {
        RedirectFollower { url, hops: 0, stop, read }
    }

    /// The request the follower waits on: a GET of its URL.
    pub fn request(&self) -> (req: Request)
        ensures
            req@ == self@.request(),
    {
        Request::get(self.url.as_str(), self.read)
    }

    /// Takes the response to the follower's request and decides how the
    /// chain goes on.
    pub fn on_response(self, resp: Response) -> (step: FollowStep)
        ensures
            step@ == self@.after(resp@),
    {
        let stopped = match &self.stop {
            Some(rule) => rule.matches(&resp),
            None => false,
        };
        if stopped {
            FollowStep::Finished(resp)
        } else if resp.status == MOVED_PERMANENTLY || resp.status == FOUND {
            match resp.location {
                Location::Text(target) => {
                    if self.hops >= MAX_HOPS - 1 {
                        FollowStep::Failed(
                            LoginError::Other(String::from_str("Too many redirects")),
                        )
                    } else {
                        FollowStep::Request(
                            RedirectFollower {
                                url: target,
                                hops: self.hops + 1,
                                stop: self.stop,
                                read: self.read,
                            },
                        )
                    }
                },
                _ => FollowStep::Failed(LoginError::ExpectedRedirect(self.url, resp.status)),
            }
        } else {
            FollowStep::Finished(resp)
        }
    }
}

/// A chain of at most `MAX_HOPS` responses, all but the last of which send
/// the follower on, ends with its last response once that response is no
/// redirect or is matched by the stop rule.
pub proof fn lemma_chain_reaches_last(f: FollowerView, chain: Seq<ResponseView>)
    requires
        0 < chain.len(),
        f.hops + chain.len() <= MAX_HOPS,
        forall|i: int| 0 <= i < chain.len() - 1 ==> f.forwards(#[trigger] chain[i]),
        f.stops_at(chain.last()) || !is_redirect(chain.last().status),
    ensures
        f.run(chain) == FollowStepView::Finished(chain.last()),
    decreases chain.len(),
{
    if chain.len() == 1 {
        assert(chain.skip(1).len() == 0);
    } else {
        assert(f.forwards(chain[0]));
        let next = f.after(chain[0])->Request_0;
        let rest = chain.skip(1);
        assert(rest.last() == chain.last());
        assert forall|i: int| 0 <= i < rest.len() - 1 implies next.forwards(#[trigger] rest[i]) by {
            assert(rest[i] == chain[i + 1]);
            assert(f.forwards(chain[i + 1]));
        }
        lemma_chain_reaches_last(next, rest);
    }
}

/// A fresh follower gives up with the bounded-loop error on any chain whose
/// first `MAX_HOPS` responses all send it on.
pub proof fn lemma_long_chain_fails(f: FollowerView, chain: Seq<ResponseView>)
    requires
        f.hops <= MAX_HOPS - 1,
        chain.len() >= MAX_HOPS - f.hops,
        forall|i: int| 0 <= i < MAX_HOPS - f.hops ==> f.forwards(#[trigger] chain[i]),
    ensures
        f.run(chain) == FollowStepView::Failed(LoginErrorView::Other(too_many_redirects())),
    decreases MAX_HOPS - f.hops,
{
    assert(f.forwards(chain[0]));
    if f.hops + 1 < MAX_HOPS {
        let next = f.after(chain[0])->Request_0;
        let rest = chain.skip(1);
        assert forall|i: int| 0 <= i < MAX_HOPS - next.hops implies next.forwards(
            #[trigger] rest[i],
        ) by {
            assert(rest[i] == chain[i + 1]);
            assert(f.forwards(chain[i + 1]));
        }
        lemma_long_chain_fails(next, rest);
    }
}

/// What comes after the response that ends a chain has no effect on the
/// outcome.
pub proof fn lemma_run_ignores_tail(
    f: FollowerView,
    chain: Seq<ResponseView>,
    tail: Seq<ResponseView>,
)
    requires
        !(f.run(chain) is Request),
    ensures
        f.run(chain + tail) == f.run(chain),
    decreases chain.len(),
{
    if chain.len() > 0 {
        assert((chain + tail)[0] == chain[0]);
        assert((chain + tail).skip(1) =~= chain.skip(1) + tail);
        match f.after(chain[0]) {
            FollowStepView::Request(next) => {
                lemma_run_ignores_tail(next, chain.skip(1), tail);
            },
            _ => {},
        }
    }
}

/// When the stop rule matches the `k`-th response of a chain, and every
/// response before it sent the follower on, the chain ends with exactly
/// that response, redirect or not, whatever the server would have said
/// afterwards.
pub proof fn lemma_stop_rule_returns_hop(f: FollowerView, chain: Seq<ResponseView>, k: int)
    requires
        1 <= k <= chain.len(),
        f.hops + k <= MAX_HOPS,
        forall|i: int| 0 <= i < k - 1 ==> f.forwards(#[trigger] chain[i]),
        f.stops_at(chain[k - 1]),
    ensures
        f.run(chain) == FollowStepView::Finished(chain[k - 1]),
{
    let head = chain.take(k);
    let tail = chain.skip(k);
    assert(head + tail =~= chain);
    assert(head.last() == chain[k - 1]);
    assert forall|i: int| 0 <= i < head.len() - 1 implies f.forwards(#[trigger] head[i]) by {
        assert(head[i] == chain[i]);
    }
    lemma_chain_reaches_last(f, head);
    lemma_run_ignores_tail(f, head, tail);
}

} // verus!
