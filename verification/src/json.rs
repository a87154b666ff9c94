//! A JSON value as plain data, with the lookups the flow needs.
//!
//! The transport decodes response bodies and encodes request bodies; this
//! module only inspects and builds trees.

use vstd::prelude::*;
use vstd::string::*;
use crate::text::str_eq;

verus! {

/// One member of a JSON object.
#[derive(Debug, PartialEq, Eq)]
pub struct Member {
    pub key: String,
    pub value: Json,
}

/// A JSON value. Numbers are kept as the text they are written with.
/// An object keeps its members in order; a lookup takes the first member
/// with the key asked for.
#[derive(Debug, PartialEq, Eq)]
pub enum Json {
    Null,
    Bool(bool),
    Number(String),
    Text(String),
    Array(Vec<Json>),
    Object(Vec<Member>),
}

/// The mathematical value of a `Json`.
pub enum JsonView {
    Null,
    Bool(bool),
    Number(Seq<char>),
    Text(Seq<char>),
    Array(Seq<JsonView>),
    Object(Seq<MemberView>),
}

/// The mathematical value of a `Member`.
pub struct MemberView {
    pub key: Seq<char>,
    pub value: JsonView,
}

impl View for Member {
    type V = MemberView;

    open spec fn view(&self) -> MemberView {
        MemberView { key: self.key@, value: self.value@ }
    }
}

impl View for Json {
    type V = JsonView;

    open spec fn view(&self) -> JsonView
        decreases self,
    {
        match self {
            Json::Null => JsonView::Null,
            Json::Bool(b) => JsonView::Bool(*b),
            Json::Number(n) => JsonView::Number(n@),
            Json::Text(s) => JsonView::Text(s@),
            Json::Array(items) => JsonView::Array(
                Seq::new(
                    items@.len(),
                    |i: int|
                        if 0 <= i < items@.len() {
                            items@[i].view()
                        } else {
                            JsonView::Null
                        },
                ),
            ),
            Json::Object(members) => JsonView::Object(
                Seq::new(
                    members@.len(),
                    |i: int|
                        if 0 <= i < members@.len() {
                            MemberView { key: members@[i].key@, value: members@[i].value.view() }
                        } else {
                            MemberView { key: Seq::empty(), value: JsonView::Null }
                        },
                ),
            ),
        }
    }
}

/// The views of the members of an object, in order.
pub open spec fn members_view(members: Seq<Member>) -> Seq<MemberView> {
    Seq::new(members.len(), |i: int| members[i]@)
}

/// An object's view lists the views of its members.
pub proof fn lemma_object_view(members: Vec<Member>)
    ensures
        Json::Object(members)@ == JsonView::Object(members_view(members@)),
{
    let direct = Json::Object(members)@->Object_0;
    assert(direct.len() == members@.len());
    assert forall|i: int| 0 <= i < direct.len() implies direct[i] == members_view(members@)[i] by {
        assert(members@[i]@ == MemberView { key: members@[i].key@, value: members@[i].value@ });
    }
    assert(direct =~= members_view(members@));
}

/// The value of the first member of `members` whose key is `key`.
pub open spec fn find_member(members: Seq<MemberView>, key: Seq<char>) -> Option<
    JsonView,
>
    decreases members.len(),
{
    if members.len() == 0 {
        None
    } else if members[0].key == key {
        Some(members[0].value)
    } else {
        find_member(members.skip(1), key)
    }
}

impl JsonView {
    /// The member `key` of an object; `None` for any other value and for an
    /// object without that key.
    pub open spec fn member(self, key: Seq<char>) -> Option<JsonView> {
        match self {
            JsonView::Object(members) => find_member(members, key),
            _ => None,
        }
    }

    /// The characters of a JSON string; `None` for any other value.
    pub open spec fn text(self) -> Option<Seq<char>> {
        match self {
            JsonView::Text(s) => Some(s),
            _ => None,
        }
    }

    /// The text found at `outer.inner`, when both members exist and the
    /// inner one is a string.
    pub open spec fn text_at(self, outer: Seq<char>, inner: Seq<char>) -> Option<Seq<char>> {
        match self.member(outer) {
            Some(o) => match o.member(inner) {
                Some(v) => v.text(),
                None => None,
            },
            None => None,
        }
    }
}

impl Json {
    /// Looks up a member of an object by key.
    pub fn get(&self, key: &str) -> (found: Option<&Json>)
        ensures
            match found {
                Some(v) => self@.member(key@) == Some(v@),
                None => self@.member(key@) is None,
            },
    {
        match self {
            Json::Object(members) => {
                let ghost all = members_view(members@);
                proof {
                    lemma_object_view(*members);
                    assert(all.skip(0) =~= all);
                }
                let mut i: usize = 0;
                while i < members.len()
                    invariant
                        i <= members.len(),
                        self@ == JsonView::Object(all),
                        all.len() == members@.len(),
                        forall|j: int|
                            0 <= j < members@.len() ==> all[j] == #[trigger] members@[j]@,
                        find_member(all, key@) == find_member(all.skip(i as int), key@),
                    decreases members.len() - i,
                {
                    assert(all.skip(i as int)[0] == all[i as int]);
                    assert(all[i as int] == members@[i as int]@);
                    if str_eq(members[i].key.as_str(), key) {
                        return Some(&members[i].value);
                    }
                    assert(all.skip(i as int).skip(1) =~= all.skip(i as int + 1));
                    i = i + 1;
                }
                None
            },
            _ => None,
        }
    }

    /// The contents of a JSON string.
    pub fn as_str(&self) -> (text: Option<&str>)
        ensures
            match text {
                Some(s) => self@.text() == Some(s@),
                None => self@.text() is None,
            },
    {
        match self {
            Json::Text(s) => Some(s.as_str()),
            _ => None,
        }
    }

    /// The string found at `outer.inner`.
    pub fn str_at(&self, outer: &str, inner: &str) -> (text: Option<&str>)
        ensures
            match text {
                Some(s) => self@.text_at(outer@, inner@) == Some(s@),
                None => self@.text_at(outer@, inner@) is None,
            },
    {
        match self.get(outer) {
            Some(o) => match o.get(inner) {
                Some(v) => v.as_str(),
                None => None,
            },
            None => None,
        }
    }
}

} // verus!
