//! The course selection service, as far as it can be decided without the
//! network: the records it answers with, the documents it is asked with,
//! and how its answers are read.

use vstd::prelude::*;
use vstd::string::*;
use crate::json::{lemma_object_view, members_view, Json, JsonView, Member, MemberView};
use crate::text::{decimal, parse_u32, parsed_u32, str_eq, to_decimal};

verus! {

/// Who may take a teaching class.
#[derive(Clone, Copy, Debug, PartialEq, Eq, Structural)]
pub enum GenderLimit {
    /// Anyone.
    Unlimited,
    /// Men only.
    Male,
    /// Women only.
    Female,
}

impl GenderLimit {
    /// The limit in words.
    pub fn label(&self) -> (text: &'static str)
        ensures
            text@ == match *self {
                GenderLimit::Unlimited => "不限"@,
                GenderLimit::Male => "仅限男生"@,
                GenderLimit::Female => "仅限女生"@,
            },
    {
        match self {
            GenderLimit::Unlimited => "不限",
            GenderLimit::Male => "仅限男生",
            GenderLimit::Female => "仅限女生",
        }
    }

    /// The limit that the service writes as `code`: "0", "1" or "2".
    pub open spec fn of_code(code: Seq<char>) -> Option<GenderLimit> {
        if code == "0"@ {
            Some(GenderLimit::Unlimited)
        } else if code == "1"@ {
            Some(GenderLimit::Male)
        } else if code == "2"@ {
            Some(GenderLimit::Female)
        } else {
            None
        }
    }

    /// Reads a limit from the service's code for it.
    pub fn from_code(code: &str) -> (limit: Option<GenderLimit>)
        ensures
            limit == GenderLimit::of_code(code@),
    {
        if str_eq(code, "0") {
            Some(GenderLimit::Unlimited)
        } else if str_eq(code, "1") {
            Some(GenderLimit::Male)
        } else if str_eq(code, "2") {
            Some(GenderLimit::Female)
        } else {
            None
        }
    }
}

/// The kinds of course lists, in the order of the service's pages.
#[derive(Clone, Copy, Debug, PartialEq, Eq, Structural)]
pub enum CourseType {
    /// Courses recommended for the major.
    TJKC,
    /// Courses of the programme, other years.
    FANKC,
    /// Courses of the programme, other majors.
    FAWKC,
    /// General education.
    XGXK,
    /// Retakes.
    CXKC,
    /// Physical education.
    TYKC,
    /// Courses for a minor.
    FXKC,
    /// The whole timetable.
    QXKC,
}

impl CourseType {
    /// The name that the service knows the kind by.
    pub open spec fn code_of(self) -> Seq<char> {
        match self {
            CourseType::TJKC => "TJKC"@,
            CourseType::FANKC => "FANKC"@,
            CourseType::FAWKC => "FAWKC"@,
            CourseType::XGXK => "XGXK"@,
            CourseType::CXKC => "CXKC"@,
            CourseType::TYKC => "TYKC"@,
            CourseType::FXKC => "FXKC"@,
            CourseType::QXKC => "QXKC"@,
        }
    }

    /// See `code_of`.
    pub fn code(&self) -> (text: &'static str)
        ensures
            text@ == self.code_of(),
    {
        match self {
            CourseType::TJKC => "TJKC",
            CourseType::FANKC => "FANKC",
            CourseType::FAWKC => "FAWKC",
            CourseType::XGXK => "XGXK",
            CourseType::CXKC => "CXKC",
            CourseType::TYKC => "TYKC",
            CourseType::FXKC => "FXKC",
            CourseType::QXKC => "QXKC",
        }
    }
}

/// One round of course selection.
#[derive(Debug, PartialEq, Eq)]
pub struct Batch {
    pub batch_type: String,
    pub begin_time: String,
    pub code: String,
    pub end_time: String,
    pub name: String,
    pub school_term: String,
    pub school_term_name: String,
    /// The code of the selection policy.
    pub tactic_code: String,
    /// The name of the selection policy.
    pub tactic_name: String,
    /// The code of the kind of round.
    pub type_code: String,
    /// The name of the kind of round.
    pub type_label: String,
    /// The weeks the round covers.
    pub week_range: String,
}

/// One teaching class of a course.
#[derive(Debug, PartialEq, Eq)]
pub struct TeachingClass {
    pub course_number: String,
    /// The class's unique identifier.
    pub teaching_class_id: String,
    pub teacher_name: String,
    /// When and where the class meets.
    pub teaching_place: String,
    pub class_capacity: String,
    pub number_of_selected: String,
    pub limit_gender: GenderLimit,
    /// Whether the student has chosen this class.
    pub is_choose: bool,
    pub is_full: bool,
    /// Whether the class collides with one already chosen.
    pub is_conflict: bool,
}

/// One course with its teaching classes.
#[derive(Debug, PartialEq, Eq)]
pub struct CourseInfo {
    pub department_name: String,
    /// Compulsory, elective and the like.
    pub course_nature_name: String,
    /// Whether the student has chosen the course.
    pub selected: bool,
    pub tc_list: Vec<TeachingClass>,
    pub course_number: String,
    pub course_name: String,
    pub type_code: String,
    pub type_label: String,
    pub hours: String,
    pub credit: String,
    pub major_flag: String,
}

/// How full a teaching class is.
#[derive(Clone, Copy, Debug, PartialEq, Eq, Structural)]
pub struct CapacityInfo {
    pub number_of_male: u32,
    pub capacity_of_male: u32,
    pub number_of_female: u32,
    pub capacity_of_female: u32,
    pub number_of_selected: u32,
    pub class_capacity: u32,
}

/// The service writes its flags as text: "1" is yes, anything else no.
pub fn flag_from_text(text: &str) -> (flag: bool)
    ensures
        flag == (text@ == "1"@),
{
    str_eq(text, "1")
}

/// `taken` of `capacity`, written as the service's pages do.
pub open spec fn ratio(taken: u32, capacity: u32) -> Seq<char> {
    decimal(taken as nat) + "/"@ + decimal(capacity as nat)
}

impl CapacityInfo {
    /// The capacity as one line of text.
    pub open spec fn description(self) -> Seq<char> {
        "男生："@ + ratio(self.number_of_male, self.capacity_of_male) + "，女生："@ + ratio(
            self.number_of_female,
            self.capacity_of_female,
        ) + "，总计："@ + ratio(self.number_of_selected, self.class_capacity)
    }

    /// See `description`.
    pub fn describe(&self) -> (text: String)
        ensures
            text@ == self.description(),
    {
        let mut text = String::from_str("男生：");
        append_ratio(&mut text, self.number_of_male, self.capacity_of_male);
        text.append("，女生：");
        append_ratio(&mut text, self.number_of_female, self.capacity_of_female);
        text.append("，总计：");
        append_ratio(&mut text, self.number_of_selected, self.class_capacity);
        text
    }

    /// The capacity that the six counts spell, each a decimal numeral that
    /// fits 32 bits; `None` when one of them is no such numeral.
    pub open spec fn of_counts(
        number_of_male: Seq<char>,
        capacity_of_male: Seq<char>,
        number_of_female: Seq<char>,
        capacity_of_female: Seq<char>,
        number_of_selected: Seq<char>,
        class_capacity: Seq<char>,
    ) -> Option<CapacityInfo> {
        match (
            parsed_u32(number_of_male),
            parsed_u32(capacity_of_male),
            parsed_u32(number_of_female),
            parsed_u32(capacity_of_female),
            parsed_u32(number_of_selected),
            parsed_u32(class_capacity),
        ) {
            (Some(a), Some(b), Some(c), Some(d), Some(e), Some(f)) => Some(
                CapacityInfo {
                    number_of_male: a,
                    capacity_of_male: b,
                    number_of_female: c,
                    capacity_of_female: d,
                    number_of_selected: e,
                    class_capacity: f,
                },
            ),
            _ => None,
        }
    }

    /// The capacity in the service's answer `answer`: the six counts are
    /// texts under `data`.
    pub open spec fn of_answer(answer: JsonView) -> Option<CapacityInfo> {
        match (
            answer.text_at("data"@, "numberOfMale"@),
            answer.text_at("data"@, "capacityOfMale"@),
            answer.text_at("data"@, "numberOfFemale"@),
            answer.text_at("data"@, "capacityOfFemale"@),
            answer.text_at("data"@, "numberOfSelected"@),
            answer.text_at("data"@, "classCapacity"@),
        ) {
            (Some(a), Some(b), Some(c), Some(d), Some(e), Some(f)) => CapacityInfo::of_counts(
                a,
                b,
                c,
                d,
                e,
                f,
            ),
            _ => None,
        }
    }

    /// Reads the capacity from the service's answer.
    pub fn from_answer(answer: &Json) -> (info: Option<CapacityInfo>)
        ensures
            info == CapacityInfo::of_answer(answer@),
    {
        let number_of_male = count_at(answer, "numberOfMale")?;
        let capacity_of_male = count_at(answer, "capacityOfMale")?;
        let number_of_female = count_at(answer, "numberOfFemale")?;
        let capacity_of_female = count_at(answer, "capacityOfFemale")?;
        let number_of_selected = count_at(answer, "numberOfSelected")?;
        let class_capacity = count_at(answer, "classCapacity")?;
        Some(
            CapacityInfo {
                number_of_male,
                capacity_of_male,
                number_of_female,
                capacity_of_female,
                number_of_selected,
                class_capacity,
            },
        )
    }
}

/// Appends `taken`/`capacity` to `text`.
fn append_ratio(text: &mut String, taken: u32, capacity: u32)
    ensures
        final(text)@ == old(text)@ + ratio(taken, capacity),
{
    let taken_text = to_decimal(taken as u64);
    let capacity_text = to_decimal(capacity as u64);
    text.append(taken_text.as_str());
    text.append("/");
    text.append(capacity_text.as_str());
}

/// The count under `data.key`, when it is there and is a numeral.
pub open spec fn count_of(answer: JsonView, key: Seq<char>) -> Option<u32> {
    match answer.text_at("data"@, key) {
        Some(text) => parsed_u32(text),
        None => None,
    }
}

fn count_at(answer: &Json, key: &str) -> (count: Option<u32>)
    ensures
        count == count_of(answer@, key@),
{
    match answer.str_at("data", key) {
        Some(text) => parse_u32(text),
        None => None,
    }
}

/// The student a course session belongs to, and the token that the
/// service wants on every request of the session.
#[derive(Debug, PartialEq, Eq)]
pub struct CourseSession {
    /// The student number.
    pub number: String,
    pub name: String,
    pub token: String,
}

/// The mathematical value of a `CourseSession`.
pub struct CourseSessionView {
    pub number: Seq<char>,
    pub name: Seq<char>,
    pub token: Seq<char>,
}

impl View for CourseSession {
    type V = CourseSessionView;

    open spec fn view(&self) -> CourseSessionView {
        CourseSessionView { number: self.number@, name: self.name@, token: self.token@ }
    }
}

/// The member `key` with the text `value`.
pub open spec fn text_member_of(key: Seq<char>, value: Seq<char>) -> MemberView {
    MemberView { key, value: JsonView::Text(value) }
}

fn text_member(key: &str, value: &str) -> (member: Member)
    ensures
        member@ == text_member_of(key@, value@),
{
    Member { key: String::from_str(key), value: Json::Text(String::from_str(value)) }
}

fn object(members: Vec<Member>) -> (json: Json)
    ensures
        json@ == JsonView::Object(members_view(members@)),
{
    proof {
        lemma_object_view(members);
    }
    Json::Object(members)
}

impl CourseSessionView {
    /// The session in the service's answer to the registration request:
    /// number, name and token are texts under `data`.
    pub open spec fn of_profile(answer: JsonView) -> Option<CourseSessionView> {
        match (
            answer.text_at("data"@, "number"@),
            answer.text_at("data"@, "name"@),
            answer.text_at("data"@, "token"@),
        ) {
            (Some(number), Some(name), Some(token)) => Some(
                CourseSessionView { number, name, token },
            ),
            _ => None,
        }
    }

    /// The document that asks for page `page` of the courses of kind
    /// `course_type` in round `batch_code` that match `query`.
    pub open spec fn list_query(
        self,
        batch_code: Seq<char>,
        course_type: CourseType,
        page: u32,
        query: Seq<char>,
    ) -> JsonView {
        JsonView::Object(
            seq![
                MemberView {
                    key: "data"@,
                    value: JsonView::Object(
                        seq![
                            text_member_of("studentCode"@, self.number),
                            text_member_of("campus"@, "1"@),
                            text_member_of("electiveBatchCode"@, batch_code),
                            text_member_of("isMajor"@, "1"@),
                            text_member_of("teachingClassType"@, course_type.code_of()),
                            text_member_of("checkConflict"@, "2"@),
                            text_member_of("checkCapacity"@, "2"@),
                            text_member_of("queryContent"@, query),
                        ],
                    ),
                },
                text_member_of("pageSize"@, "10"@),
                text_member_of("pageNumber"@, decimal(page as nat)),
                text_member_of("order"@, ""@),
            ],
        )
    }

    /// The document that withdraws the choice of the class `class_id` in
    /// round `batch_code`.
    pub open spec fn delete_query(self, batch_code: Seq<char>, class_id: Seq<char>) -> JsonView {
        JsonView::Object(
            seq![
                MemberView {
                    key: "data"@,
                    value: JsonView::Object(
                        seq![
                            text_member_of("operationType"@, "2"@),
                            text_member_of("studentCode"@, self.number),
                            text_member_of("electiveBatchCode"@, batch_code),
                            text_member_of("teachingClassId"@, class_id),
                            text_member_of("isMajor"@, "1"@),
                        ],
                    ),
                },
            ],
        )
    }

    /// The document that chooses the class `class_id` of kind
    /// `course_type` in round `batch_code`.
    pub open spec fn add_query(
        self,
        batch_code: Seq<char>,
        class_id: Seq<char>,
        course_type: CourseType,
    ) -> JsonView {
        JsonView::Object(
            seq![
                MemberView {
                    key: "data"@,
                    value: JsonView::Object(
                        seq![
                            text_member_of("operationType"@, "1"@),
                            text_member_of("studentCode"@, self.number),
                            text_member_of("electiveBatchCode"@, batch_code),
                            text_member_of("teachingClassId"@, class_id),
                            text_member_of("isMajor"@, "1"@),
                            text_member_of("campus"@, "1"@),
                            text_member_of("teachingClassType"@, course_type.code_of()),
                        ],
                    ),
                },
            ],
        )
    }
}

impl CourseSession {
    /// Reads the session from the service's answer to the registration
    /// request.
    pub fn from_profile(answer: &Json) -> (session: Option<CourseSession>)
        ensures
            match session {
                Some(s) => CourseSessionView::of_profile(answer@) == Some(s@),
                None => CourseSessionView::of_profile(answer@) is None,
            },
    {
        let number = answer.str_at("data", "number")?;
        let name = answer.str_at("data", "name")?;
        let token = answer.str_at("data", "token")?;
        Some(
            CourseSession {
                number: String::from_str(number),
                name: String::from_str(name),
                token: String::from_str(token),
            },
        )
    }

    /// The document that asks for one page of a course list.
    pub fn list_course_query(
        &self,
        batch: &Batch,
        course_type: CourseType,
        page: u32,
        query: &str,
    ) -> (document: Json)
        ensures
            document@ == self@.list_query(batch.code@, course_type, page, query@),
    {
        let mut data: Vec<Member> = Vec::new();
        data.push(text_member("studentCode", self.number.as_str()));
        data.push(text_member("campus", "1"));
        data.push(text_member("electiveBatchCode", batch.code.as_str()));
        data.push(text_member("isMajor", "1"));
        data.push(text_member("teachingClassType", course_type.code()));
        data.push(text_member("checkConflict", "2"));
        data.push(text_member("checkCapacity", "2"));
        data.push(text_member("queryContent", query));
        let ghost inner = members_view(data@);
        assert(inner =~= seq![
            text_member_of("studentCode"@, self.number@),
            text_member_of("campus"@, "1"@),
            text_member_of("electiveBatchCode"@, batch.code@),
            text_member_of("isMajor"@, "1"@),
            text_member_of("teachingClassType"@, course_type.code_of()),
            text_member_of("checkConflict"@, "2"@),
            text_member_of("checkCapacity"@, "2"@),
            text_member_of("queryContent"@, query@),
        ]);
        let page_text = to_decimal(page as u64);
        let mut members: Vec<Member> = Vec::new();
        members.push(Member { key: String::from_str("data"), value: object(data) });
        members.push(text_member("pageSize", "10"));
        members.push(text_member("pageNumber", page_text.as_str()));
        members.push(text_member("order", ""));
        assert(members_view(members@) =~= seq![
            MemberView { key: "data"@, value: JsonView::Object(inner) },
            text_member_of("pageSize"@, "10"@),
            text_member_of("pageNumber"@, decimal(page as nat)),
            text_member_of("order"@, ""@),
        ]);
        object(members)
    }

    /// The document that withdraws the choice of a class.
    pub fn delete_volunteer_query(&self, batch: &Batch, class_id: &str) -> (document: Json)
        ensures
            document@ == self@.delete_query(batch.code@, class_id@),
    {
        let mut data: Vec<Member> = Vec::new();
        data.push(text_member("operationType", "2"));
        data.push(text_member("studentCode", self.number.as_str()));
        data.push(text_member("electiveBatchCode", batch.code.as_str()));
        data.push(text_member("teachingClassId", class_id));
        data.push(text_member("isMajor", "1"));
        let ghost inner = members_view(data@);
        assert(inner =~= seq![
            text_member_of("operationType"@, "2"@),
            text_member_of("studentCode"@, self.number@),
            text_member_of("electiveBatchCode"@, batch.code@),
            text_member_of("teachingClassId"@, class_id@),
            text_member_of("isMajor"@, "1"@),
        ]);
        let mut members: Vec<Member> = Vec::new();
        members.push(Member { key: String::from_str("data"), value: object(data) });
        assert(members_view(members@) =~= seq![
            MemberView { key: "data"@, value: JsonView::Object(inner) },
        ]);
        object(members)
    }

    /// The document that chooses a class.
    pub fn add_volunteer_query(
        &self,
        batch: &Batch,
        class_id: &str,
        course_type: CourseType,
    ) -> (document: Json)
        ensures
            document@ == self@.add_query(batch.code@, class_id@, course_type),
    {
        let mut data: Vec<Member> = Vec::new();
        data.push(text_member("operationType", "1"));
        data.push(text_member("studentCode", self.number.as_str()));
        data.push(text_member("electiveBatchCode", batch.code.as_str()));
        data.push(text_member("teachingClassId", class_id));
        data.push(text_member("isMajor", "1"));
        data.push(text_member("campus", "1"));
        data.push(text_member("teachingClassType", course_type.code()));
        let ghost inner = members_view(data@);
        assert(inner =~= seq![
            text_member_of("operationType"@, "1"@),
            text_member_of("studentCode"@, self.number@),
            text_member_of("electiveBatchCode"@, batch.code@),
            text_member_of("teachingClassId"@, class_id@),
            text_member_of("isMajor"@, "1"@),
            text_member_of("campus"@, "1"@),
            text_member_of("teachingClassType"@, course_type.code_of()),
        ]);
        let mut members: Vec<Member> = Vec::new();
        members.push(Member { key: String::from_str("data"), value: object(data) });
        assert(members_view(members@) =~= seq![
            MemberView { key: "data"@, value: JsonView::Object(inner) },
        ]);
        object(members)
    }
}

/// Whether the byte `b` stands for itself in a percent-encoded text: an
/// ASCII letter or digit, or one of `-`, `.`, `_`, `~`.
pub open spec fn is_unreserved(b: u8) -> bool {
    (0x30 <= b <= 0x39) || (0x41 <= b <= 0x5a) || (0x61 <= b <= 0x7a) || b == 0x2d || b == 0x2e
        || b == 0x5f || b == 0x7e
}

/// The upper-case hexadecimal digit for `d` (meaningful for `d < 16`).
pub open spec fn hex_digit(d: u8) -> char {
    if d < 10 {
        (0x30 + d) as char
    } else {
        (0x37 + d) as char
    }
}

/// How the byte `b` is written in a percent-encoded text.
pub open spec fn encoded_byte(b: u8) -> Seq<char> {
    if is_unreserved(b) {
        seq![b as char]
    } else {
        seq!['%', hex_digit(b / 16), hex_digit(b % 16)]
    }
}

/// The percent-encoding of `bytes`.
pub open spec fn percent_encoding(bytes: Seq<u8>) -> Seq<char>
    decreases bytes.len(),
{
    if bytes.len() == 0 {
        Seq::empty()
    } else {
        percent_encoding(bytes.drop_last()) + encoded_byte(bytes.last())
    }
}

/// Calls `urlencoding::encode`. Trusted: every byte of the text's UTF-8
/// form is kept if it is unreserved and written as `%` and two upper-case
/// hexadecimal digits if not.
#[verifier::external_body]
pub(crate) fn percent_encode(text: &str) -> (encoded: String)
    ensures
        encoded@ == percent_encoding(text.spec_bytes()),
{
    urlencoding::encode(text).into_owned()
}

/// The form body `name=value` that carries a document's text, with the
/// value percent-encoded.
pub fn form_parameter(name: &str, value: &str) -> (body: String)
    ensures
        body@ == name@ + "="@ + percent_encoding(value.spec_bytes()),
{
    let mut body = String::from_str(name);
    body.append("=");
    let encoded = percent_encode(value);
    body.append(encoded.as_str());
    body
}

} // verus!
