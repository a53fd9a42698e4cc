//! JSON, read one level at a time.
use crate::text::same_text;
use vstd::prelude::*;

verus! {

/// A JSON value. The elements of an array and the members of an object are
/// texts that can be read in turn; members come in the order of their names.
#[derive(Debug, Clone)]
pub enum Json {
    Null,
    Bool(bool),
    Number(String),
    Text(String),
    Array(Vec<String>),
    Object(Vec<(String, String)>),
}

/// A JSON value with its texts as characters.
pub enum JsonView {
    Null,
    Bool(bool),
    Number(Seq<char>),
    Text(Seq<char>),
    Array(Seq<Seq<char>>),
    Object(Seq<(Seq<char>, Seq<char>)>),
}

/// The characters of the names and values of members.
pub open spec fn members_view(members: Seq<(String, String)>) -> Seq<(Seq<char>, Seq<char>)> {
    members.map_values(|m: (String, String)| (m.0@, m.1@))
}

impl View for Json {
    type V = JsonView;

    open spec fn view(&self) -> JsonView {
        match self {
            Json::Null => JsonView::Null,
            Json::Bool(b) => JsonView::Bool(*b),
            Json::Number(n) => JsonView::Number(n@),
            Json::Text(t) => JsonView::Text(t@),
            Json::Array(items) => JsonView::Array(crate::text::list_view(items@)),
            Json::Object(members) => JsonView::Object(members_view(members@)),
        }
    }
}

/// What reading `text` as JSON gives.
pub uninterp spec fn parsed_json(text: Seq<char>) -> Option<JsonView>;

/// `serde_json::from_str` into `serde_json::Value`: the value that `text`
/// writes, or nothing where it is not JSON. Elements and members are given as
/// the text that `serde_json` writes for them.
#[verifier::external_body]
fn read_json(text: &str) -> (r: Option<Json>)
    ensures
        parsed_json(text@) == (match r {
            Some(value) => Some(value@),
            None => None,
        }),
{
    match serde_json::from_str::<serde_json::Value>(text).ok()? {
        serde_json::Value::Null => Some(Json::Null),
        serde_json::Value::Bool(b) => Some(Json::Bool(b)),
        serde_json::Value::Number(n) => Some(Json::Number(n.to_string())),
        serde_json::Value::String(s) => Some(Json::Text(s)),
        serde_json::Value::Array(a) => Some(Json::Array(a.iter().map(|v| v.to_string()).collect())),
        serde_json::Value::Object(o) => {
            Some(Json::Object(o.into_iter().map(|(k, v)| (k, v.to_string())).collect()))
        },
    }
}

/// Reads JSON.
pub fn parse(text: &str) -> (r: Option<Json>)
    ensures
        parsed_json(text@) == (match r {
            Some(value) => Some(value@),
            None => None,
        }),
{
    read_json(text)
}

/// The text of the first member with a name.
pub open spec fn lookup(members: Seq<(Seq<char>, Seq<char>)>, name: Seq<char>) -> Option<Seq<char>>
    decreases members.len(),
{
    if members.len() == 0 {
        None
    } else if members[0].0 == name {
        Some(members[0].1)
    } else {
        lookup(members.drop_first(), name)
    }
}

/// The member of a value with a name, if it is an object that has one.
pub open spec fn member_of(value: JsonView, name: Seq<char>) -> Option<JsonView> {
    match value {
        JsonView::Object(members) => match lookup(members, name) {
            Some(text) => parsed_json(text),
            None => None,
        },
        _ => None,
    }
}

/// The member with a name of the value that `text` writes.
pub open spec fn member(text: Seq<char>, name: Seq<char>) -> Option<JsonView> {
    match parsed_json(text) {
        Some(value) => member_of(value, name),
        None => None,
    }
}

/// The characters of an optional value.
pub open spec fn optional_json(value: Option<Json>) -> Option<JsonView> {
    match value {
        Some(v) => Some(v@),
        None => None,
    }
}

impl Json {
    /// The text of the member with a name.
    pub fn member_text<'a>(&'a self, name: &str) -> (r: Option<&'a String>)
        ensures
            (match self@ {
                JsonView::Object(members) => lookup(members, name@),
                _ => None,
            }) == (match r {
                Some(text) => Some(text@),
                None => None,
            }),
    {
        match self {
            Json::Object(members) => {
                let ghost all = members_view(members@);
                let mut i: usize = 0;
                assert(all.skip(0) =~= all);
                while i < members.len()
                    invariant
                        i <= members.len(),
                        all == members_view(members@),
                        self@ == JsonView::Object(all),
                        lookup(all, name@) == lookup(all.skip(i as int), name@),
                    decreases members.len() - i,
                {
                    proof {
                        assert(all.skip(i as int)[0] == (members@[i as int].0@, members@[i as int].1@));
                        assert(all.skip(i as int).drop_first() =~= all.skip(i + 1));
                    }
                    if same_text(members[i].0.as_str(), name) {
                        return Some(&members[i].1);
                    }
                    i = i + 1;
                }
                None
            },
            _ => None,
        }
    }

    /// The member with a name.
    pub fn member(&self, name: &str) -> (r: Option<Json>)
        ensures
            optional_json(r) == member_of(self@, name@),
    {
        match self.member_text(name) {
            Some(text) => parse(text.as_str()),
            None => None,
        }
    }
}

/// A value that is neither an array nor an object.
#[derive(Debug, Clone)]
pub enum JsonScalar {
    Bool(bool),
    Integer(i64),
    Text(String),
}

/// A scalar with its text as characters.
pub enum JsonScalarView {
    Bool(bool),
    Integer(i64),
    Text(Seq<char>),
}

impl View for JsonScalar {
    type V = JsonScalarView;

    open spec fn view(&self) -> JsonScalarView {
        match self {
            JsonScalar::Bool(b) => JsonScalarView::Bool(*b),
            JsonScalar::Integer(n) => JsonScalarView::Integer(*n),
            JsonScalar::Text(t) => JsonScalarView::Text(t@),
        }
    }
}

/// How a scalar reads back.
pub open spec fn scalar_json(scalar: JsonScalarView) -> JsonView {
    match scalar {
        JsonScalarView::Bool(b) => JsonView::Bool(b),
        JsonScalarView::Integer(n) => JsonView::Number(crate::text::decimal_int(n as int)),
        JsonScalarView::Text(t) => JsonView::Text(t),
    }
}

/// The characters of the names and the views of the values of members.
pub open spec fn scalars_view(members: Seq<(String, JsonScalar)>) -> Seq<
    (Seq<char>, JsonScalarView),
> {
    members.map_values(|m: (String, JsonScalar)| (m.0@, m.1@))
}

/// Whether no two members have the same name.
pub open spec fn distinct_names(members: Seq<(Seq<char>, JsonScalarView)>) -> bool {
    forall|i: int, j: int|
        0 <= i < j < members.len() ==> (#[trigger] members[i]).0 != (#[trigger] members[j]).0
}

/// How an object with scalar members is written.
pub uninterp spec fn written_object(members: Seq<(Seq<char>, JsonScalarView)>) -> Seq<char>;

/// How the value that `text` writes is written anew.
pub uninterp spec fn rewritten_json(text: Seq<char>) -> Option<Seq<char>>;

/// `serde_json::Value`'s `Display` on an object: a text from which each member
/// reads back as it was, and which is written anew as itself.
#[verifier::external_body]
pub(crate) fn write_object(members: Vec<(String, JsonScalar)>) -> (r: String)
    requires
        distinct_names(scalars_view(members@)),
    ensures
        r@ == written_object(scalars_view(members@)),
        forall|i: int|
            0 <= i < members@.len() ==> member(r@, (#[trigger] members@[i]).0@) == Some(
                scalar_json(members@[i].1@),
            ),
        rewritten_json(r@) == Some(r@),
{
    let object = members.into_iter().map(|(name, scalar)| match scalar {
        JsonScalar::Bool(b) => (name, serde_json::Value::Bool(b)),
        JsonScalar::Integer(n) => (name, serde_json::Value::from(n)),
        JsonScalar::Text(t) => (name, serde_json::Value::String(t)),
    }).collect();
    serde_json::Value::Object(object).to_string()
}

/// `serde_json::Value`'s `Display` on what `serde_json::from_str` reads from
/// `text`: the same value in its compact form, with members in the order of
/// their names; nothing where `text` is not JSON.
#[verifier::external_body]
fn rewrite_json(text: &str) -> (r: Option<String>)
    ensures
        rewritten_json(text@) == (match r {
            Some(written) => Some(written@),
            None => None,
        }),
        r is Some <==> parsed_json(text@) is Some,
{
    serde_json::from_str::<serde_json::Value>(text).ok().map(|value| value.to_string())
}

/// How the object that `text` writes is written once its member with a name is
/// the given text; nothing where `text` does not write an object.
pub uninterp spec fn text_with_member(
    text: Seq<char>,
    name: Seq<char>,
    value: Seq<char>,
) -> Option<Seq<char>>;

/// Whether one object follows from another by giving the member with a name a
/// text. Every other member is read again from the text that was written for it.
pub open spec fn has_member_set(
    before: JsonView,
    after: JsonView,
    name: Seq<char>,
    value: Seq<char>,
) -> bool {
    &&& before is Object
    &&& after is Object
    &&& member_of(after, name) == Some(JsonView::Text(value))
    &&& forall|other: Seq<char>|
        other != name ==> #[trigger] lookup(after->Object_0, other) == (match lookup(
            before->Object_0,
            other,
        ) {
            Some(text) => rewritten_json(text),
            None => None,
        })
}

/// `serde_json::Map::insert` on the object that `serde_json::from_str` reads from
/// `text`, which `serde_json::Value`'s `Display` then writes. Where the result can
/// be read, its member is the given text and every other member is what it was,
/// as far as it reads back. Where `text` is written anew as itself, so is the
/// result, and every other member stays as it is. That the result can be read is
/// not claimed otherwise: a number with a fraction or an exponent may lose a
/// digit, or leave the range of numbers, when it is read again.
#[verifier::external_body]
pub(crate) fn set_text_member(text: &str, name: &str, value: &str) -> (r: Option<String>)
    ensures
        text_with_member(text@, name@, value@) == (match r {
            Some(written) => Some(written@),
            None => None,
        }),
        r is Some <==> (parsed_json(text@) matches Some(JsonView::Object(_))),
        r matches Some(written) ==> parsed_json(written@) is Some ==> has_member_set(
            parsed_json(text@)->0,
            parsed_json(written@)->0,
            name@,
            value@,
        ),
        r matches Some(written) ==> rewritten_json(text@) == Some(text@) ==> {
            &&& rewritten_json(written@) == Some(written@)
            &&& parsed_json(written@) is Some
            &&& forall|other: Seq<char>|
                other != name@ ==> #[trigger] lookup(parsed_json(written@)->0->Object_0, other)
                    == lookup(parsed_json(text@)->0->Object_0, other)
        },
{
    match serde_json::from_str::<serde_json::Value>(text).ok()? {
        serde_json::Value::Object(mut members) => {
            members.insert(name.to_owned(), serde_json::Value::String(value.to_owned()));
            Some(serde_json::Value::Object(members).to_string())
        },
        _ => None,
    }
}

/// A JSON value, held as the text that is written for it.
#[derive(Debug, Clone)]
pub struct JsonText {
    pub text: String,
}

impl JsonText {
    /// Whether the value reads back as itself. A number with a fraction or an
    /// exponent may lose a digit on the way.
    pub open spec fn reads_back(self) -> bool {
        rewritten_json(self.text@) == Some(self.text@)
    }

    /// Reads a value.
    pub fn parse(text: &str) -> (r: Option<JsonText>)
        ensures
            rewritten_json(text@) == (match r {
                Some(value) => Some(value.text@),
                None => None,
            }),
            r is Some <==> parsed_json(text@) is Some,
    {
        match rewrite_json(text) {
            Some(written) => Some(JsonText { text: written }),
            None => None,
        }
    }
}

/// A name finds the first member that has it, and nothing where none has it.
pub proof fn law_names_find_the_first_member(
    members: Seq<(Seq<char>, Seq<char>)>,
    name: Seq<char>,
    at: int,
)
    ensures
        0 <= at < members.len() && members[at].0 == name && (forall|k: int|
            0 <= k < at ==> (#[trigger] members[k]).0 != name) ==> lookup(members, name) == Some(
            members[at].1,
        ),
        (forall|k: int| 0 <= k < members.len() ==> (#[trigger] members[k]).0 != name) ==> lookup(
            members,
            name,
        ) is None,
    decreases members.len(),
{
    if members.len() > 0 && members[0].0 != name {
        let rest = members.drop_first();
        law_names_find_the_first_member(rest, name, at - 1);
        assert forall|k: int| 0 <= k < rest.len() implies #[trigger] rest[k] == members[k + 1] by {}
    }
}

/// Only an object has members: the value of one is what its text writes.
pub proof fn law_only_objects_have_members(
    text: Seq<char>,
    name: Seq<char>,
    members: Seq<(Seq<char>, Seq<char>)>,
)
    ensures
        parsed_json(text) is None ==> member(text, name) is None,
        parsed_json(text) matches Some(value) ==> !(value is Object) ==> member(text, name) is None,
        parsed_json(text) == Some(JsonView::Object(members)) ==> lookup(members, name) is None
            ==> member(text, name) is None,
        parsed_json(text) == Some(JsonView::Object(members)) ==> lookup(members, name) is Some
            ==> member(text, name) == parsed_json(lookup(members, name)->0),
{
}

/// An object in which one member was set holds the new text under its name, and
/// every other member as it was.
pub proof fn law_set_members_leave_the_others(
    before: JsonView,
    after: JsonView,
    name: Seq<char>,
    value: Seq<char>,
    other: Seq<char>,
)
    requires
        has_member_set(before, after, name, value),
        other != name,
    ensures
        before is Object && after is Object,
        member_of(after, name) == Some(JsonView::Text(value)),
        lookup(before->Object_0, other) is None ==> lookup(after->Object_0, other) is None,
        lookup(before->Object_0, other) matches Some(text) ==> lookup(after->Object_0, other)
            == rewritten_json(text),
{
    assert(lookup(after->Object_0, other) == (match lookup(before->Object_0, other) {
        Some(text) => rewritten_json(text),
        None => None,
    }));
}

} // verus!
