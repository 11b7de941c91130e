//! JSON documents as plain data.
//!
//! The text of a document is read by `serde_json`; what it reads is handed
//! over as a [`Json`] tree, and everything the library decides about a
//! document it decides on that tree.
use vstd::prelude::*;

verus! {

/// `serde_json::Number`: a JSON number, carried through unopened.
#[verifier::external_type_specification]
#[verifier::external_body]
pub struct ExNumber(serde_json::Number);

/// `serde_json::Value`: a document as `serde_json` holds it.
#[verifier::external_type_specification]
#[verifier::external_body]
pub struct ExValue(serde_json::Value);

/// `serde_json::Error`: why a text was refused.
#[verifier::external_type_specification]
#[verifier::external_body]
pub struct ExJsonError(serde_json::Error);

/// A JSON document.
///
/// An object keeps its members as a list of name and value. A number is
/// carried as `serde_json` read it; the library never looks inside one.
#[derive(Debug, PartialEq)]
pub enum Json {
    Null,
    Bool(bool),
    Number(serde_json::Number),
    Text(String),
    Array(Vec<Json>),
    Object(Vec<(String, Json)>),
}

/// The mathematical value of a [`Json`] document.
pub enum JsonView {
    Null,
    Bool(bool),
    Number(serde_json::Number),
    Text(Seq<char>),
    Array(Seq<JsonView>),
    Object(Seq<Member>),
}

/// One member of an object's value: a name and what stands under it.
pub struct Member {
    pub name: Seq<char>,
    pub value: JsonView,
}

impl View for Json {
    type V = JsonView;

    open spec fn view(&self) -> JsonView
        decreases self,
    {
        match self {
            Json::Null => JsonView::Null,
            Json::Bool(b) => JsonView::Bool(*b),
            Json::Number(n) => JsonView::Number(*n),
            Json::Text(s) => JsonView::Text(s@),
            Json::Array(items) => JsonView::Array(
                Seq::new(
                    items@.len(),
                    |i: int|
                        if 0 <= i < items@.len() {
                            items@[i]@
                        } else {
                            JsonView::Null
                        },
                ),
            ),
            Json::Object(members) => JsonView::Object(
                Seq::new(
                    members@.len(),
                    |i: int|
                        if 0 <= i < members@.len() {
                            Member { name: members@[i].0@, value: members@[i].1@ }
                        } else {
                            Member { name: Seq::empty(), value: JsonView::Null }
                        },
                ),
            ),
        }
    }
}

/// The values of a list of documents, one by one.
pub open spec fn items_view(items: Seq<Json>) -> Seq<JsonView> {
    Seq::new(items.len(), |i: int| items[i]@)
}

/// The values of a list of members, one by one.
pub open spec fn members_view(members: Seq<(String, Json)>) -> Seq<Member> {
    Seq::new(members.len(), |i: int| Member { name: members[i].0@, value: members[i].1@ })
}

/// An array's value is the values of its items; an object's, those of its
/// members.
pub proof fn lemma_view_of_children(doc: Json)
    ensures
        doc matches Json::Array(items) ==> doc@ == JsonView::Array(items_view(items@)),
        doc matches Json::Object(members) ==> doc@ == JsonView::Object(members_view(members@)),
{
    match doc {
        Json::Array(items) => {
            assert(doc@->Array_0 =~= items_view(items@));
        },
        Json::Object(members) => {
            assert(doc@->Object_0 =~= members_view(members@));
        },
        _ => {},
    }
}

/// The value that an object's members give to `name`: that of the last
/// member so named, if there is one. This is how `serde_json` reads an
/// object in which a name comes twice.
pub open spec fn member(members: Seq<Member>, name: Seq<char>) -> Option<JsonView>
    decreases members.len(),
{
    if members.len() == 0 {
        None
    } else if members.last().name == name {
        Some(members.last().value)
    } else {
        member(members.drop_last(), name)
    }
}

/// The text that an object's members give to `name`, where they give it a
/// string.
pub open spec fn text_member(members: Seq<Member>, name: Seq<char>) -> Option<Seq<char>> {
    match member(members, name) {
        Some(JsonView::Text(text)) => Some(text),
        _ => None,
    }
}

/// A name leads to the value of the member that bears it, where no later
/// member bears it too.
pub proof fn lemma_member_found(members: Seq<Member>, at: int, name: Seq<char>)
    requires
        0 <= at < members.len(),
        members[at].name == name,
        forall|later: int| at < later < members.len() ==> members[later].name != name,
    ensures
        member(members, name) == Some(members[at].value),
    decreases members.len(),
{
    if at < members.len() - 1 {
        lemma_member_found(members.drop_last(), at, name);
    }
}

/// A member under another name changes nothing about what `name` leads to,
/// wherever among the members it stands.
pub proof fn lemma_member_ignores_other_names(
    members: Seq<Member>,
    at: int,
    extra: Member,
    name: Seq<char>,
)
    requires
        0 <= at <= members.len(),
        extra.name != name,
    ensures
        member(members.insert(at, extra), name) == member(members, name),
        text_member(members.insert(at, extra), name) == text_member(members, name),
    decreases members.len(),
{
    let longer = members.insert(at, extra);
    if at == members.len() {
        assert(longer.drop_last() =~= members);
    } else {
        assert(longer.last() == members.last());
        assert(longer.drop_last() =~= members.drop_last().insert(at, extra));
        lemma_member_ignores_other_names(members.drop_last(), at, extra, name);
    }
}

/// What `serde_json::from_slice` reads from `body` as a `serde_json::Value`,
/// or `None` where it refuses the bytes.
pub uninterp spec fn parsed(body: Seq<u8>) -> Option<JsonView>;

/// `serde_json::Value` to [`Json`], variant by variant; the members of an
/// object come in the order in which its map hands them out.
#[verifier::external_body]
fn lift(value: serde_json::Value) -> Json {
    match value {
        serde_json::Value::Null => Json::Null,
        serde_json::Value::Bool(b) => Json::Bool(b),
        serde_json::Value::Number(n) => Json::Number(n),
        serde_json::Value::String(s) => Json::Text(s),
        serde_json::Value::Array(items) => Json::Array(items.into_iter().map(lift).collect()),
        serde_json::Value::Object(map) => Json::Object(
            map.into_iter().map(|(name, value)| (name, lift(value))).collect(),
        ),
    }
}

/// `serde_json::from_slice`, reading a `serde_json::Value`. The contract
/// gives the outcome its name, [`parsed`]: the same bytes always read the
/// same, and they are refused exactly when the call returns an error.
#[verifier::external_body]
fn from_slice(body: &[u8]) -> (out: Result<Json, serde_json::Error>)
    ensures
        match out {
            Ok(doc) => parsed(body@) == Some(doc@),
            Err(_) => parsed(body@) is None,
        },
{
    serde_json::from_slice::<serde_json::Value>(body).map(lift)
}

impl Json {
    /// Reads a document from its text. The text is read whole: what
    /// `serde_json` cannot hold (a value nested too deep, a number beyond
    /// its range) makes it no document, wherever in the text it stands.
    pub fn parse(body: &[u8]) -> (doc: Option<Json>)
        ensures
            match doc {
                Some(doc) => parsed(body@) == Some(doc@),
                None => parsed(body@) is None,
            },
    {
        match from_slice(body) {
            Ok(doc) => Some(doc),
            Err(_) => None,
        }
    }

    /// The value of the last member called `name`.
    pub fn get<'a>(members: &'a Vec<(String, Json)>, name: &str) -> (found: Option<&'a Json>)
        ensures
            match found {
                Some(value) => member(members_view(members@), name@) == Some(value@),
                None => member(members_view(members@), name@) is None,
            },
    {
        let wanted = String::from_str(name);
        let ghost all = members_view(members@);
        let mut i: usize = members.len();
        assert(all.take(i as int) =~= all);
        while i > 0
            invariant
                i <= members.len(),
                wanted@ == name@,
                all == members_view(members@),
                member(all, name@) == member(all.take(i as int), name@),
            decreases i,
        {
            i -= 1;
            proof {
                assert(all.take(i as int + 1).last() == all[i as int]);
                assert(all.take(i as int + 1).drop_last() =~= all.take(i as int));
            }
            if members[i].0 == wanted {
                return Some(&members[i].1);
            }
        }
        None
    }

    /// The text of the last member called `name`, where it is a string.
    pub fn get_text<'a>(members: &'a Vec<(String, Json)>, name: &str) -> (found: Option<
        &'a String,
    >)
        ensures
            match found {
                Some(text) => text_member(members_view(members@), name@) == Some(text@),
                None => text_member(members_view(members@), name@) is None,
            },
    {
        match Json::get(members, name) {
            Some(Json::Text(text)) => Some(text),
            _ => None,
        }
    }
}

} // verus!
