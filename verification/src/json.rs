//! JSON: the replies that the library builds, and the documents that it reads.

use vstd::prelude::*;

use crate::text::{same_text, text_of};

verus! {

/// A JSON document that the library hands out.
pub enum Json {
    Null,
    Bool(bool),
    Count(u64),
    Text(String),
    /// JSON that is passed on as it came, as its text.
    Raw(String),
    List(Vec<Json>),
    Object(Vec<(String, Json)>),
}

/// What a [`Json`] document is: its members in the order in which they were added.
pub ghost enum JsonView {
    Null,
    Bool(bool),
    Count(nat),
    Text(Seq<char>),
    Raw(Seq<char>),
    List(Seq<JsonView>),
    Object(Seq<(Seq<char>, JsonView)>),
}

impl Json {
    pub open spec fn view(self) -> JsonView
        decreases self,
    {
        match self {
            Json::Null => JsonView::Null,
            Json::Bool(b) => JsonView::Bool(b),
            Json::Count(n) => JsonView::Count(n as nat),
            Json::Text(s) => JsonView::Text(s@),
            Json::Raw(s) => JsonView::Raw(s@),
            Json::List(items) => JsonView::List(
                Seq::new(
                    items@.len(),
                    |i: int|
                        if 0 <= i < items@.len() {
                            items@[i].view()
                        } else {
                            JsonView::Null
                        },
                ),
            ),
            Json::Object(members) => JsonView::Object(
                Seq::new(
                    members@.len(),
                    |i: int|
                        if 0 <= i < members@.len() {
                            (members@[i].0@, members@[i].1.view())
                        } else {
                            (Seq::empty(), JsonView::Null)
                        },
                ),
            ),
        }
    }

    pub fn text(text: &str) -> (json: Json)
        ensures
            json@ == JsonView::Text(text@),
            json matches Json::Text(s) && s@ == text@,
    {
        Json::Text(text.to_owned())
    }

    /// A text, or null.
    pub fn optional(text: &Option<String>) -> (json: Json)
        ensures
            json@ == optional_json(text_of(*text)),
    {
        match text {
            Some(s) => Json::Text(s.clone()),
            None => Json::Null,
        }
    }

    /// A truth value, or null.
    pub fn optional_bool(value: Option<bool>) -> (json: Json)
        ensures
            json@ == optional_bool_json(value),
    {
        match value {
            Some(b) => Json::Bool(b),
            None => Json::Null,
        }
    }

    pub fn list(items: Vec<Json>) -> (json: Json)
        ensures
            json@ == JsonView::List(views(items@)),
            json == Json::List(items),
    {
        let json = Json::List(items);
        proof {
            assert(json@->List_0 =~= views(items@));
        }
        json
    }
}

/// What the documents of a list are.
pub open spec fn views(items: Seq<Json>) -> Seq<JsonView> {
    items.map_values(|item: Json| item@)
}

pub open spec fn optional_json(text: Option<Seq<char>>) -> JsonView {
    match text {
        Some(s) => JsonView::Text(s),
        None => JsonView::Null,
    }
}

pub open spec fn optional_bool_json(value: Option<bool>) -> JsonView {
    match value {
        Some(b) => JsonView::Bool(b),
        None => JsonView::Null,
    }
}

/// The members of a JSON object, while it is built.
pub struct Fields {
    pub members: Vec<(String, Json)>,
}

impl Fields {
    pub open spec fn view(self) -> Seq<(Seq<char>, JsonView)> {
        self.members@.map_values(|member: (String, Json)| (member.0@, member.1@))
    }

    pub fn new() -> (fields: Fields)
        ensures
            fields@ == Seq::<(Seq<char>, JsonView)>::empty(),
    {
        let fields = Fields { members: Vec::new() };
        proof {
            assert(fields@ =~= Seq::<(Seq<char>, JsonView)>::empty());
        }
        fields
    }

    /// Adds a member behind the others.
    pub fn with(self, key: &str, value: Json) -> (fields: Fields)
        ensures
            fields@ == self@.push((key@, value@)),
            fields.members@.len() == self.members@.len() + 1,
            fields.members@.drop_last() == self.members@,
            fields.members@.last().0@ == key@,
            fields.members@.last().1 == value,
    {
        let mut members = self.members;
        members.push((key.to_owned(), value));
        let fields = Fields { members };
        proof {
            assert(fields@ =~= self@.push((key@, value@)));
            assert(fields.members@.drop_last() =~= self.members@);
        }
        fields
    }

    /// The object with these members.
    pub fn done(self) -> (json: Json)
        ensures
            json@ == JsonView::Object(self@),
            json == Json::Object(self.members),
    {
        let json = Json::Object(self.members);
        proof {
            assert(json@->Object_0 =~= self@);
        }
        json
    }
}

/// The members of an object that has none yet.
pub open spec fn no_members() -> Seq<(Seq<char>, JsonView)> {
    Seq::empty()
}

/// A member of a JSON object that was read.
pub struct Member {
    pub key: String,
    /// The value, where it is a string.
    pub text: Option<String>,
    /// The value, whatever it is, as JSON.
    pub json: String,
}

/// What a [`Member`] is.
pub ghost struct MemberView {
    pub key: Seq<char>,
    pub text: Option<Seq<char>>,
    pub json: Seq<char>,
}

impl View for Member {
    type V = MemberView;

    open spec fn view(&self) -> MemberView {
        MemberView { key: self.key@, text: text_of(self.text), json: self.json@ }
    }
}

/// A JSON document that was read, as far as its outermost value goes: an object's members, or that
/// it is something else.
pub enum Document {
    Object(Vec<Member>),
    Other,
}

/// What a [`Document`] is.
pub ghost enum DocumentView {
    Object(Seq<MemberView>),
    Other,
}

impl View for Document {
    type V = DocumentView;

    open spec fn view(&self) -> DocumentView {
        match self {
            Document::Object(members) => DocumentView::Object(
                members@.map_values(|member: Member| member@),
            ),
            Document::Other => DocumentView::Other,
        }
    }
}

pub open spec fn document_of(document: Option<Document>) -> Option<DocumentView> {
    match document {
        Some(d) => Some(d@),
        None => None,
    }
}

/// The document that `serde_json` reads from a text, if the text is JSON.
pub uninterp spec fn document_in(text: Seq<char>) -> Option<DocumentView>;

/// `serde_json::from_str`, to a `Value`. Which document it reads from the text, and whether it
/// reads one, depends on the text alone; nothing more is said of it here. Of an object each member
/// is kept with its value as the JSON that `serde_json` writes for it, and, where the value is a
/// string, with that string.
#[verifier::external_body]
fn read_document(text: &str) -> (document: Option<Document>)
    ensures
        document_of(document) == document_in(text@),
{
    match serde_json::from_str::<serde_json::Value>(text) {
        Ok(serde_json::Value::Object(members)) => Some(Document::Object(
            members.into_iter().map(|(key, value)| Member {
                key,
                text: value.as_str().map(str::to_owned),
                json: value.to_string(),
            }).collect(),
        )),
        Ok(_) => Some(Document::Other),
        Err(_) => None,
    }
}

/// The place of a member in an object, if it has one of that name: the first.
pub open spec fn place_of(members: Seq<MemberView>, key: Seq<char>, i: int) -> Option<int>
    decreases members.len() - i,
{
    if i < 0 || i >= members.len() {
        None
    } else if members[i].key == key {
        Some(i)
    } else {
        place_of(members, key, i + 1)
    }
}

/// The member of a document that has the given name, if there is one.
pub open spec fn member_of(document: Option<DocumentView>, key: Seq<char>) -> Option<MemberView> {
    match document {
        Some(DocumentView::Object(members)) => match place_of(members, key, 0) {
            Some(i) => Some(members[i]),
            None => None,
        },
        _ => None,
    }
}

/// The string at a name in a document, if there is one.
pub open spec fn text_at(document: Option<DocumentView>, key: Seq<char>) -> Option<Seq<char>> {
    match member_of(document, key) {
        Some(member) => member.text,
        None => None,
    }
}

/// The JSON of the value at a name in a document, if there is one.
pub open spec fn json_at(document: Option<DocumentView>, key: Seq<char>) -> Option<Seq<char>> {
    match member_of(document, key) {
        Some(member) => Some(member.json),
        None => None,
    }
}

/// The document at a name in a document, if there is one.
pub open spec fn document_at(document: Option<DocumentView>, key: Seq<char>) -> Option<
    DocumentView,
> {
    match json_at(document, key) {
        Some(json) => document_in(json),
        None => None,
    }
}

/// Finds a member by its name.
fn find<'a>(document: &'a Option<Document>, key: &str) -> (member: Option<&'a Member>)
    ensures
        match member {
            Some(m) => member_of(document_of(*document), key@) == Some(m@),
            None => member_of(document_of(*document), key@) is None,
        },
{
    match document {
        Some(Document::Object(members)) => {
            let ghost seen = members@.map_values(|member: Member| member@);
            let mut i: usize = 0;
            while i < members.len()
                invariant
                    i <= members.len(),
                    document_of(*document) == Some(DocumentView::Object(seen)),
                    seen == members@.map_values(|member: Member| member@),
                    place_of(seen, key@, 0) == place_of(seen, key@, i as int),
                decreases members.len() - i,
            {
                if same_text(&members[i].key, key) {
                    return Some(&members[i]);
                }
                i = i + 1;
            }
            None
        },
        _ => None,
    }
}

/// Reads the string at a name in a document.
pub fn text_member(document: &Option<Document>, key: &str) -> (text: Option<String>)
    ensures
        text_of(text) == text_at(document_of(*document), key@),
{
    match find(document, key) {
        Some(member) => match &member.text {
            Some(text) => Some(text.clone()),
            None => None,
        },
        None => None,
    }
}

/// Reads the JSON of the value at a name in a document.
pub fn json_member(document: &Option<Document>, key: &str) -> (json: Option<String>)
    ensures
        text_of(json) == json_at(document_of(*document), key@),
{
    match find(document, key) {
        Some(member) => Some(member.json.clone()),
        None => None,
    }
}

/// Reads the document at a name in a document.
pub fn document_member(document: &Option<Document>, key: &str) -> (child: Option<Document>)
    ensures
        document_of(child) == document_at(document_of(*document), key@),
{
    match find(document, key) {
        Some(member) => read_document(&member.json),
        None => None,
    }
}

/// Reads the document that a text holds.
pub fn read(text: &str) -> (document: Option<Document>)
    ensures
        document_of(document) == document_in(text@),
{
    read_document(text)
}

} // verus!
