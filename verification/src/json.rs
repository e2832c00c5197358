//! JSON values that the library builds (request payloads) and JSON text that
//! it reads (custom bodies and provider replies).
use vstd::prelude::*;
use vstd::string::*;
use crate::codec::hex_lower_char;
use serde_json::Value;

verus! {

/// A JSON value built by the library. Object members keep their order.
#[derive(Debug)]
pub enum Json {
    Null,
    Bool(bool),
    Int(i64),
    /// A number that is not an `i64`, as its JSON text.
    Number(String),
    Str(String),
    Array(Vec<Json>),
    Object(Vec<(String, Json)>),
}

/// The mathematical form of a [`Json`] value.
pub enum JsonView {
    Null,
    Bool(bool),
    Int(int),
    Number(Seq<char>),
    Str(Seq<char>),
    Array(Seq<JsonView>),
    Object(Seq<(Seq<char>, JsonView)>),
}

impl Json {
    pub open spec fn view(&self) -> JsonView
        decreases self,
    {
        match self {
            Json::Null => JsonView::Null,
            Json::Bool(b) => JsonView::Bool(*b),
            Json::Int(i) => JsonView::Int(*i as int),
            Json::Number(n) => JsonView::Number(n@),
            Json::Str(s) => JsonView::Str(s@),
            Json::Array(items) => JsonView::Array(items_view(items@)),
            Json::Object(fields) => JsonView::Object(fields_view(fields@)),
        }
    }
}

pub open spec fn items_view(items: Seq<Json>) -> Seq<JsonView>
    decreases items,
{
    if items.len() == 0 {
        seq![]
    } else {
        items_view(items.drop_last()).push(items.last().view())
    }
}

pub open spec fn fields_view(fields: Seq<(String, Json)>) -> Seq<(Seq<char>, JsonView)>
    decreases fields,
{
    if fields.len() == 0 {
        seq![]
    } else {
        fields_view(fields.drop_last()).push((fields.last().0@, fields.last().1.view()))
    }
}

pub proof fn lemma_fields_view_push(fields: Seq<(String, Json)>, f: (String, Json))
    ensures
        fields_view(fields.push(f)) == fields_view(fields).push((f.0@, f.1.view())),
{
    assert(fields.push(f).drop_last() =~= fields);
}

pub proof fn lemma_items_view_push(items: Seq<Json>, x: Json)
    ensures
        items_view(items.push(x)) == items_view(items).push(x.view()),
{
    assert(items.push(x).drop_last() =~= items);
}

/// A JSON string.
pub fn json_str(s: &str) -> (r: Json)
    ensures
        r.view() == JsonView::Str(s@),
{
    Json::Str(s.to_owned())
}

/// Appends the member `key: value` to an object's members.
pub fn put_value(fields: &mut Vec<(String, Json)>, key: &str, value: Json)
    ensures
        fields_view(final(fields)@) == fields_view(old(fields)@).push((key@, value.view())),
{
    let ghost v = value.view();
    let f = (key.to_owned(), value);
    proof {
        lemma_fields_view_push(fields@, f);
    }
    fields.push(f);
}

/// Appends the member `key: "value"` to an object's members.
pub fn put_str(fields: &mut Vec<(String, Json)>, key: &str, value: &str)
    ensures
        fields_view(final(fields)@) == fields_view(old(fields)@).push((key@, JsonView::Str(value@))),
{
    put_value(fields, key, json_str(value));
}

/// A JSON array of strings.
pub fn json_str_array(items: &Vec<String>) -> (r: Json)
    ensures
        r.view() == JsonView::Array(items.deep_view().map_values(|s: Seq<char>| JsonView::Str(s))),
{
    let mut out: Vec<Json> = Vec::new();
    let mut i: usize = 0;
    while i < items.len()
        invariant
            i <= items@.len(),
            items_view(out@) =~= items.deep_view().take(i as int).map_values(
                |s: Seq<char>| JsonView::Str(s),
            ),
        decreases items@.len() - i,
    {
        let x = json_str(items[i].as_str());
        proof {
            lemma_items_view_push(out@, x);
            assert(items.deep_view().take(i + 1) =~= items.deep_view().take(i as int).push(
                items[i as int]@,
            ));
        }
        out.push(x);
        i = i + 1;
    }
    assert(items.deep_view().take(items@.len() as int) =~= items.deep_view());
    Json::Array(out)
}

/// How `serde_json` writes one character inside a string literal.
pub open spec fn json_escape_char(c: char) -> Seq<char> {
    if c == '"' {
        seq!['\\', '"']
    } else if c == '\\' {
        seq!['\\', '\\']
    } else if c == '\u{8}' {
        seq!['\\', 'b']
    } else if c == '\t' {
        seq!['\\', 't']
    } else if c == '\n' {
        seq!['\\', 'n']
    } else if c == '\u{c}' {
        seq!['\\', 'f']
    } else if c == '\r' {
        seq!['\\', 'r']
    } else if (c as u32) < 0x20 {
        seq![
            '\\',
            'u',
            '0',
            '0',
            hex_lower_char(((c as u32) / 16) as nat),
            hex_lower_char(((c as u32) % 16) as nat),
        ]
    } else {
        seq![c]
    }
}

pub open spec fn json_escape(s: Seq<char>) -> Seq<char>
    decreases s.len(),
{
    if s.len() == 0 {
        seq![]
    } else {
        json_escape(s.drop_last()) + json_escape_char(s.last())
    }
}

/// A string written as a JSON string literal.
pub open spec fn json_string_literal(s: Seq<char>) -> Seq<char> {
    seq!['"'] + json_escape(s) + seq!['"']
}

/// `serde_json::to_string` of a string: the quoted literal with `"`, `\` and
/// the control characters below U+0020 escaped, as the crate's `ESCAPE` table
/// shows. Writing a string into a `Vec` cannot fail.
#[verifier::external_body]
pub(crate) fn json_quote(s: &str) -> (r: String)
    ensures
        r@ == json_string_literal(s@),
{
    match serde_json::to_string(s) {
        Ok(t) => t,
        Err(_) => String::new(),
    }
}

/// What the library reads of one JSON value: its kind, and its content when
/// it is a boolean, an integer that fits in an `i64`, or a string.
pub enum JsonKind {
    Null,
    Bool(bool),
    Integer(i64),
    Number,
    Text(String),
    Array,
    Object,
}

pub enum JsonKindView {
    Null,
    Bool(bool),
    Integer(int),
    Number,
    Text(Seq<char>),
    Array,
    Object,
}

impl JsonKind {
    pub open spec fn view(&self) -> JsonKindView {
        match self {
            JsonKind::Null => JsonKindView::Null,
            JsonKind::Bool(b) => JsonKindView::Bool(*b),
            JsonKind::Integer(i) => JsonKindView::Integer(*i as int),
            JsonKind::Number => JsonKindView::Number,
            JsonKind::Text(s) => JsonKindView::Text(s@),
            JsonKind::Array => JsonKindView::Array,
            JsonKind::Object => JsonKindView::Object,
        }
    }
}

/// A parsed JSON text as the library reads it: the kind of the top-level
/// value, the top-level members when it is an object (each with its kind,
/// and each with its value written in `serde_json`'s compact form), and the
/// whole value written back out in that form.
pub struct JsonDocument {
    pub root: JsonKind,
    /// Each member's key, kind and compact text.
    pub members: Vec<(String, JsonKind, String)>,
    pub canonical: String,
}

pub struct JsonDocumentView {
    pub root: JsonKindView,
    pub members: Seq<(Seq<char>, JsonKindView)>,
    pub member_texts: Seq<(Seq<char>, Seq<char>)>,
    pub canonical: Seq<char>,
}

impl JsonDocument {
    pub open spec fn view(&self) -> JsonDocumentView {
        JsonDocumentView {
            root: self.root.view(),
            members: self.members@.map_values(|m: (String, JsonKind, String)| (m.0@, m.1.view())),
            member_texts: self.members@.map_values(|m: (String, JsonKind, String)| (m.0@, m.2@)),
            canonical: self.canonical@,
        }
    }
}

pub open spec fn parse_result_view(r: Result<JsonDocument, String>) -> Result<JsonDocumentView, Seq<char>> {
    match r {
        Ok(d) => Ok(d.view()),
        Err(e) => Err(e@),
    }
}

/// What `serde_json::from_str::<Value>` makes of a text, read as above; on
/// failure, the error's message.
pub uninterp spec fn spec_parse_json(text: Seq<char>) -> Result<JsonDocumentView, Seq<char>>;

/// `serde_json::from_str::<serde_json::Value>`, with the value converted to a
/// [`JsonDocument`] (`Number::as_i64` tells integers apart, `to_string` gives
/// the compact form of the value and of each member; an object's members
/// come in the order its `Map` holds them) and the error to its message.
/// The contract names the result, a function of the text alone.
#[verifier::external_body]
pub(crate) fn parse_json(text: &str) -> (r: Result<JsonDocument, String>)
    ensures
        parse_result_view(r) == spec_parse_json(text@),
{
    let kind = |v: &Value| match v {
        Value::Bool(b) => JsonKind::Bool(*b),
        Value::Number(n) => n.as_i64().map_or(JsonKind::Number, JsonKind::Integer),
        Value::String(s) => JsonKind::Text(s.clone()),
        Value::Array(_) => JsonKind::Array,
        Value::Object(_) => JsonKind::Object,
        _ => JsonKind::Null,
    };
    let v: Value = serde_json::from_str(text).map_err(|e| e.to_string())?;
    Ok(JsonDocument {
        root: kind(&v),
        members: v.as_object().into_iter().flatten().map(|(k, x)| (k.clone(), kind(x), x.to_string())).collect(),
        canonical: v.to_string(),
    })
}

/// The members of a parsed object with their compact texts, in order.
pub fn member_texts(d: &JsonDocument) -> (r: Vec<(String, String)>)
    ensures
        r.deep_view() == d.view().member_texts,
{
    let ghost t = d.view().member_texts;
    let mut out: Vec<(String, String)> = Vec::new();
    let mut i: usize = 0;
    while i < d.members.len()
        invariant
            i <= d.members@.len(),
            t == d.view().member_texts,
            t.len() == d.members@.len(),
            out.deep_view() =~= t.take(i as int),
        decreases d.members@.len() - i,
    {
        let ghost before = out.deep_view();
        out.push((d.members[i].0.clone(), d.members[i].2.clone()));
        assert(t[i as int] == (d.members@[i as int].0@, d.members@[i as int].2@));
        assert(out.deep_view() =~= before.push(t[i as int]));
        assert(t.take(i + 1) =~= t.take(i as int).push(t[i as int]));
        i = i + 1;
    }
    assert(t.take(t.len() as int) =~= t);
    out
}

/// Whether `text` parses as JSON.
pub open spec fn is_json_spec(text: Seq<char>) -> bool {
    spec_parse_json(text) is Ok
}

pub fn is_json(text: &str) -> (r: bool)
    ensures
        r == is_json_spec(text@),
{
    parse_json(text).is_ok()
}

/// The first member named `key`, as `Value::get` finds it in an object.
pub open spec fn member_of(members: Seq<(Seq<char>, JsonKindView)>, key: Seq<char>) -> Option<JsonKindView>
    decreases members.len(),
{
    if members.len() == 0 {
        None
    } else if members[0].0 == key {
        Some(members[0].1)
    } else {
        member_of(members.drop_first(), key)
    }
}

/// The member named `key` of a parsed document, if any.
pub fn member<'a>(doc: &'a JsonDocument, key: &str) -> (r: Option<&'a JsonKind>)
    ensures
        match r {
            Some(k) => member_of(doc.view().members, key@) == Some(k.view()),
            None => member_of(doc.view().members, key@) is None,
        },
{
    let ghost ms = doc.view().members;
    let mut i: usize = 0;
    assert(ms.skip(0) =~= ms);
    while i < doc.members.len()
        invariant
            i <= doc.members@.len(),
            ms == doc.view().members,
            ms.len() == doc.members@.len(),
            member_of(ms, key@) == member_of(ms.skip(i as int), key@),
        decreases doc.members@.len() - i,
    {
        assert(ms.skip(i as int)[0] == ms[i as int]);
        if crate::text::str_eq(doc.members[i].0.as_str(), key) {
            return Some(&doc.members[i].1);
        }
        assert(ms.skip(i as int).drop_first() =~= ms.skip(i + 1));
        i = i + 1;
    }
    None
}


/// Whether `a` comes before `b` in the order of `String`'s `Ord`: byte-wise
/// on UTF-8, which is the order of the characters' code points.
pub open spec fn key_less(a: Seq<char>, b: Seq<char>) -> bool
    decreases a.len(),
{
    if a.len() == 0 {
        b.len() > 0
    } else if b.len() == 0 {
        false
    } else if a[0] != b[0] {
        (a[0] as u32) < (b[0] as u32)
    } else {
        key_less(a.drop_first(), b.drop_first())
    }
}

/// Whether `a` sorts before `b`.
pub fn str_less(a: &str, b: &str) -> (r: bool)
    ensures
        r == key_less(a@, b@),
{
    let na = a.unicode_len();
    let nb = b.unicode_len();
    let mut i: usize = 0;
    assert(a@.skip(0) =~= a@);
    assert(b@.skip(0) =~= b@);
    while i < na && i < nb
        invariant
            na == a@.len(),
            nb == b@.len(),
            i <= na,
            i <= nb,
            key_less(a@, b@) == key_less(a@.skip(i as int), b@.skip(i as int)),
        decreases na - i,
    {
        let x = a.get_char(i);
        let y = b.get_char(i);
        assert(a@.skip(i as int)[0] == x);
        assert(b@.skip(i as int)[0] == y);
        if x != y {
            return (x as u32) < (y as u32);
        }
        assert(a@.skip(i as int).drop_first() =~= a@.skip(i + 1));
        assert(b@.skip(i as int).drop_first() =~= b@.skip(i + 1));
        i = i + 1;
    }
    i == na && i < nb
}

/// A member `key: text` set in an object's member list that is sorted by
/// key, as `Map::insert` sets it: a member with that key gets the new text,
/// and a new member goes before the first member whose key sorts after it.
pub open spec fn put_sorted(
    entries: Seq<(Seq<char>, Seq<char>)>,
    key: Seq<char>,
    text: Seq<char>,
) -> Seq<(Seq<char>, Seq<char>)>
    decreases entries.len(),
{
    if entries.len() == 0 {
        seq![(key, text)]
    } else if entries[0].0 == key {
        seq![(key, text)] + entries.drop_first()
    } else if key_less(key, entries[0].0) {
        seq![(key, text)] + entries
    } else {
        seq![entries[0]] + put_sorted(entries.drop_first(), key, text)
    }
}

fn push_entry(v: &mut Vec<(String, String)>, a: &str, b: &str)
    ensures
        final(v).deep_view() == old(v).deep_view().push((a@, b@)),
{
    let ghost before = v.deep_view();
    v.push((a.to_owned(), b.to_owned()));
    assert(v.deep_view() =~= before.push((a@, b@)));
}

/// Sets the member `key: text` in a member list sorted by key.
pub fn put_sorted_entry(entries: &Vec<(String, String)>, key: &str, text: &str) -> (r: Vec<(String, String)>)
    ensures
        r.deep_view() == put_sorted(entries.deep_view(), key@, text@),
{
    let ghost e = entries.deep_view();
    let n = entries.len();
    let mut out: Vec<(String, String)> = Vec::new();
    let mut placed = false;
    let mut i: usize = 0;
    assert(e.skip(0) =~= e);
    assert(out.deep_view() =~= Seq::<(Seq<char>, Seq<char>)>::empty());
    while i < n
        invariant
            n == entries@.len(),
            e == entries.deep_view(),
            i <= n,
            put_sorted(e, key@, text@) == if placed {
                out.deep_view() + e.skip(i as int)
            } else {
                out.deep_view() + put_sorted(e.skip(i as int), key@, text@)
            },
        decreases n - i,
    {
        let ghost s = e.skip(i as int);
        assert(s[0] == e[i as int]);
        assert(e[i as int] == (entries@[i as int].0@, entries@[i as int].1@));
        assert(s.drop_first() =~= e.skip(i + 1));
        assert(s =~= seq![e[i as int]] + e.skip(i + 1));
        let k = entries[i].0.as_str();
        let t = entries[i].1.as_str();
        let ghost before = out.deep_view();
        if !placed && crate::text::str_eq(k, key) {
            push_entry(&mut out, key, text);
            placed = true;
            assert(out.deep_view() + e.skip(i + 1) =~= before + (seq![(key@, text@)] + s.drop_first()));
        } else if !placed && str_less(key, k) {
            push_entry(&mut out, key, text);
            push_entry(&mut out, k, t);
            placed = true;
            assert(out.deep_view() + e.skip(i + 1) =~= before + (seq![(key@, text@)] + s));
        } else {
            push_entry(&mut out, k, t);
            if placed {
                assert(out.deep_view() + e.skip(i + 1) =~= before + s);
            } else {
                assert(out.deep_view() + put_sorted(e.skip(i + 1), key@, text@) =~= before + (seq![
                    e[i as int],
                ] + put_sorted(s.drop_first(), key@, text@)));
            }
        }
        i = i + 1;
    }
    if !placed {
        push_entry(&mut out, key, text);
    }
    assert(e.skip(n as int) =~= Seq::<(Seq<char>, Seq<char>)>::empty());
    assert(out.deep_view() =~= put_sorted(e, key@, text@));
    out
}

/// One member as `serde_json` writes it: the key as a string literal, a
/// colon, and the value's text.
pub open spec fn member_text(entry: (Seq<char>, Seq<char>)) -> Seq<char> {
    json_string_literal(entry.0) + seq![':'] + entry.1
}

/// Members written one after another, separated by commas.
pub open spec fn members_text(entries: Seq<(Seq<char>, Seq<char>)>) -> Seq<char>
    decreases entries.len(),
{
    if entries.len() == 0 {
        seq![]
    } else if entries.len() == 1 {
        member_text(entries[0])
    } else {
        members_text(entries.drop_last()) + seq![','] + member_text(entries.last())
    }
}

/// An object with these members (key and value text), in `serde_json`'s
/// compact form.
pub open spec fn object_text(entries: Seq<(Seq<char>, Seq<char>)>) -> Seq<char> {
    seq!['{'] + members_text(entries) + seq!['}']
}

/// Writes an object with these members, each value given as its JSON text.
pub fn write_object(entries: &Vec<(String, String)>) -> (r: String)
    ensures
        r@ == object_text(entries.deep_view()),
{
    let ghost e = entries.deep_view();
    let n = entries.len();
    let mut out = String::new();
    crate::text::push_char(&mut out, '{');
    let mut i: usize = 0;
    assert(e.take(0) =~= Seq::<(Seq<char>, Seq<char>)>::empty());
    while i < n
        invariant
            n == entries@.len(),
            e == entries.deep_view(),
            i <= n,
            out@ == seq!['{'] + members_text(e.take(i as int)),
        decreases n - i,
    {
        let ghost before = out@;
        assert(e[i as int] == (entries@[i as int].0@, entries@[i as int].1@));
        assert(e.take(i + 1).drop_last() =~= e.take(i as int));
        assert(e.take(i + 1).last() == e[i as int]);
        if i > 0 {
            crate::text::push_char(&mut out, ',');
        }
        let key = json_quote(entries[i].0.as_str());
        out.append(key.as_str());
        crate::text::push_char(&mut out, ':');
        out.append(entries[i].1.as_str());
        if i > 0 {
            assert(out@ =~= before + seq![','] + member_text(e[i as int]));
        } else {
            assert(e.take(1) =~= seq![e[0]]);
            assert(out@ =~= before + member_text(e[i as int]));
        }
        i = i + 1;
    }
    crate::text::push_char(&mut out, '}');
    assert(e.take(n as int) =~= e);
    out
}


/// The value of the first member named `key` among an object's members.
pub open spec fn field_of(fields: Seq<(Seq<char>, JsonView)>, key: Seq<char>) -> Option<JsonView>
    decreases fields.len(),
{
    if fields.len() == 0 {
        None
    } else if fields[0].0 == key {
        Some(fields[0].1)
    } else {
        field_of(fields.drop_first(), key)
    }
}

/// The member `key` of a JSON value: none unless the value is an object
/// with such a member.
pub open spec fn json_get(v: JsonView, key: Seq<char>) -> Option<JsonView> {
    match v {
        JsonView::Object(fields) => field_of(fields, key),
        _ => None,
    }
}

} // verus!
