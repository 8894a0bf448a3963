//! The JSON values exchanged with the bridge, and the few text forms the
//! library writes itself.
use vstd::prelude::*;

verus! {

/// A JSON value as the bridge sends it.
///
/// A number keeps its integer value; a number written with a fraction or an
/// exponent has none. An object keeps its members in the order the parser
/// reports them.
#[derive(Debug)]
pub enum Json {
    Null,
    Bool(bool),
    Number(Option<i128>),
    Str(String),
    Array(Vec<Json>),
    Object(Vec<(String, Json)>),
}

/// The members of an object with their names as text.
pub open spec fn member_views(ms: Seq<(String, Json)>) -> Seq<(Seq<char>, Json)> {
    ms.map_values(|m: (String, Json)| (m.0@, m.1))
}

/// The value of the first member named `key`, if any.
pub open spec fn member(ms: Seq<(Seq<char>, Json)>, key: Seq<char>) -> Option<Json>
    decreases ms.len(),
{
    if ms.len() == 0 {
        None
    } else if ms[0].0 == key {
        Some(ms[0].1)
    } else {
        member(ms.drop_first(), key)
    }
}

proof fn lemma_member_skip(ms: Seq<(String, Json)>, key: Seq<char>, i: int)
    requires
        0 <= i < ms.len(),
    ensures
        member(member_views(ms.skip(i)), key) == if ms[i].0@ == key {
            Some(ms[i].1)
        } else {
            member(member_views(ms.skip(i + 1)), key)
        },
{
    assert(member_views(ms.skip(i)).drop_first() =~= member_views(ms.skip(i + 1)));
}

/// Looking a name up in two runs of members, one after the other.
pub proof fn lemma_member_concat(a: Seq<(Seq<char>, Json)>, b: Seq<(Seq<char>, Json)>, key: Seq<char>)
    ensures
        member(a + b, key) == if member(a, key) is Some {
            member(a, key)
        } else {
            member(b, key)
        },
    decreases a.len(),
{
    if a.len() > 0 {
        assert((a + b).drop_first() =~= a.drop_first() + b);
        lemma_member_concat(a.drop_first(), b, key);
    } else {
        assert(a + b =~= b);
    }
}

/// Looking a name up in a single member.
pub proof fn lemma_member_single(name: Seq<char>, value: Json, key: Seq<char>)
    ensures
        member(seq![(name, value)], key) == if name == key {
            Some(value)
        } else {
            None
        },
{
    let one = seq![(name, value)];
    assert(one.len() == 1);
    assert(one[0] == (name, value));
    assert(one.drop_first() =~= Seq::<(Seq<char>, Json)>::empty());
    assert(member(Seq::<(Seq<char>, Json)>::empty(), key) is None);
}

/// Finds the position of the first member named `key`.
pub fn find_member(ms: &Vec<(String, Json)>, key: &str) -> (r: Option<usize>)
    ensures
        member(member_views(ms@), key@) is None <==> r is None,
        r matches Some(i) ==> i < ms@.len() && member(member_views(ms@), key@) == Some(
            ms@[i as int].1,
        ),
{
    let k = key.to_owned();
    let mut i: usize = 0;
    assert(ms@.skip(0) =~= ms@);
    while i < ms.len()
        invariant
            i <= ms@.len(),
            k@ == key@,
            member(member_views(ms@), key@) == member(member_views(ms@.skip(i as int)), key@),
        decreases ms@.len() - i,
    {
        proof {
            lemma_member_skip(ms@, key@, i as int);
        }
        if ms[i].0 == k {
            return Some(i);
        }
        i = i + 1;
    }
    assert(member_views(ms@.skip(i as int)).len() == 0);
    None
}


/// An integer value between `lo` and `hi`.
pub open spec fn integer_in(j: Json, lo: i128, hi: i128) -> Option<i128> {
    match j {
        Json::Number(Some(n)) => if lo <= n <= hi {
            Some(n)
        } else {
            None
        },
        _ => None,
    }
}

/// An optional integer member: absent or null leaves it unset; otherwise it
/// must be an integer between `lo` and `hi`, else the object is rejected
/// (outer `None`).
pub open spec fn optional_integer(ms: Seq<(Seq<char>, Json)>, key: Seq<char>, lo: i128, hi: i128) -> Option<Option<i128>> {
    match member(ms, key) {
        None => Some(None),
        Some(Json::Null) => Some(None),
        Some(j) => match integer_in(j, lo, hi) {
            Some(n) => Some(Some(n)),
            None => None,
        },
    }
}

/// An optional boolean member, read as [`optional_integer`] reads integers.
pub open spec fn optional_bool(ms: Seq<(Seq<char>, Json)>, key: Seq<char>) -> Option<Option<bool>> {
    match member(ms, key) {
        None => Some(None),
        Some(Json::Null) => Some(None),
        Some(Json::Bool(b)) => Some(Some(b)),
        Some(_) => None,
    }
}

/// A member that must be present and hold a string.
pub open spec fn required_text(ms: Seq<(Seq<char>, Json)>, key: Seq<char>) -> Option<String> {
    match member(ms, key) {
        Some(Json::Str(s)) => Some(s),
        _ => None,
    }
}

/// A member that must be present and hold an integer between `lo` and `hi`.
pub open spec fn required_integer(ms: Seq<(Seq<char>, Json)>, key: Seq<char>, lo: i128, hi: i128) -> Option<i128> {
    match member(ms, key) {
        Some(j) => integer_in(j, lo, hi),
        None => None,
    }
}

pub fn read_optional_integer(ms: &Vec<(String, Json)>, key: &str, lo: i128, hi: i128) -> (r: Option<Option<i128>>)
    ensures
        r == optional_integer(member_views(ms@), key@, lo, hi),
{
    match find_member(ms, key) {
        None => Some(None),
        Some(i) => match &ms[i].1 {
            Json::Null => Some(None),
            Json::Number(Some(n)) => if lo <= *n && *n <= hi {
                Some(Some(*n))
            } else {
                None
            },
            _ => None,
        },
    }
}

pub fn read_optional_bool(ms: &Vec<(String, Json)>, key: &str) -> (r: Option<Option<bool>>)
    ensures
        r == optional_bool(member_views(ms@), key@),
{
    match find_member(ms, key) {
        None => Some(None),
        Some(i) => match &ms[i].1 {
            Json::Null => Some(None),
            Json::Bool(b) => Some(Some(*b)),
            _ => None,
        },
    }
}

pub fn read_required_text(ms: &Vec<(String, Json)>, key: &str) -> (r: Option<String>)
    ensures
        r == required_text(member_views(ms@), key@),
{
    match find_member(ms, key) {
        Some(i) => match &ms[i].1 {
            Json::Str(s) => Some(s.clone()),
            _ => None,
        },
        None => None,
    }
}

pub fn read_required_integer(ms: &Vec<(String, Json)>, key: &str, lo: i128, hi: i128) -> (r: Option<i128>)
    ensures
        r == required_integer(member_views(ms@), key@, lo, hi),
{
    match find_member(ms, key) {
        Some(i) => match &ms[i].1 {
            Json::Number(Some(n)) => if lo <= *n && *n <= hi {
                Some(*n)
            } else {
                None
            },
            _ => None,
        },
        None => None,
    }
}

/// What `serde_json` makes of a text: `None` when the text is not JSON.
pub uninterp spec fn json_parse(text: Seq<char>) -> Option<Json>;

pub open spec fn hex_char(d: nat) -> char {
    if d < 10 {
        digit_char(d)
    } else if d == 10 {
        'a'
    } else if d == 11 {
        'b'
    } else if d == 12 {
        'c'
    } else if d == 13 {
        'd'
    } else if d == 14 {
        'e'
    } else {
        'f'
    }
}

/// How one character is written inside a JSON string literal: a quote and
/// a backslash are escaped by a backslash; backspace, tab, line feed, form
/// feed and carriage return have short escapes; the other characters below
/// U+0020 are written as `\u00` and two lower-case hex digits; every other
/// character stands as it is.
pub open spec fn escaped_char(c: char) -> Seq<char> {
    if c == '"' {
        seq!['\\', '"']
    } else if c == '\\' {
        seq!['\\', '\\']
    } else if c == '\x08' {
        seq!['\\', 'b']
    } else if c == '\t' {
        seq!['\\', 't']
    } else if c == '\n' {
        seq!['\\', 'n']
    } else if c == '\x0c' {
        seq!['\\', 'f']
    } else if c == '\r' {
        seq!['\\', 'r']
    } else if (c as u32) < 0x20 {
        seq!['\\', 'u', '0', '0', hex_char((c as u32 / 16) as nat), hex_char((c as u32 % 16) as nat)]
    } else {
        seq![c]
    }
}

/// The characters of a text, each written as [`escaped_char`] says.
pub open spec fn escaped_text(s: Seq<char>) -> Seq<char>
    decreases s.len(),
{
    if s.len() == 0 {
        Seq::empty()
    } else {
        escaped_text(s.drop_last()) + escaped_char(s.last())
    }
}

/// The JSON string literal for a text: quotes around its escaped
/// characters.
pub open spec fn json_string_text(s: Seq<char>) -> Seq<char> {
    seq!['"'] + escaped_text(s) + seq!['"']
}

#[verifier::external_type_specification]
#[verifier::external_body]
pub struct ExJsonError(serde_json::Error);

#[verifier::external_type_specification]
#[verifier::external_body]
pub struct ExJsonValue(serde_json::Value);

/// Relies on `serde_json::from_str` into `serde_json::Value`: whether a text
/// is JSON, and what it denotes, depend on the text alone.
#[verifier::external_body]
pub(crate) fn parse_json(text: &str) -> (r: Result<Json, serde_json::Error>)
    ensures
        r is Ok <==> json_parse(text@) is Some,
        r matches Ok(j) ==> json_parse(text@) == Some(j),
{
    serde_json::from_str::<serde_json::Value>(text).map(|v| json_from_value(&v))
}

/// Carries a `serde_json::Value` over into a [`Json`], node by node; used by
/// `parse_json` only.
#[verifier::external_body]
fn json_from_value(v: &serde_json::Value) -> Json {
    match v {
        serde_json::Value::Null => Json::Null,
        serde_json::Value::Bool(b) => Json::Bool(*b),
        serde_json::Value::Number(n) => Json::Number(n.as_i128()),
        serde_json::Value::String(s) => Json::Str(s.clone()),
        serde_json::Value::Array(a) => Json::Array(a.iter().map(json_from_value).collect()),
        serde_json::Value::Object(m) => Json::Object(
            m.iter().map(|(k, x)| (k.clone(), json_from_value(x))).collect(),
        ),
    }
}

/// Relies on `serde_json::to_string` on a `str`, which cannot fail on a
/// string and writes it with the escapes of its `ESCAPE` table, as
/// [`json_string_text`] states.
#[verifier::external_body]
pub(crate) fn quote(s: &str) -> (r: String)
    ensures
        r@ == json_string_text(s@),
{
    serde_json::to_string(s).unwrap_or_default()
}

/// Relies on `serde::de::Error::custom` for `serde_json::Error`: an error
/// that carries the given message, for JSON of the wrong shape.
#[verifier::external_body]
pub(crate) fn shape_error(msg: &str) -> serde_json::Error {
    <serde_json::Error as serde::de::Error>::custom(msg)
}

/// Relies on the `Display` impl of `serde_json::Error`, for log lines.
#[verifier::external_body]
pub(crate) fn error_text(e: &serde_json::Error) -> String {
    format!("{e}")
}

pub open spec fn digit_char(d: nat) -> char {
    if d == 0 { '0' }
    else if d == 1 { '1' }
    else if d == 2 { '2' }
    else if d == 3 { '3' }
    else if d == 4 { '4' }
    else if d == 5 { '5' }
    else if d == 6 { '6' }
    else if d == 7 { '7' }
    else if d == 8 { '8' }
    else { '9' }
}

/// The decimal digits of `n`, most significant first, without leading zeros.
pub open spec fn decimal(n: nat) -> Seq<char>
    decreases n,
{
    if n < 10 {
        seq![digit_char(n)]
    } else {
        decimal(n / 10).push(digit_char(n % 10))
    }
}

fn digit_str(d: u64) -> (r: &'static str)
    requires
        d < 10,
    ensures
        r@ == seq![digit_char(d as nat)],
{
    proof {
        reveal_strlit("0");
        reveal_strlit("1");
        reveal_strlit("2");
        reveal_strlit("3");
        reveal_strlit("4");
        reveal_strlit("5");
        reveal_strlit("6");
        reveal_strlit("7");
        reveal_strlit("8");
        reveal_strlit("9");
    }
    if d == 0 { "0" }
    else if d == 1 { "1" }
    else if d == 2 { "2" }
    else if d == 3 { "3" }
    else if d == 4 { "4" }
    else if d == 5 { "5" }
    else if d == 6 { "6" }
    else if d == 7 { "7" }
    else if d == 8 { "8" }
    else { "9" }
}

/// Writes `n` in decimal.
pub fn decimal_text(n: u64) -> (r: String)
    ensures
        r@ == decimal(n as nat),
    decreases n,
{
    let d = digit_str(n % 10);
    if n < 10 {
        d.to_owned()
    } else {
        let mut s = decimal_text(n / 10);
        s.append(d);
        s
    }
}

/// A value that [`write_object`] can write as a member: a boolean, a
/// string, or an integer from zero to `u64::MAX`.
pub open spec fn is_scalar(j: Json) -> bool {
    match j {
        Json::Bool(_) => true,
        Json::Str(_) => true,
        Json::Number(Some(n)) => 0 <= n <= u64::MAX,
        _ => false,
    }
}

/// The JSON text of a scalar.
pub open spec fn scalar_text(j: Json) -> Seq<char> {
    match j {
        Json::Bool(b) => if b { "true"@ } else { "false"@ },
        Json::Str(s) => json_string_text(s@),
        Json::Number(Some(n)) => decimal(n as nat),
        _ => Seq::empty(),
    }
}

/// The members of an object, as text: `"key":value`, separated by commas.
pub open spec fn members_text(ms: Seq<(Seq<char>, Json)>) -> Seq<char>
    decreases ms.len(),
{
    if ms.len() == 0 {
        Seq::empty()
    } else {
        let sep = if ms.len() == 1 { Seq::empty() } else { seq![','] };
        members_text(ms.drop_last()) + sep + json_string_text(ms.last().0) + seq![':']
            + scalar_text(ms.last().1)
    }
}

/// The JSON text of an object with the given scalar members, in order.
pub open spec fn object_text(ms: Seq<(Seq<char>, Json)>) -> Seq<char> {
    seq!['{'] + members_text(ms) + seq!['}']
}

fn write_scalar(j: &Json) -> (r: String)
    requires
        is_scalar(*j),
    ensures
        r@ == scalar_text(*j),
{
    proof {
        reveal_strlit("true");
        reveal_strlit("false");
    }
    match j {
        Json::Bool(b) => if *b { "true".to_owned() } else { "false".to_owned() },
        Json::Str(s) => quote(s.as_str()),
        Json::Number(Some(n)) => decimal_text(*n as u64),
        _ => String::new(),
    }
}

/// Writes a JSON object whose members are all scalars, keeping their order.
pub fn write_object(ms: &Vec<(String, Json)>) -> (r: String)
    requires
        forall|i: int| 0 <= i < ms@.len() ==> is_scalar(#[trigger] ms@[i].1),
    ensures
        r@ == object_text(member_views(ms@)),
{
    proof {
        reveal_strlit("{");
        reveal_strlit("}");
        reveal_strlit(",");
        reveal_strlit(":");
        assert("{"@ =~= seq!['{']);
        assert("}"@ =~= seq!['}']);
        assert(","@ =~= seq![',']);
        assert(":"@ =~= seq![':']);
    }
    let mut out = "{".to_owned();
    let mut i: usize = 0;
    while i < ms.len()
        invariant
            i <= ms@.len(),
            forall|k: int| 0 <= k < ms@.len() ==> is_scalar(#[trigger] ms@[k].1),
            out@ == seq!['{'] + members_text(member_views(ms@.take(i as int))),
        decreases ms@.len() - i,
    {
        proof {
            reveal_strlit(",");
            reveal_strlit(":");
            assert(","@ =~= seq![',']);
            assert(":"@ =~= seq![':']);
        }
        let ghost before = out@;
        assert(member_views(ms@.take(i as int + 1)).drop_last() =~= member_views(
            ms@.take(i as int),
        ));
        let ghost sep: Seq<char> = if i == 0 { Seq::empty() } else { seq![','] };
        if i > 0 {
            out.append(",");
        }
        assert(out@ =~= before + sep);
        let key = quote(ms[i].0.as_str());
        out.append(key.as_str());
        out.append(":");
        let value = write_scalar(&ms[i].1);
        out.append(value.as_str());
        assert(out@ =~= before + sep + key@ + seq![':'] + value@);
        i = i + 1;
        assert(out@ =~= seq!['{'] + members_text(member_views(ms@.take(i as int))));
    }
    assert(ms@.take(i as int) =~= ms@);
    out.append("}");
    out
}

} // verus!
