//! The decoded answer document and the one path through it that carries the
//! service's reply.
use vstd::prelude::*;
use vstd::string::StringSliceAdditionalSpecFns;
use vstd::utf8::{decode_utf8, decode_utf8_encode_utf8, valid_utf8};
use crate::text::{same_text, utf8_text};

verus! {

/// A JSON document, as far as this library reads one. Numbers are kept only
/// as the fact that a number stood there: nothing here reads their value.
pub enum Json {
    Null,
    Bool(bool),
    Number,
    Str(String),
    Array(Vec<Json>),
    /// Members in document order; a parsed object holds each key once.
    Object(Vec<(String, Json)>),
}

#[verifier::external_type_specification]
#[verifier::external_body]
pub struct ExJsonValue(json::JsonValue);

/// The document that the `json` crate reads from a text, or `None` where the
/// text is no JSON.
pub uninterp spec fn json_of(s: Seq<char>) -> Option<Json>;

/// The most digits that the fraction of a number may have for the `json`
/// crate to read it safely. Its parser starts the fraction with an `i16`
/// exponent of zero or more and lowers it once for each digit after the `.`,
/// so the next digit could take it past `i16::MIN`.
pub const MAX_FRACTION_DIGITS: usize = 32768;

pub open spec fn is_digit_byte(c: u8) -> bool {
    48u8 <= c <= 57u8
}

/// Where a left-to-right reading of JSON text stands: outside any string,
/// inside one, or just after a backslash inside one.
#[derive(Clone, Copy, Debug, PartialEq, Eq, Structural)]
pub enum Lexical {
    Outside,
    Inside,
    Escaped,
}

/// The reading position after one more byte: `"` opens and closes strings,
/// and within a string a `\` makes the byte after it ordinary.
pub open spec fn after_byte(st: Lexical, c: u8) -> Lexical {
    match st {
        Lexical::Outside => if c == 34u8 { Lexical::Inside } else { Lexical::Outside },
        Lexical::Inside => if c == 34u8 {
            Lexical::Outside
        } else if c == 92u8 {
            Lexical::Escaped
        } else {
            Lexical::Inside
        },
        Lexical::Escaped => Lexical::Inside,
    }
}

/// Where the reading stands after the first `n` bytes.
pub open spec fn lexical_at(b: Seq<u8>, n: nat) -> Lexical
    decreases n,
{
    if n == 0 || n > b.len() {
        Lexical::Outside
    } else {
        after_byte(lexical_at(b, (n - 1) as nat), b[n - 1])
    }
}

fn next_lexical(st: Lexical, c: u8) -> (r: Lexical)
    ensures
        r == after_byte(st, c),
{
    match st {
        Lexical::Outside => if c == 34u8 { Lexical::Inside } else { Lexical::Outside },
        Lexical::Inside => if c == 34u8 {
            Lexical::Outside
        } else if c == 92u8 {
            Lexical::Escaped
        } else {
            Lexical::Inside
        },
        Lexical::Escaped => Lexical::Inside,
    }
}

/// At byte `i`, outside any string, stands a `.` followed by more than
/// [`MAX_FRACTION_DIGITS`] digits.
pub open spec fn overlong_fraction_at(b: Seq<u8>, i: int) -> bool {
    &&& 0 <= i
    &&& i + MAX_FRACTION_DIGITS + 1 < b.len()
    &&& lexical_at(b, i as nat) == Lexical::Outside
    &&& b[i] == 46u8
    &&& forall|j: int| i < j <= i + MAX_FRACTION_DIGITS + 1 ==> is_digit_byte(#[trigger] b[j])
}

/// Somewhere outside the strings of the text a `.` is followed by more than
/// [`MAX_FRACTION_DIGITS`] digits.
pub open spec fn has_overlong_fraction(b: Seq<u8>) -> bool {
    exists|i: int| overlong_fraction_at(b, i)
}

/// Looks, outside strings, for a `.` followed by more than [`MAX_FRACTION_DIGITS`] digits.
pub fn find_overlong_fraction(b: &Vec<u8>) -> (r: bool)
    ensures
        r == has_overlong_fraction(b@),
{
    let n = b.len();
    let mut st = Lexical::Outside;
    let mut i: usize = 0;
    while i < n
        invariant
            n == b@.len(),
            0 <= i <= n,
            st == lexical_at(b@, i as nat),
            forall|k: int| 0 <= k < i ==> !overlong_fraction_at(b@, k),
        decreases n - i,
    {
        if st == Lexical::Outside && b[i] == 46u8 && n - i > MAX_FRACTION_DIGITS + 1 {
            let mut j: usize = 1;
            while j <= MAX_FRACTION_DIGITS + 1 && 48u8 <= b[i + j] && b[i + j] <= 57u8
                invariant
                    n == b@.len(),
                    i + MAX_FRACTION_DIGITS + 1 < n,
                    1 <= j <= MAX_FRACTION_DIGITS + 2,
                    forall|k: int| i < k < i + j ==> is_digit_byte(#[trigger] b@[k]),
                decreases MAX_FRACTION_DIGITS + 2 - j,
            {
                j = j + 1;
            }
            if j > MAX_FRACTION_DIGITS + 1 {
                assert(overlong_fraction_at(b@, i as int));
                return true;
            }
            assert(!is_digit_byte(b@[i + j]));
        }
        st = next_lexical(st, b[i]);
        i = i + 1;
    }
    assert(!has_overlong_fraction(b@));
    false
}

/// Relies on json::parse: it reads a JSON text into a value, or fails where the
/// text is malformed. The result depends on the text alone. Texts with an
/// overlong fraction are kept from it, since on those its exponent counter
/// overflows.
#[verifier::external_body]
fn parse_json(s: &str) -> (r: Option<Json>)
    requires
        !has_overlong_fraction(s.spec_bytes()),
    ensures
        r == json_of(s@),
{
    json::parse(s).ok().map(|v| lift(&v))
}

/// Relies on the variants of json::JsonValue: copies a parsed value into the
/// library's own document type, member by member and element by element.
#[verifier::external_body]
fn lift(v: &json::JsonValue) -> Json {
    match v {
        json::JsonValue::Null => Json::Null,
        json::JsonValue::Short(s) => Json::Str(s.as_str().to_string()),
        json::JsonValue::String(s) => Json::Str(s.clone()),
        json::JsonValue::Number(_) => Json::Number,
        json::JsonValue::Boolean(b) => Json::Bool(*b),
        json::JsonValue::Object(o) => Json::Object(o.iter().map(|(k, x)| (k.to_string(), lift(x))).collect()),
        json::JsonValue::Array(a) => Json::Array(a.iter().map(lift).collect()),
    }
}

/// What a response body decodes to: nothing where no body came back, where it
/// is not UTF-8 or where its text is no JSON. A number whose fraction is longer
/// than [`MAX_FRACTION_DIGITS`] counts as undecodable too: `json::parse` would
/// overflow its exponent counter on it, and panic in a build with overflow checks.
pub open spec fn decoded(body: Option<Seq<u8>>) -> Option<Json> {
    match body {
        None => None,
        Some(b) => if valid_utf8(b) && !has_overlong_fraction(b) {
            json_of(decode_utf8(b))
        } else {
            None
        },
    }
}

/// The bytes of a response body, if any came.
pub open spec fn body_bytes(body: Option<Vec<u8>>) -> Option<Seq<u8>> {
    match body {
        Some(b) => Some(b@),
        None => None,
    }
}

/// Decodes a fully buffered response body; every failure collapses to `None`.
pub fn decode_response(body: Option<Vec<u8>>) -> (r: Option<Json>)
    ensures
        r == decoded(body_bytes(body)),
{
    match body {
        None => None,
        Some(b) => {
            if find_overlong_fraction(&b) {
                return None;
            }
            let ghost bytes = b@;
            match utf8_text(b) {
                None => None,
                Some(s) => {
                    proof {
                        decode_utf8_encode_utf8(bytes);
                    }
                    parse_json(s.as_str())
                },
            }
        },
    }
}

/// The value stored under `key` among `members`, the first one where a key repeats.
pub open spec fn lookup(members: Seq<(String, Json)>, key: Seq<char>) -> Option<Json>
    decreases members.len(),
{
    if members.len() == 0 {
        None
    } else if members[0].0@ == key {
        Some(members[0].1)
    } else {
        lookup(members.drop_first(), key)
    }
}

/// The member `key` of an object; nothing for any other kind of value.
pub open spec fn member(v: Json, key: Seq<char>) -> Option<Json> {
    match v {
        Json::Object(m) => lookup(m@, key),
        _ => None,
    }
}

/// The first element of an array; nothing for an empty array or another kind of value.
pub open spec fn first_element(v: Json) -> Option<Json> {
    match v {
        Json::Array(a) => if a@.len() > 0 { Some(a@[0]) } else { None },
        _ => None,
    }
}

/// The reply that a document carries under `data`, `messages`, its first
/// element and `content`; the empty text wherever that path breaks or does
/// not end in a string.
pub open spec fn reply_in(doc: Json) -> Seq<char> {
    match member(doc, "data"@) {
        None => Seq::empty(),
        Some(d) => match member(d, "messages"@) {
            None => Seq::empty(),
            Some(ms) => match first_element(ms) {
                None => Seq::empty(),
                Some(m) => match member(m, "content"@) {
                    Some(Json::Str(s)) => s@,
                    _ => Seq::empty(),
                },
            },
        },
    }
}

/// Finds the member `key` of an object.
pub fn get_member<'a>(v: &'a Json, key: &str) -> (r: Option<&'a Json>)
    ensures
        r matches Some(x) ==> member(*v, key@) == Some(*x),
        r is None ==> member(*v, key@) is None,
{
    match v {
        Json::Object(m) => {
            let mut i: usize = 0;
            assert(m@.skip(0) =~= m@);
            while i < m.len()
                invariant
                    0 <= i <= m@.len(),
                    member(*v, key@) == lookup(m@, key@),
                    lookup(m@, key@) == lookup(m@.skip(i as int), key@),
                decreases m@.len() - i,
            {
                assert(m@.skip(i as int).drop_first() =~= m@.skip(i + 1));
                assert(m@.skip(i as int)[0] == m@[i as int]);
                let entry = &m[i];
                if same_text(entry.0.as_str(), key) {
                    assert(entry.0@ == key@);
                    assert(m@.skip(i as int).len() > 0);
                    assert(lookup(m@.skip(i as int), key@) == Some(entry.1));
                    return Some(&entry.1);
                }
                i = i + 1;
            }
            None
        },
        _ => None,
    }
}

/// Extracts the reply text of a decoded answer; `None` only where nothing was decoded.
pub fn extract(doc: &Option<Json>) -> (r: Option<String>)
    ensures
        r is None <==> doc is None,
        r matches Some(s) ==> s@ == reply_in(doc->0),
{
    match doc {
        None => None,
        Some(d) => {
            proof {
                reveal_strlit("data");
                reveal_strlit("messages");
                reveal_strlit("content");
            }
            let empty = String::new();
            let data = match get_member(d, "data") {
                None => return Some(empty),
                Some(x) => x,
            };
            let messages = match get_member(data, "messages") {
                None => return Some(empty),
                Some(x) => x,
            };
            let first = match messages {
                Json::Array(a) => {
                    if a.len() == 0 {
                        return Some(empty);
                    }
                    &a[0]
                },
                _ => return Some(empty),
            };
            match get_member(first, "content") {
                Some(Json::Str(s)) => Some(s.clone()),
                _ => Some(empty),
            }
        },
    }
}

} // verus!
