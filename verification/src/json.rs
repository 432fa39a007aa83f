//! A structured, schema-free JSON-like value, used for tool arguments, tool
//! input schemas, and the JSON-RPC envelopes of the remote tool protocol.
//!
//! The type carries its own mathematical model (`JsonData`) and a verified
//! serializer whose output is pinned, character by character, by the spec
//! function `json_text`.

use vstd::prelude::*;
use vstd::string::StrSliceExecFns;
use vstd::string::StringExecFns;

verus! {

/// An owned JSON-like value.
///
/// Numbers are either 64-bit integers (`Int`) or are kept as their literal
/// decimal text (`Num`), so that no precision is silently lost on values the
/// library only passes through.
#[derive(Debug, PartialEq, Eq)]
pub enum JsonValue {
    Null,
    Bool(bool),
    Int(i64),
    Num(String),
    Str(String),
    Arr(Vec<JsonValue>),
    Obj(Vec<(String, JsonValue)>),
}

/// The mathematical model of a `JsonValue`.
pub enum JsonData {
    Null,
    Bool(bool),
    Int(int),
    Num(Seq<char>),
    Str(Seq<char>),
    Arr(Seq<JsonData>),
    Obj(Seq<(Seq<char>, JsonData)>),
}

/// Model of a sequence of values.
pub open spec fn json_seq_view(s: Seq<JsonValue>) -> Seq<JsonData>
    decreases s,
{
    if s.len() == 0 {
        Seq::empty()
    } else {
        json_seq_view(s.drop_last()).push(s.last()@)
    }
}

/// Model of a sequence of object entries.
pub open spec fn json_obj_view(s: Seq<(String, JsonValue)>) -> Seq<(Seq<char>, JsonData)>
    decreases s,
{
    if s.len() == 0 {
        Seq::empty()
    } else {
        json_obj_view(s.drop_last()).push((s.last().0@, s.last().1@))
    }
}

impl View for JsonValue {
    type V = JsonData;

    open spec fn view(&self) -> JsonData
        decreases self,
    {
        match self {
            JsonValue::Null => JsonData::Null,
            JsonValue::Bool(b) => JsonData::Bool(*b),
            JsonValue::Int(i) => JsonData::Int(*i as int),
            JsonValue::Num(t) => JsonData::Num(t@),
            JsonValue::Str(s) => JsonData::Str(s@),
            JsonValue::Arr(a) => JsonData::Arr(json_seq_view(a@)),
            JsonValue::Obj(o) => JsonData::Obj(json_obj_view(o@)),
        }
    }
}

pub proof fn lemma_json_seq_view(s: Seq<JsonValue>)
    ensures
        json_seq_view(s).len() == s.len(),
        forall|i: int| 0 <= i < s.len() ==> #[trigger] json_seq_view(s)[i] == s[i]@,
    decreases s,
{
    if s.len() > 0 {
        lemma_json_seq_view(s.drop_last());
        assert(json_seq_view(s) == json_seq_view(s.drop_last()).push(s.last()@));
        assert(json_seq_view(s).len() == s.len());
        assert forall|i: int| 0 <= i < s.len() implies #[trigger] json_seq_view(s)[i] == s[i]@ by {
            if i < s.len() - 1 {
                assert(s.drop_last()[i] == s[i]);
                assert(json_seq_view(s)[i] == json_seq_view(s.drop_last())[i]);
            } else {
                assert(json_seq_view(s)[i] == s.last()@);
            }
        }
    } else {
        assert(json_seq_view(s) == Seq::<JsonData>::empty());
    }
}

pub proof fn lemma_json_obj_view(s: Seq<(String, JsonValue)>)
    ensures
        json_obj_view(s).len() == s.len(),
        forall|i: int|
            0 <= i < s.len() ==> #[trigger] json_obj_view(s)[i] == (s[i].0@, s[i].1@),
    decreases s,
{
    if s.len() > 0 {
        lemma_json_obj_view(s.drop_last());
        assert(json_obj_view(s) == json_obj_view(s.drop_last()).push((s.last().0@, s.last().1@)));
        assert forall|i: int|
            0 <= i < s.len() implies #[trigger] json_obj_view(s)[i] == (s[i].0@, s[i].1@) by {
            if i < s.len() - 1 {
                assert(s.drop_last()[i] == s[i]);
                assert(json_obj_view(s)[i] == json_obj_view(s.drop_last())[i]);
            } else {
                assert(json_obj_view(s)[i] == (s.last().0@, s.last().1@));
            }
        }
    } else {
        assert(json_obj_view(s) == Seq::<(Seq<char>, JsonData)>::empty());
    }
}

/// First-match lookup in a modeled object, scanning from entry `i`.
pub open spec fn obj_lookup_from(
    entries: Seq<(Seq<char>, JsonData)>,
    key: Seq<char>,
    i: int,
) -> Option<JsonData>
    decreases entries.len() - i,
{
    if i < 0 || i >= entries.len() {
        None
    } else if entries[i].0 == key {
        Some(entries[i].1)
    } else {
        obj_lookup_from(entries, key, i + 1)
    }
}

impl JsonData {
    /// Looks a key up in an object value; `None` on any other value.
    pub open spec fn get_field(self, key: Seq<char>) -> Option<JsonData> {
        match self {
            JsonData::Obj(entries) => obj_lookup_from(entries, key, 0),
            _ => None,
        }
    }
}

/// Character-by-character string equality; `String`'s own `==` is specified
/// only for `String` operands, while callers here often hold a `&str`.
pub fn str_eq(a: &str, b: &str) -> (r: bool)
    ensures
        r == (a@ == b@),
{
    let a_len = a.unicode_len();
    let b_len = b.unicode_len();
    if a_len != b_len {
        return false;
    }
    let mut i: usize = 0;
    while i < a_len
        invariant
            i <= a_len,
            a_len == a@.len(),
            a_len == b@.len(),
            forall|j: int| 0 <= j < i ==> a@[j] == b@[j],
        decreases a_len - i,
    {
        if a.get_char(i) != b.get_char(i) {
            return false;
        }
        i += 1;
    }
    proof {
        assert(a@ =~= b@);
    }
    true
}

impl JsonValue {
    /// The empty JSON object, the default for missing tool-call arguments.
    pub fn empty_object() -> (r: JsonValue)
        ensures
            r@ == JsonData::Obj(Seq::<(Seq<char>, JsonData)>::empty()),
    {
        JsonValue::Obj(Vec::new())
    }

    /// A deep copy, equal to the original in the model.
    #[verifier::loop_isolation(false)]
    pub fn duplicate(&self) -> (r: JsonValue)
        ensures
            r@ == self@,
        decreases self,
    {
        match self {
            JsonValue::Null => JsonValue::Null,
            JsonValue::Bool(b) => JsonValue::Bool(*b),
            JsonValue::Int(i) => JsonValue::Int(*i),
            JsonValue::Num(t) => JsonValue::Num(t.clone()),
            JsonValue::Str(s) => JsonValue::Str(s.clone()),
            JsonValue::Arr(a) => {
                let mut out: Vec<JsonValue> = Vec::new();
                let mut i: usize = 0;
                while i < a.len()
                    invariant
                        i <= a.len(),
                        out@.len() == i,
                        forall|j: int| 0 <= j < i ==> #[trigger] out@[j]@ == a@[j]@,
                    decreases a.len() - i,
                {
                    proof {
                        assert(decreases_to!(*self => (*self)->Arr_0));
                        assert(decreases_to!(*a => a@));
                        assert(decreases_to!(a@ => a@[i as int]));
                        assert(decreases_to!(*self => a@[i as int]));
                    }
                    let item = a[i].duplicate();
                    out.push(item);
                    i += 1;
                }
                proof {
                    lemma_json_seq_view(out@);
                    lemma_json_seq_view(a@);
                    assert(json_seq_view(out@) =~= json_seq_view(a@));
                }
                JsonValue::Arr(out)
            }
            JsonValue::Obj(o) => {
                let mut out: Vec<(String, JsonValue)> = Vec::new();
                let mut i: usize = 0;
                while i < o.len()
                    invariant
                        i <= o.len(),
                        out@.len() == i,
                        forall|j: int|
                            0 <= j < i ==> #[trigger] out@[j].0@ == o@[j].0@ && out@[j].1@
                                == o@[j].1@,
                    decreases o.len() - i,
                {
                    proof {
                        assert(decreases_to!(*self => (*self)->Obj_0));
                        assert(decreases_to!(*o => o@));
                        assert(decreases_to!(o@ => o@[i as int]));
                        assert(decreases_to!(o@[i as int] => o@[i as int].1));
                        assert(decreases_to!(*self => o@[i as int].1));
                    }
                    let key = o[i].0.clone();
                    let value = o[i].1.duplicate();
                    out.push((key, value));
                    i += 1;
                }
                proof {
                    lemma_json_obj_view(out@);
                    lemma_json_obj_view(o@);
                    assert(json_obj_view(out@) =~= json_obj_view(o@));
                }
                JsonValue::Obj(out)
            }
        }
    }

    /// Looks a key up in an object value, first match wins.
    #[verifier::loop_isolation(false)]
    pub fn get<'a>(&'a self, key: &str) -> (r: Option<&'a JsonValue>)
        ensures
            match r {
                Some(v) => self@.get_field(key@) == Some(v@),
                None => self@.get_field(key@) is None,
            },
    {
        match self {
            JsonValue::Obj(entries) => {
                proof {
                    lemma_json_obj_view(entries@);
                }
                let mut i: usize = 0;
                while i < entries.len()
                    invariant
                        i <= entries.len(),
                        json_obj_view(entries@).len() == entries@.len(),
                        forall|j: int|
                            0 <= j < entries@.len() ==> #[trigger] json_obj_view(entries@)[j]
                                == (entries@[j].0@, entries@[j].1@),
                        obj_lookup_from(json_obj_view(entries@), key@, 0) == obj_lookup_from(
                            json_obj_view(entries@),
                            key@,
                            i as int,
                        ),
                    decreases entries.len() - i,
                {
                    if str_eq(entries[i].0.as_str(), key) {
                        proof {
                            assert(json_obj_view(entries@)[i as int] == (
                                entries@[i as int].0@,
                                entries@[i as int].1@,
                            ));
                            assert(obj_lookup_from(json_obj_view(entries@), key@, i as int)
                                == Some(entries@[i as int].1@));
                        }
                        return Some(&entries[i].1);
                    }
                    i += 1;
                }
                None
            }
            _ => None,
        }
    }
}

// ---------------------------------------------------------------------------
// Decimal formatting
// ---------------------------------------------------------------------------

/// The decimal digit character for `d` (0 through 9).
pub open spec fn digit_char(d: nat) -> char {
    if d == 0 {
        '0'
    } else if d == 1 {
        '1'
    } else if d == 2 {
        '2'
    } else if d == 3 {
        '3'
    } else if d == 4 {
        '4'
    } else if d == 5 {
        '5'
    } else if d == 6 {
        '6'
    } else if d == 7 {
        '7'
    } else if d == 8 {
        '8'
    } else {
        '9'
    }
}

/// The decimal representation of a natural number, with no leading zeros.
pub open spec fn dec_digits(n: nat) -> Seq<char>
    decreases n,
{
    if n < 10 {
        seq![digit_char(n)]
    } else {
        dec_digits(n / 10).push(digit_char(n % 10))
    }
}

/// The decimal representation of an integer, with a leading minus sign when
/// negative.
pub open spec fn int_digits(i: int) -> Seq<char> {
    if i < 0 {
        seq!['-'] + dec_digits((-i) as nat)
    } else {
        dec_digits(i as nat)
    }
}

fn append_digit(d: u64, out: &mut String)
    requires
        d < 10,
    ensures
        final(out)@ == old(out)@ + seq![digit_char(d as nat)],
{
    if d == 0 {
        proof {
            reveal_strlit("0");
            assert("0"@ =~= seq![digit_char(0)]);
        }
        out.append("0");
    } else if d == 1 {
        proof {
            reveal_strlit("1");
            assert("1"@ =~= seq![digit_char(1)]);
        }
        out.append("1");
    } else if d == 2 {
        proof {
            reveal_strlit("2");
            assert("2"@ =~= seq![digit_char(2)]);
        }
        out.append("2");
    } else if d == 3 {
        proof {
            reveal_strlit("3");
            assert("3"@ =~= seq![digit_char(3)]);
        }
        out.append("3");
    } else if d == 4 {
        proof {
            reveal_strlit("4");
            assert("4"@ =~= seq![digit_char(4)]);
        }
        out.append("4");
    } else if d == 5 {
        proof {
            reveal_strlit("5");
            assert("5"@ =~= seq![digit_char(5)]);
        }
        out.append("5");
    } else if d == 6 {
        proof {
            reveal_strlit("6");
            assert("6"@ =~= seq![digit_char(6)]);
        }
        out.append("6");
    } else if d == 7 {
        proof {
            reveal_strlit("7");
            assert("7"@ =~= seq![digit_char(7)]);
        }
        out.append("7");
    } else if d == 8 {
        proof {
            reveal_strlit("8");
            assert("8"@ =~= seq![digit_char(8)]);
        }
        out.append("8");
    } else {
        proof {
            reveal_strlit("9");
            assert("9"@ =~= seq![digit_char(9)]);
        }
        out.append("9");
    }
}

fn append_u64(n: u64, out: &mut String)
    ensures
        final(out)@ == old(out)@ + dec_digits(n as nat),
    decreases n,
{
    if n >= 10 {
        append_u64(n / 10, out);
    }
    append_digit(n % 10, out);
    proof {
        if n >= 10 {
            assert(out@ =~= old(out)@ + dec_digits(n as nat));
        }
    }
}

/// The decimal text of an unsigned 64-bit number.
pub fn u64_to_string(n: u64) -> (r: String)
    ensures
        r@ == dec_digits(n as nat),
{
    let mut out = String::new();
    append_u64(n, &mut out);
    proof {
        assert(out@ =~= dec_digits(n as nat));
    }
    out
}

/// The decimal text of a signed 64-bit number.
pub fn i64_to_string(i: i64) -> (r: String)
    ensures
        r@ == int_digits(i as int),
{
    if i >= 0 {
        let r = u64_to_string(i as u64);
        r
    } else {
        let magnitude: u64 = if i == i64::MIN {
            9223372036854775808u64
        } else {
            (-i) as u64
        };
        let mut out = String::new();
        proof {
            reveal_strlit("-");
            assert("-"@ =~= seq!['-']);
        }
        out.append("-");
        append_u64(magnitude, &mut out);
        proof {
            assert(out@ =~= int_digits(i as int));
        }
        out
    }
}

// ---------------------------------------------------------------------------
// Serialization
// ---------------------------------------------------------------------------

/// How one character is written inside a JSON string literal: quotes,
/// backslashes and the common control characters are escaped, every other
/// character stands for itself.
pub open spec fn escaped_char(c: char) -> Seq<char> {
    if c == '"' {
        seq!['\\', '"']
    } else if c == '\\' {
        seq!['\\', '\\']
    } else if c == '\n' {
        seq!['\\', 'n']
    } else if c == '\r' {
        seq!['\\', 'r']
    } else if c == '\t' {
        seq!['\\', 't']
    } else {
        seq![c]
    }
}

/// The escaped body of a JSON string literal.
pub open spec fn escaped_str(s: Seq<char>) -> Seq<char>
    decreases s,
{
    if s.len() == 0 {
        Seq::empty()
    } else {
        escaped_str(s.drop_last()) + escaped_char(s.last())
    }
}

/// A complete JSON string literal: quote, escaped body, quote.
pub open spec fn quoted(s: Seq<char>) -> Seq<char> {
    seq!['"'] + escaped_str(s) + seq!['"']
}

/// The serialized text of a JSON value.
pub open spec fn json_text(v: JsonData) -> Seq<char>
    decreases v,
{
    match v {
        JsonData::Null => seq!['n', 'u', 'l', 'l'],
        JsonData::Bool(b) => if b {
            seq!['t', 'r', 'u', 'e']
        } else {
            seq!['f', 'a', 'l', 's', 'e']
        },
        JsonData::Int(i) => int_digits(i),
        JsonData::Num(t) => t,
        JsonData::Str(s) => quoted(s),
        JsonData::Arr(items) => seq!['['] + json_seq_text(items) + seq![']'],
        JsonData::Obj(entries) => seq!['{'] + json_obj_text(entries) + seq!['}'],
    }
}

/// The comma-separated serialized elements of an array.
pub open spec fn json_seq_text(items: Seq<JsonData>) -> Seq<char>
    decreases items,
{
    if items.len() == 0 {
        Seq::empty()
    } else if items.len() == 1 {
        json_text(items.last())
    } else {
        json_seq_text(items.drop_last()) + seq![','] + json_text(items.last())
    }
}

/// The comma-separated serialized entries of an object.
pub open spec fn json_obj_text(entries: Seq<(Seq<char>, JsonData)>) -> Seq<char>
    decreases entries,
{
    if entries.len() == 0 {
        Seq::empty()
    } else if entries.len() == 1 {
        quoted(entries.last().0) + seq![':'] + json_text(entries.last().1)
    } else {
        json_obj_text(entries.drop_last()) + seq![','] + quoted(entries.last().0) + seq![':']
            + json_text(entries.last().1)
    }
}

fn append_escaped(s: &str, out: &mut String)
    ensures
        final(out)@ == old(out)@ + escaped_str(s@),
{
    let len = s.unicode_len();
    let mut i: usize = 0;
    while i < len
        invariant
            i <= len,
            len == s@.len(),
            out@ == old(out)@ + escaped_str(s@.subrange(0, i as int)),
        decreases len - i,
    {
        let c = s.get_char(i);
        if c == '"' {
            proof {
                reveal_strlit("\\\"");
                assert("\\\""@ =~= seq!['\\', '"']);
            }
            out.append("\\\"");
        } else if c == '\\' {
            proof {
                reveal_strlit("\\\\");
                assert("\\\\"@ =~= seq!['\\', '\\']);
            }
            out.append("\\\\");
        } else if c == '\n' {
            proof {
                reveal_strlit("\\n");
                assert("\\n"@ =~= seq!['\\', 'n']);
            }
            out.append("\\n");
        } else if c == '\r' {
            proof {
                reveal_strlit("\\r");
                assert("\\r"@ =~= seq!['\\', 'r']);
            }
            out.append("\\r");
        } else if c == '\t' {
            proof {
                reveal_strlit("\\t");
                assert("\\t"@ =~= seq!['\\', 't']);
            }
            out.append("\\t");
        } else {
            let piece = s.substring_char(i, i + 1);
            proof {
                assert(piece@ =~= seq![c]);
            }
            out.append(piece);
        }
        proof {
            assert(s@.subrange(0, i + 1 as int).drop_last() =~= s@.subrange(0, i as int));
            assert(s@.subrange(0, i + 1 as int).last() == c);
            assert(out@ =~= old(out)@ + escaped_str(s@.subrange(0, i + 1 as int)));
        }
        i += 1;
    }
    proof {
        assert(s@.subrange(0, len as int) =~= s@);
    }
}

/// Serializes a value onto the end of `out`.
#[verifier::loop_isolation(false)]
pub fn append_json(v: &JsonValue, out: &mut String)
    ensures
        final(out)@ == old(out)@ + json_text(v@),
    decreases v,
{
    match v {
        JsonValue::Null => {
            proof {
                reveal_strlit("null");
                assert("null"@ =~= seq!['n', 'u', 'l', 'l']);
            }
            out.append("null");
        }
        JsonValue::Bool(b) => {
            if *b {
                proof {
                    reveal_strlit("true");
                    assert("true"@ =~= seq!['t', 'r', 'u', 'e']);
                }
                out.append("true");
            } else {
                proof {
                    reveal_strlit("false");
                    assert("false"@ =~= seq!['f', 'a', 'l', 's', 'e']);
                }
                out.append("false");
            }
        }
        JsonValue::Int(i) => {
            let digits = i64_to_string(*i);
            out.append(digits.as_str());
        }
        JsonValue::Num(t) => {
            out.append(t.as_str());
        }
        JsonValue::Str(s) => {
            proof {
                reveal_strlit("\"");
                assert("\""@ =~= seq!['"']);
            }
            out.append("\"");
            append_escaped(s.as_str(), out);
            out.append("\"");
            proof {
                assert(out@ =~= old(out)@ + quoted(s@));
            }
        }
        JsonValue::Arr(items) => {
            proof {
                reveal_strlit("[");
                reveal_strlit("]");
                reveal_strlit(",");
                assert("["@ =~= seq!['[']);
                assert("]"@ =~= seq![']']);
                assert(","@ =~= seq![',']);
                lemma_json_seq_view(items@);
            }
            out.append("[");
            let mut i: usize = 0;
            while i < items.len()
                invariant
                    i <= items.len(),
                    json_seq_view(items@).len() == items@.len(),
                    forall|j: int|
                        0 <= j < items@.len() ==> #[trigger] json_seq_view(items@)[j]
                            == items@[j]@,
                    out@ == old(out)@ + seq!['['] + json_seq_text(
                        json_seq_view(items@).subrange(0, i as int),
                    ),
                    "["@ == seq!['['],
                    "]"@ == seq![']'],
                    ","@ == seq![','],
                decreases items.len() - i,
            {
                if i > 0 {
                    out.append(",");
                }
                proof {
                    assert(decreases_to!(*v => (*v)->Arr_0));
                    assert(decreases_to!(*items => items@));
                    assert(decreases_to!(items@ => items@[i as int]));
                    assert(decreases_to!(*v => items@[i as int]));
                }
                append_json(&items[i], out);
                proof {
                    let full = json_seq_view(items@);
                    assert(full.subrange(0, i + 1 as int).drop_last() =~= full.subrange(
                        0,
                        i as int,
                    ));
                    assert(full.subrange(0, i + 1 as int).last() == items@[i as int]@);
                    assert(out@ =~= old(out)@ + seq!['['] + json_seq_text(
                        full.subrange(0, i + 1 as int),
                    ));
                }
                i += 1;
            }
            out.append("]");
            proof {
                assert(json_seq_view(items@).subrange(0, items@.len() as int) =~= json_seq_view(
                    items@,
                ));
                assert(out@ =~= old(out)@ + json_text(v@));
            }
        }
        JsonValue::Obj(entries) => {
            proof {
                reveal_strlit("{");
                reveal_strlit("}");
                reveal_strlit(",");
                reveal_strlit("\"");
                reveal_strlit(":");
                assert("{"@ =~= seq!['{']);
                assert("}"@ =~= seq!['}']);
                assert(","@ =~= seq![',']);
                assert("\""@ =~= seq!['"']);
                assert(":"@ =~= seq![':']);
                lemma_json_obj_view(entries@);
            }
            out.append("{");
            let mut i: usize = 0;
            while i < entries.len()
                invariant
                    i <= entries.len(),
                    json_obj_view(entries@).len() == entries@.len(),
                    forall|j: int|
                        0 <= j < entries@.len() ==> #[trigger] json_obj_view(entries@)[j]
                            == (entries@[j].0@, entries@[j].1@),
                    out@ == old(out)@ + seq!['{'] + json_obj_text(
                        json_obj_view(entries@).subrange(0, i as int),
                    ),
                    "{"@ == seq!['{'],
                    "}"@ == seq!['}'],
                    ","@ == seq![','],
                    "\""@ == seq!['"'],
                    ":"@ == seq![':'],
                decreases entries.len() - i,
            {
                if i > 0 {
                    out.append(",");
                }
                out.append("\"");
                append_escaped(entries[i].0.as_str(), out);
                out.append("\"");
                out.append(":");
                proof {
                    assert(decreases_to!(*v => (*v)->Obj_0));
                    assert(decreases_to!(*entries => entries@));
                    assert(decreases_to!(entries@ => entries@[i as int]));
                    assert(decreases_to!(entries@[i as int] => entries@[i as int].1));
                    assert(decreases_to!(*v => entries@[i as int].1));
                }
                append_json(&entries[i].1, out);
                proof {
                    let full = json_obj_view(entries@);
                    assert(full.subrange(0, i + 1 as int).drop_last() =~= full.subrange(
                        0,
                        i as int,
                    ));
                    assert(full.subrange(0, i + 1 as int).last() == (
                        entries@[i as int].0@,
                        entries@[i as int].1@,
                    ));
                    assert(out@ =~= old(out)@ + seq!['{'] + json_obj_text(
                        full.subrange(0, i + 1 as int),
                    ));
                }
                i += 1;
            }
            out.append("}");
            proof {
                assert(json_obj_view(entries@).subrange(0, entries@.len() as int)
                    =~= json_obj_view(entries@));
                assert(out@ =~= old(out)@ + json_text(v@));
            }
        }
    }
}

/// The serialized text of a value, as a fresh string.
pub fn to_json_text(v: &JsonValue) -> (r: String)
    ensures
        r@ == json_text(v@),
{
    let mut out = String::new();
    append_json(v, &mut out);
    proof {
        assert(out@ =~= json_text(v@));
    }
    out
}

} // verus!
