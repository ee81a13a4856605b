//! JSON: documents as `serde_json` reads them, looked into place by place,
//! and the writing of string literals.

use vstd::prelude::*;
use crate::amount::{amount_of, parse_amount};
use crate::text::{chars_of, i64_of, parse_i64};

verus! {

/// `serde_json::Value`: a JSON value as the parser hands it out. Nothing of
/// its inside is visible here; `contents` names what it holds.
#[verifier::external_type_specification]
#[verifier::external_body]
pub struct ExJsonValue(serde_json::Value);

/// What stands at one place of a document. A number is kept as its decimal
/// text; of an array and an object only the kind is kept, their parts have
/// places of their own.
#[derive(Debug)]
pub enum Scalar {
    Null,
    Bool(bool),
    Number(String),
    Text(String),
    Array,
    Object,
}

/// What a `Scalar` holds, with texts as their characters.
pub enum ScalarView {
    Null,
    Bool(bool),
    Number(Seq<char>),
    Text(Seq<char>),
    Array,
    Object,
}

impl View for Scalar {
    type V = ScalarView;

    open spec fn view(&self) -> ScalarView {
        match self {
            Scalar::Null => ScalarView::Null,
            Scalar::Bool(b) => ScalarView::Bool(*b),
            Scalar::Number(n) => ScalarView::Number(n@),
            Scalar::Text(t) => ScalarView::Text(t@),
            Scalar::Array => ScalarView::Array,
            Scalar::Object => ScalarView::Object,
        }
    }
}

/// What a JSON value holds: for each JSON Pointer that leads to a place in
/// it, what stands at that place.
pub uninterp spec fn contents(value: serde_json::Value) -> Map<Seq<char>, ScalarView>;

/// What the document holds that `serde_json::from_str` reads from `text`,
/// or `None` where it reports an error.
pub uninterp spec fn parsed_contents(text: Seq<char>) -> Option<Map<Seq<char>, ScalarView>>;

/// What stands at `pointer` in a document that holds `held`.
pub open spec fn place(held: Map<Seq<char>, ScalarView>, pointer: Seq<char>) -> Option<ScalarView> {
    if held.dom().contains(pointer) {
        Some(held[pointer])
    } else {
        None
    }
}

/// The view of a scalar that may be missing.
pub open spec fn scalar_view(scalar: Option<Scalar>) -> Option<ScalarView> {
    match scalar {
        Some(s) => Some(s@),
        None => None,
    }
}

/// Calls `serde_json::from_str` for a `serde_json::Value`; `None` stands
/// for the parser's error. The contract claims only that what the value
/// holds is a function of the text.
#[verifier::external_body]
fn parse_value(text: &str) -> (r: Option<serde_json::Value>)
    ensures
        match r {
            Some(value) => parsed_contents(text@) == Some(contents(value)),
            None => parsed_contents(text@) is None,
        },
{
    serde_json::from_str::<serde_json::Value>(text).ok()
}

/// Calls `serde_json::Value::pointer` and tells what it found: the kind of
/// the value, with the flag of a boolean, the characters of a string, and
/// the text that `Display` writes for a number. `None` where the pointer
/// leads nowhere. The contract names what is found as the contents of the
/// value at that pointer.
#[verifier::external_body]
fn lookup(value: &serde_json::Value, pointer: &str) -> (r: Option<Scalar>)
    ensures
        scalar_view(r) == place(contents(*value), pointer@),
{
    match value.pointer(pointer) {
        None => None,
        Some(serde_json::Value::Null) => Some(Scalar::Null),
        Some(serde_json::Value::Bool(b)) => Some(Scalar::Bool(*b)),
        Some(serde_json::Value::Number(n)) => Some(Scalar::Number(n.to_string())),
        Some(serde_json::Value::String(s)) => Some(Scalar::Text(s.clone())),
        Some(serde_json::Value::Array(_)) => Some(Scalar::Array),
        Some(serde_json::Value::Object(_)) => Some(Scalar::Object),
    }
}

/// A JSON document.
pub struct Document {
    value: serde_json::Value,
}

impl Document {
    /// What the document holds, by JSON Pointer.
    pub closed spec fn held(&self) -> Map<Seq<char>, ScalarView> {
        contents(self.value)
    }

    /// Reads a document from `text`; `None` where the text is no JSON.
    pub fn parse(text: &str) -> (r: Option<Document>)
        ensures
            match r {
                Some(document) => parsed_contents(text@) == Some(document.held()),
                None => parsed_contents(text@) is None,
            },
    {
        match parse_value(text) {
            Some(value) => Some(Document { value }),
            None => None,
        }
    }

    /// What stands at `pointer`, if the pointer leads to a place of the
    /// document.
    pub fn at(&self, pointer: &str) -> (r: Option<Scalar>)
        ensures
            scalar_view(r) == place(self.held(), pointer@),
    {
        lookup(&self.value, pointer)
    }
}

impl ScalarView {
    /// The characters of a string.
    pub open spec fn text(self) -> Option<Seq<char>> {
        match self {
            ScalarView::Text(t) => Some(t),
            _ => None,
        }
    }

    /// The value of a number that is written as an integer and fits in 64
    /// bits.
    pub open spec fn integer(self) -> Option<int> {
        match self {
            ScalarView::Number(n) => i64_of(n),
            _ => None,
        }
    }

    /// The amount of a number, or of a string that holds a decimal number.
    pub open spec fn amount(self) -> Option<int> {
        match self {
            ScalarView::Number(n) => amount_of(n),
            ScalarView::Text(t) => amount_of(t),
            _ => None,
        }
    }
}

impl Scalar {
    /// The characters of a string.
    pub fn as_chars(&self) -> (r: Option<Vec<char>>)
        ensures
            match r {
                Some(v) => self@.text() == Some(v@),
                None => self@.text() is None,
            },
    {
        match self {
            Scalar::Text(t) => Some(chars_of(t.as_str())),
            _ => None,
        }
    }

    /// The value of a number that is written as an integer and fits in 64
    /// bits.
    pub fn as_i64(&self) -> (r: Option<i64>)
        ensures
            match r {
                Some(x) => self@.integer() == Some(x as int),
                None => self@.integer() is None,
            },
    {
        match self {
            Scalar::Number(n) => parse_i64(&chars_of(n.as_str())),
            _ => None,
        }
    }

    /// The amount of a number, or of a string that holds a decimal number.
    pub fn as_amount(&self) -> (r: Option<i64>)
        ensures
            match r {
                Some(x) => self@.amount() == Some(x as int),
                None => self@.amount() is None,
            },
    {
        match self {
            Scalar::Number(n) => parse_amount(&chars_of(n.as_str())),
            Scalar::Text(t) => parse_amount(&chars_of(t.as_str())),
            _ => None,
        }
    }
}

/// The lower-case hexadecimal digit for `n`.
pub open spec fn hex_digit(n: int) -> char {
    if n < 10 {
        ('0' as u8 + n) as char
    } else {
        ('a' as u8 + (n - 10)) as char
    }
}

/// How a character stands inside a JSON string: the quote and the
/// backslash behind a backslash, a control character by its short escape
/// or as `\u00` and two hexadecimal digits, any other character as it is.
pub open spec fn escaped_char(c: char) -> Seq<char> {
    if c == '"' {
        seq!['\\', '"']
    } else if c == '\\' {
        seq!['\\', '\\']
    } else if c == '\u{8}' {
        seq!['\\', 'b']
    } else if c == '\t' {
        seq!['\\', 't']
    } else if c == '\n' {
        seq!['\\', 'n']
    } else if c == '\u{c}' {
        seq!['\\', 'f']
    } else if c == '\r' {
        seq!['\\', 'r']
    } else if (c as int) < 0x20 {
        seq!['\\', 'u', '0', '0', hex_digit(c as int / 16), hex_digit(c as int % 16)]
    } else {
        seq![c]
    }
}

/// The characters of `s` as they stand inside a JSON string.
pub open spec fn escaped(s: Seq<char>) -> Seq<char>
    decreases s.len(),
{
    if s.len() == 0 {
        Seq::empty()
    } else {
        escaped(s.drop_last()) + escaped_char(s.last())
    }
}

/// The JSON string literal for `s`: `s` in double quotes, with the escapes
/// that JSON asks for.
pub open spec fn json_quoted(s: Seq<char>) -> Seq<char> {
    seq!['"'] + escaped(s) + seq!['"']
}

/// The lower-case hexadecimal digit for `n`.
fn hex_char(n: u8) -> (c: char)
    requires
        n < 16,
    ensures
        c == hex_digit(n as int),
{
    if n < 10 {
        (48u8 + n) as char
    } else {
        (97u8 + (n - 10)) as char
    }
}

/// Appends `c` to `out` as it stands inside a JSON string.
fn push_escaped(out: &mut String, c: char)
    ensures
        final(out)@ == old(out)@ + escaped_char(c),
{
    if c == '"' {
        out.push('\\');
        out.push('"');
    } else if c == '\\' {
        out.push('\\');
        out.push('\\');
    } else if c == '\u{8}' {
        out.push('\\');
        out.push('b');
    } else if c == '\t' {
        out.push('\\');
        out.push('t');
    } else if c == '\n' {
        out.push('\\');
        out.push('n');
    } else if c == '\u{c}' {
        out.push('\\');
        out.push('f');
    } else if c == '\r' {
        out.push('\\');
        out.push('r');
    } else if (c as u32) < 0x20 {
        let code: u8 = c as u8;
        out.push('\\');
        out.push('u');
        out.push('0');
        out.push('0');
        out.push(hex_char(code / 16));
        out.push(hex_char(code % 16));
    } else {
        out.push(c);
    }
    assert(out@ =~= old(out)@ + escaped_char(c));
}

/// Writes `s` as a JSON string literal.
pub fn json_quote(s: &str) -> (r: String)
    ensures
        r@ == json_quoted(s@),
{
    let chars = chars_of(s);
    let mut out = String::new();
    out.push('"');
    let mut i: usize = 0;
    while i < chars.len()
        invariant
            i <= chars.len(),
            out@ == seq!['"'] + escaped(chars@.take(i as int)),
        decreases chars.len() - i,
    {
        let ghost next = chars@.take(i + 1);
        assert(next.drop_last() =~= chars@.take(i as int));
        assert(next.last() == chars@[i as int]);
        push_escaped(&mut out, chars[i]);
        assert(out@ =~= seq!['"'] + escaped(next));
        i += 1;
    }
    assert(chars@.take(chars.len() as int) =~= chars@);
    out.push('"');
    assert(out@ =~= json_quoted(s@));
    out
}

} // verus!
