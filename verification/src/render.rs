//! The message that reports a part that has no bytes: a fixed prefix, then
//! the part's data as Rust's pretty debug format (`{:#?}`) lays it out.
//!
//! That layout puts each field or entry of a value on a line of its own,
//! indented four spaces further than the value, and ends each with a comma;
//! the text of a string is its debug text (quoted and escaped).
use vstd::prelude::*;
use crate::content::{Data, DataV};
use crate::text::{chars_of, decimal, push_char, push_decimal, push_str};

verus! {

/// The debug text of a string (`<str as Debug>::fmt`): in double quotes,
/// with std's escapes.
pub uninterp spec fn str_debug(s: Seq<char>) -> Seq<char>;

/// Writes the debug text of a string (`format!("{:?}", s)`).
#[verifier::external_body]
fn debug_str(s: &str) -> (r: String)
    ensures
        r@ == str_debug(s@),
{
    format!("{:?}", s)
}

/// A text written inside a value: four spaces at the start of each of its
/// lines.
pub open spec fn padded(x: Seq<char>) -> Seq<char>
    decreases x.len(),
{
    if x.len() == 0 {
        seq![]
    } else {
        let i = x.len() - 1;
        padded(x.drop_last()) + (if i == 0 || x[i - 1] == '\n' { "    "@ } else { Seq::<char>::empty() })
            + seq![x[i]]
    }
}

/// The debug text of a number.
pub open spec fn i32_debug(n: i32) -> Seq<char> {
    if n < 0 {
        "-"@ + decimal((-n) as nat)
    } else {
        decimal(n as nat)
    }
}

/// One field of a struct: its name, a colon, its value and a comma, on
/// lines of their own inside the struct.
pub open spec fn field_text(name: Seq<char>, value: Seq<char>) -> Seq<char> {
    padded(name + ": "@ + value + ",\n"@)
}

/// A variant that holds one value.
pub open spec fn tuple_text(name: Seq<char>, value: Seq<char>) -> Seq<char> {
    name + "(\n"@ + padded(value + ",\n"@) + ")"@
}

/// The entries of a list of bytes, one per line.
pub open spec fn byte_entries(b: Seq<u8>) -> Seq<char>
    decreases b.len(),
{
    if b.len() == 0 {
        seq![]
    } else {
        byte_entries(b.drop_last()) + padded(decimal(b.last() as nat) + ",\n"@)
    }
}

/// The debug text of a list of bytes.
pub open spec fn bytes_debug(b: Seq<u8>) -> Seq<char> {
    if b.len() == 0 {
        "[]"@
    } else {
        "[\n"@ + byte_entries(b) + "]"@
    }
}

/// The debug text of an optional string.
pub open spec fn opt_str_debug(o: Option<Seq<char>>) -> Seq<char> {
    match o {
        Some(s) => tuple_text("Some"@, str_debug(s)),
        None => "None"@,
    }
}

/// The debug text of the data of a part.
pub open spec fn data_debug(d: DataV) -> Seq<char> {
    match d {
        DataV::Text(t) => tuple_text("Text"@, str_debug(t)),
        DataV::InlineData(m, b) => tuple_text(
            "InlineData"@,
            "Blob {\n"@ + field_text("mime_type"@, str_debug(m)) + field_text("data"@, bytes_debug(b)) + "}"@,
        ),
        DataV::FunctionCall(id, name, args) => tuple_text(
            "FunctionCall"@,
            "FunctionCall {\n"@ + field_text("id"@, str_debug(id)) + field_text("name"@, str_debug(name))
                + field_text("args"@, opt_str_debug(args)) + "}"@,
        ),
        DataV::FunctionResponse(id, name, response) => tuple_text(
            "FunctionResponse"@,
            "FunctionResponse {\n"@ + field_text("id"@, str_debug(id)) + field_text("name"@, str_debug(name))
                + field_text("response"@, opt_str_debug(response)) + "}"@,
        ),
        DataV::FileData(m, uri) => tuple_text(
            "FileData"@,
            "FileData {\n"@ + field_text("mime_type"@, str_debug(m)) + field_text("file_uri"@, str_debug(uri))
                + "}"@,
        ),
        DataV::ExecutableCode(language, code) => tuple_text(
            "ExecutableCode"@,
            "ExecutableCode {\n"@ + field_text("language"@, i32_debug(language))
                + field_text("code"@, str_debug(code)) + "}"@,
        ),
        DataV::CodeExecutionResult(outcome, output) => tuple_text(
            "CodeExecutionResult"@,
            "CodeExecutionResult {\n"@ + field_text("outcome"@, i32_debug(outcome))
                + field_text("output"@, str_debug(output)) + "}"@,
        ),
    }
}

/// The message that reports a part without bytes: a fixed prefix, then the
/// part's data in the pretty debug format.
pub open spec fn invalid_content_message(d: Option<DataV>) -> Seq<char> {
    "InvalidContent encountered  "@ + match d {
        Some(x) => tuple_text("Some"@, data_debug(x)),
        None => "None"@,
    }
}

/// Appends a text as written inside a value.
fn push_padded(out: &mut String, x: &str)
    ensures
        final(out)@ == old(out)@ + padded(x@),
{
    let cs = chars_of(x);
    let ghost start = out@;
    let mut i: usize = 0;
    while i < cs.len()
        invariant
            cs@ == x@,
            i <= cs@.len(),
            out@ == start + padded(cs@.take(i as int)),
        decreases cs@.len() - i,
    {
        let ghost before = out@;
        let ghost t = cs@.take(i + 1);
        assert(t.drop_last() =~= cs@.take(i as int));
        assert(t.last() == cs@[i as int]);
        if i == 0 || cs[i - 1] == '\n' {
            assert(i > 0 ==> t[i - 1] == cs@[i - 1]);
            push_str(out, "    ");
            push_char(out, cs[i]);
            assert(out@ =~= before + ("    "@ + seq![cs@[i as int]]));
        } else {
            assert(t[i - 1] == cs@[i - 1]);
            push_char(out, cs[i]);
            assert(out@ =~= before + (Seq::<char>::empty() + seq![cs@[i as int]]));
        }
        assert(padded(t) == padded(cs@.take(i as int)) + (if i == 0 || t[i - 1] == '\n' {
            "    "@
        } else {
            Seq::<char>::empty()
        }) + seq![t[i as int]]);
        assert(out@ =~= start + padded(t));
        i = i + 1;
    }
    assert(cs@.take(cs@.len() as int) =~= x@);
}

/// Appends one field of a struct.
fn push_field(out: &mut String, name: &str, value: &str)
    ensures
        final(out)@ == old(out)@ + field_text(name@, value@),
{
    let mut line = name.to_owned();
    push_str(&mut line, ": ");
    push_str(&mut line, value);
    push_str(&mut line, ",\n");
    push_padded(out, line.as_str());
}

/// A variant that holds one value.
fn tuple_of(name: &str, value: &str) -> (r: String)
    ensures
        r@ == tuple_text(name@, value@),
{
    let mut r = name.to_owned();
    push_str(&mut r, "(\n");
    let mut inner = value.to_owned();
    push_str(&mut inner, ",\n");
    push_padded(&mut r, inner.as_str());
    push_str(&mut r, ")");
    r
}

/// The debug text of a number.
fn i32_text(n: i32) -> (r: String)
    ensures
        r@ == i32_debug(n),
{
    let mut r = String::new();
    if n < 0 {
        push_str(&mut r, "-");
        let m: i64 = -(n as i64);
        push_decimal(&mut r, m as u64);
    } else {
        push_decimal(&mut r, n as u64);
    }
    r
}

/// The debug text of a list of bytes.
fn bytes_text(b: &Vec<u8>) -> (r: String)
    ensures
        r@ == bytes_debug(b@),
{
    if b.len() == 0 {
        return "[]".to_owned();
    }
    let mut r = "[\n".to_owned();
    let mut i: usize = 0;
    while i < b.len()
        invariant
            i <= b@.len(),
            r@ == "[\n"@ + byte_entries(b@.take(i as int)),
        decreases b@.len() - i,
    {
        let mut entry = String::new();
        push_decimal(&mut entry, b[i] as u64);
        push_str(&mut entry, ",\n");
        let ghost before = r@;
        push_padded(&mut r, entry.as_str());
        assert(b@.take(i + 1).drop_last() =~= b@.take(i as int));
        assert(b@.take(i + 1).last() == b@[i as int]);
        assert(r@ =~= "[\n"@ + byte_entries(b@.take(i + 1)));
        i = i + 1;
    }
    assert(b@.take(b@.len() as int) =~= b@);
    push_str(&mut r, "]");
    r
}

/// The debug text of an optional string.
fn opt_str_text(o: &Option<String>) -> (r: String)
    ensures
        r@ == opt_str_debug(match o {
            Some(s) => Some(s@),
            None => None,
        }),
{
    match o {
        Some(s) => tuple_of("Some", debug_str(s.as_str()).as_str()),
        None => "None".to_owned(),
    }
}

/// The debug text of the data of a part.
fn data_text(d: &Data) -> (r: String)
    ensures
        r@ == data_debug(d@),
{
    match d {
        Data::Text(t) => tuple_of("Text", debug_str(t.as_str()).as_str()),
        Data::InlineData(b) => {
            let mut s = "Blob {\n".to_owned();
            push_field(&mut s, "mime_type", debug_str(b.mime_type.as_str()).as_str());
            push_field(&mut s, "data", bytes_text(&b.data).as_str());
            push_str(&mut s, "}");
            tuple_of("InlineData", s.as_str())
        },
        Data::FunctionCall(f) => {
            let mut s = "FunctionCall {\n".to_owned();
            push_field(&mut s, "id", debug_str(f.id.as_str()).as_str());
            push_field(&mut s, "name", debug_str(f.name.as_str()).as_str());
            push_field(&mut s, "args", opt_str_text(&f.args).as_str());
            push_str(&mut s, "}");
            tuple_of("FunctionCall", s.as_str())
        },
        Data::FunctionResponse(f) => {
            let mut s = "FunctionResponse {\n".to_owned();
            push_field(&mut s, "id", debug_str(f.id.as_str()).as_str());
            push_field(&mut s, "name", debug_str(f.name.as_str()).as_str());
            push_field(&mut s, "response", opt_str_text(&f.response).as_str());
            push_str(&mut s, "}");
            tuple_of("FunctionResponse", s.as_str())
        },
        Data::FileData(f) => {
            let mut s = "FileData {\n".to_owned();
            push_field(&mut s, "mime_type", debug_str(f.mime_type.as_str()).as_str());
            push_field(&mut s, "file_uri", debug_str(f.file_uri.as_str()).as_str());
            push_str(&mut s, "}");
            tuple_of("FileData", s.as_str())
        },
        Data::ExecutableCode(c) => {
            let mut s = "ExecutableCode {\n".to_owned();
            push_field(&mut s, "language", i32_text(c.language).as_str());
            push_field(&mut s, "code", debug_str(c.code.as_str()).as_str());
            push_str(&mut s, "}");
            tuple_of("ExecutableCode", s.as_str())
        },
        Data::CodeExecutionResult(c) => {
            let mut s = "CodeExecutionResult {\n".to_owned();
            push_field(&mut s, "outcome", i32_text(c.outcome).as_str());
            push_field(&mut s, "output", debug_str(c.output.as_str()).as_str());
            push_str(&mut s, "}");
            tuple_of("CodeExecutionResult", s.as_str())
        },
    }
}

/// The message that reports a part without bytes.
pub fn describe_invalid_content(d: &Option<Data>) -> (r: String)
    ensures
        r@ == invalid_content_message(match d {
            Some(x) => Some(x@),
            None => None,
        }),
{
    let mut r = "InvalidContent encountered  ".to_owned();
    match d {
        Some(x) => push_str(&mut r, tuple_of("Some", data_text(x).as_str()).as_str()),
        None => push_str(&mut r, "None"),
    }
    r
}

} // verus!
