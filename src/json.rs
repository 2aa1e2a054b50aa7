use vstd::prelude::*;
use vstd::string::*;
use crate::extract::{Record, RecordView, ScrapeError};

verus! {

#[verifier::external_type_specification]
#[verifier::external_body]
pub struct ExJsonError(serde_json::Error);

pub open spec fn hex_digit(d: int) -> char {
    if d == 0 { '0' } else if d == 1 { '1' } else if d == 2 { '2' } else if d == 3 { '3' }
    else if d == 4 { '4' } else if d == 5 { '5' } else if d == 6 { '6' } else if d == 7 { '7' }
    else if d == 8 { '8' } else if d == 9 { '9' } else if d == 10 { 'a' } else if d == 11 { 'b' }
    else if d == 12 { 'c' } else if d == 13 { 'd' } else if d == 14 { 'e' } else { 'f' }
}

/// The value of a lower-case hexadecimal digit, or -1.
pub open spec fn hex_value(c: char) -> int {
    if c == '0' { 0 } else if c == '1' { 1 } else if c == '2' { 2 } else if c == '3' { 3 }
    else if c == '4' { 4 } else if c == '5' { 5 } else if c == '6' { 6 } else if c == '7' { 7 }
    else if c == '8' { 8 } else if c == '9' { 9 } else if c == 'a' { 10 } else if c == 'b' { 11 }
    else if c == 'c' { 12 } else if c == 'd' { 13 } else if c == 'e' { 14 } else if c == 'f' { 15 }
    else { -1 }
}

/// How one character stands inside a JSON string: quote and backslash are
/// escaped, the control characters below U+0020 take their short escape where
/// JSON has one and a `\u00XX` escape otherwise, every other character stands
/// as it is.
pub open spec fn escape_char(c: char) -> Seq<char> {
    if c == '"' {
        seq!['\\', '"']
    } else if c == '\\' {
        seq!['\\', '\\']
    } else if c == '\x08' {
        seq!['\\', 'b']
    } else if c == '\t' {
        seq!['\\', 't']
    } else if c == '\n' {
        seq!['\\', 'n']
    } else if c == '\x0c' {
        seq!['\\', 'f']
    } else if c == '\r' {
        seq!['\\', 'r']
    } else if (c as int) < 0x20 {
        seq!['\\', 'u', '0', '0', hex_digit((c as int) / 16), hex_digit((c as int) % 16)]
    } else {
        seq![c]
    }
}

pub open spec fn escaped(s: Seq<char>) -> Seq<char>
    decreases s.len(),
{
    if s.len() == 0 {
        seq![]
    } else {
        escape_char(s[0]) + escaped(s.drop_first())
    }
}

/// A text as a JSON string literal.
pub open spec fn quoted(s: Seq<char>) -> Seq<char> {
    seq!['"'] + escaped(s) + seq!['"']
}

/// A sequence of texts as the comma-separated items of a JSON array.
pub open spec fn quoted_list(ts: Seq<Seq<char>>) -> Seq<char>
    decreases ts.len(),
{
    if ts.len() == 0 {
        seq![]
    } else if ts.len() == 1 {
        quoted(ts[0])
    } else {
        quoted_list(ts.drop_last()) + ","@ + quoted(ts.last())
    }
}

/// A record as one JSON object, its fields in the order name, types, species,
/// height, weight.
pub open spec fn encode_record(r: RecordView) -> Seq<char> {
    "{\"name\":"@ + quoted(r.name) + ",\"types\":["@ + quoted_list(r.types) + "],\"species\":"@
        + quoted(r.species) + ",\"height\":"@ + quoted(r.height) + ",\"weight\":"@ + quoted(
        r.weight,
    ) + "}"@
}

/// Relies on serde_json::to_string on a `str`: a JSON string literal with
/// serde_json's escaping of quote, backslash and control characters. It writes
/// into a `Vec`, so it does not fail on a `str`.
#[verifier::external_body]
fn quote_json(s: &str) -> (r: Result<String, serde_json::Error>)
    ensures
        r is Ok,
        r matches Ok(t) ==> t@ == quoted(s@),
{
    serde_json::to_string(s)
}

fn quote(s: &String) -> (r: Result<String, ScrapeError>)
    ensures
        r matches Ok(t) && t@ == quoted(s@),
{
    match quote_json(s.as_str()) {
        Ok(t) => Ok(t),
        Err(_) => Err(ScrapeError::Serialization),
    }
}

fn quote_list(ts: &Vec<String>) -> (r: Result<String, ScrapeError>)
    ensures
        r matches Ok(t) && t@ == quoted_list(ts@.map_values(|t: String| t@)),
{
    let ghost vs = ts@.map_values(|t: String| t@);
    let mut out = String::new();
    let mut k: usize = 0;
    while k < ts.len()
        invariant
            k <= ts@.len(),
            vs == ts@.map_values(|t: String| t@),
            out@ == quoted_list(vs.take(k as int)),
        decreases ts@.len() - k,
    {
        let q = quote(&ts[k])?;
        assert(vs.take(k + 1).drop_last() =~= vs.take(k as int));
        if k > 0 {
            out.append(",");
        } else {
            assert(quoted_list(vs.take(0)) == Seq::<char>::empty());
            assert(out@ + q@ =~= q@);
        }
        out.append(q.as_str());
        k = k + 1;
    }
    assert(vs.take(ts@.len() as int) =~= vs);
    Ok(out)
}

/// Encodes a record as one JSON object, fit to stand on a line of its own.
pub fn serialize(rec: &Record) -> (r: Result<String, ScrapeError>)
    ensures
        r matches Ok(t) && t@ == encode_record(rec@),
{
    let name = quote(&rec.name)?;
    let types = quote_list(&rec.types)?;
    let species = quote(&rec.species)?;
    let height = quote(&rec.height)?;
    let weight = quote(&rec.weight)?;
    let mut out = String::from_str("{\"name\":");
    out.append(name.as_str());
    out.append(",\"types\":[");
    out.append(types.as_str());
    out.append("],\"species\":");
    out.append(species.as_str());
    out.append(",\"height\":");
    out.append(height.as_str());
    out.append(",\"weight\":");
    out.append(weight.as_str());
    out.append("}");
    Ok(out)
}

} // verus!
