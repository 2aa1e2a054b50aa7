use vstd::prelude::*;
use crate::extract::RecordView;
use crate::json::{encode_record, escape_char, escaped, hex_digit, hex_value, quoted, quoted_list};

verus! {

pub open spec fn code_of(c: char) -> int {
    c as int
}

/// The character whose code point is `v`.
pub open spec fn char_with_code(v: int) -> char {
    choose|c: char| #[trigger] code_of(c) == v
}

/// The character that an escape sequence at the start of `s` stands for, and
/// the length of the sequence.
pub open spec fn unescape_head(s: Seq<char>) -> Option<(char, int)> {
    if s.len() < 2 || s[0] != '\\' {
        None
    } else if s[1] == '"' {
        Some(('"', 2))
    } else if s[1] == '\\' {
        Some(('\\', 2))
    } else if s[1] == 'b' {
        Some(('\x08', 2))
    } else if s[1] == 't' {
        Some(('\t', 2))
    } else if s[1] == 'n' {
        Some(('\n', 2))
    } else if s[1] == 'f' {
        Some(('\x0c', 2))
    } else if s[1] == 'r' {
        Some(('\r', 2))
    } else if s[1] == 'u' && s.len() >= 6 && s[2] == '0' && s[3] == '0' && hex_value(s[4]) >= 0
        && hex_value(s[5]) >= 0 {
        Some((char_with_code(16 * hex_value(s[4]) + hex_value(s[5])), 6))
    } else {
        None
    }
}

/// Reads the body of a JSON string literal up to its closing quote: the text it
/// stands for and what follows the quote.
pub open spec fn read_body(s: Seq<char>) -> Option<(Seq<char>, Seq<char>)>
    decreases s.len(),
{
    if s.len() == 0 {
        None
    } else if s[0] == '"' {
        Some((seq![], s.drop_first()))
    } else if s[0] == '\\' {
        match unescape_head(s) {
            Some((c, n)) => if 0 < n <= s.len() {
                match read_body(s.skip(n)) {
                    Some((t, r)) => Some((seq![c] + t, r)),
                    None => None,
                }
            } else {
                None
            },
            None => None,
        }
    } else {
        match read_body(s.drop_first()) {
            Some((t, r)) => Some((seq![s[0]] + t, r)),
            None => None,
        }
    }
}

/// Reads a JSON string literal.
pub open spec fn read_quoted(s: Seq<char>) -> Option<(Seq<char>, Seq<char>)> {
    if s.len() > 0 && s[0] == '"' {
        read_body(s.drop_first())
    } else {
        None
    }
}

/// Reads one or more comma-separated string literals, up to (not past) the
/// closing bracket.
pub open spec fn read_items(s: Seq<char>) -> Option<(Seq<Seq<char>>, Seq<char>)>
    decreases s.len(),
{
    match read_quoted(s) {
        Some((t, r)) => if 0 < r.len() < s.len() {
            if r[0] == ']' {
                Some((seq![t], r))
            } else if r[0] == ',' {
                match read_items(r.drop_first()) {
                    Some((ts, r2)) => Some((seq![t] + ts, r2)),
                    None => None,
                }
            } else {
                None
            }
        } else {
            None
        },
        None => None,
    }
}

/// Reads the items of a JSON array of strings, up to (not past) the closing
/// bracket.
pub open spec fn read_list(s: Seq<char>) -> Option<(Seq<Seq<char>>, Seq<char>)> {
    if s.len() > 0 && s[0] == ']' {
        Some((seq![], s))
    } else {
        read_items(s)
    }
}

/// Reads a fixed piece of text.
pub open spec fn read_lit(s: Seq<char>, lit: Seq<char>) -> Option<Seq<char>> {
    if lit.len() <= s.len() && s.take(lit.len() as int) == lit {
        Some(s.skip(lit.len() as int))
    } else {
        None
    }
}

/// Reads a record back from its JSON object.
pub open spec fn decode_record(s: Seq<char>) -> Option<RecordView> {
    match read_lit(s, "{\"name\":"@) {
        None => None,
        Some(s1) => match read_quoted(s1) {
            None => None,
            Some((name, s2)) => match read_lit(s2, ",\"types\":["@) {
                None => None,
                Some(s3) => match read_list(s3) {
                    None => None,
                    Some((types, s4)) => match read_lit(s4, "],\"species\":"@) {
                        None => None,
                        Some(s5) => match read_quoted(s5) {
                            None => None,
                            Some((species, s6)) => match read_lit(s6, ",\"height\":"@) {
                                None => None,
                                Some(s7) => match read_quoted(s7) {
                                    None => None,
                                    Some((height, s8)) => match read_lit(s8, ",\"weight\":"@) {
                                        None => None,
                                        Some(s9) => match read_quoted(s9) {
                                            None => None,
                                            Some((weight, s10)) => if s10 == "}"@ {
                                                Some(
                                                    RecordView {
                                                        name,
                                                        types,
                                                        species,
                                                        height,
                                                        weight,
                                                    },
                                                )
                                            } else {
                                                None
                                            },
                                        },
                                    },
                                },
                            },
                        },
                    },
                },
            },
        },
    }
}

proof fn lemma_char_code(c: char)
    ensures
        char_with_code(c as int) == c,
{
    let d = char_with_code(c as int);
    assert(code_of(c) == c as int);
    assert(code_of(d) == c as int);
}

proof fn lemma_unescape_char(c: char, tail: Seq<char>)
    requires
        escape_char(c).len() > 1,
    ensures
        unescape_head(escape_char(c) + tail) == Some((c, escape_char(c).len() as int)),
{
    let e = escape_char(c);
    let s = e + tail;
    if (c as int) < 0x20 && c != '\x08' && c != '\t' && c != '\n' && c != '\x0c' && c != '\r' {
        let hi = (c as int) / 16;
        let lo = (c as int) % 16;
        assert(0 <= hi < 2 && 0 <= lo < 16 && 16 * hi + lo == c as int);
        assert(hex_value(hex_digit(hi)) == hi);
        assert(hex_value(hex_digit(lo)) == lo);
        assert(s[4] == hex_digit(hi) && s[5] == hex_digit(lo));
        lemma_char_code(c);
    }
}

/// The body of a quoted text reads back as the text, leaving what follows.
proof fn lemma_read_body(x: Seq<char>, rest: Seq<char>)
    ensures
        read_body(escaped(x) + seq!['"'] + rest) == Some((x, rest)),
    decreases x.len(),
{
    let s = escaped(x) + seq!['"'] + rest;
    if x.len() == 0 {
        assert(s =~= seq!['"'] + rest);
        assert(s.drop_first() =~= rest);
    } else {
        let c = x[0];
        let e = escape_char(c);
        let tail = escaped(x.drop_first()) + seq!['"'] + rest;
        assert(s =~= e + tail);
        lemma_read_body(x.drop_first(), rest);
        if e.len() == 1 {
            assert(s[0] == c);
            assert(s.drop_first() =~= tail);
        } else {
            lemma_unescape_char(c, tail);
            assert(s.skip(e.len() as int) =~= tail);
        }
        assert(seq![c] + x.drop_first() =~= x);
    }
}

proof fn lemma_read_quoted(x: Seq<char>, rest: Seq<char>)
    ensures
        read_quoted(quoted(x) + rest) == Some((x, rest)),
{
    let s = quoted(x) + rest;
    assert(s.drop_first() =~= escaped(x) + seq!['"'] + rest);
    lemma_read_body(x, rest);
}

proof fn lemma_read_lit(lit: Seq<char>, tail: Seq<char>)
    ensures
        read_lit(lit + tail, lit) == Some(tail),
{
    assert((lit + tail).take(lit.len() as int) =~= lit);
    assert((lit + tail).skip(lit.len() as int) =~= tail);
}

/// A list of two or more items is its first item, a comma and the others.
proof fn lemma_list_front(ts: Seq<Seq<char>>)
    requires
        ts.len() >= 2,
    ensures
        quoted_list(ts) == quoted(ts[0]) + ","@ + quoted_list(ts.drop_first()),
    decreases ts.len(),
{
    if ts.len() == 2 {
        assert(ts.drop_last() =~= seq![ts[0]]);
        assert(ts.drop_first() =~= seq![ts[1]]);
        assert(quoted_list(ts.drop_last()) == quoted(ts[0]));
        assert(quoted_list(ts.drop_first()) == quoted(ts[1]));
        assert(ts.last() == ts[1]);
    } else {
        lemma_list_front(ts.drop_last());
        assert(ts.drop_last().drop_first() =~= ts.drop_first().drop_last());
        assert(ts.drop_last()[0] == ts[0]);
        assert(ts.drop_first().last() == ts.last());
        assert(quoted_list(ts) =~= quoted(ts[0]) + ","@ + quoted_list(ts.drop_first()));
    }
}

proof fn lemma_read_items(ts: Seq<Seq<char>>, rest: Seq<char>)
    requires
        ts.len() >= 1,
        rest.len() > 0,
        rest[0] == ']',
    ensures
        read_items(quoted_list(ts) + rest) == Some((ts, rest)),
    decreases ts.len(),
{
    reveal_strlit(",");
    let s = quoted_list(ts) + rest;
    if ts.len() == 1 {
        assert(s == quoted(ts[0]) + rest);
        lemma_read_quoted(ts[0], rest);
        assert(seq![ts[0]] =~= ts);
    } else {
        lemma_list_front(ts);
        let more = quoted_list(ts.drop_first()) + rest;
        let r = ","@ + more;
        assert(s =~= quoted(ts[0]) + r);
        lemma_read_quoted(ts[0], r);
        assert(r.drop_first() =~= more);
        lemma_read_items(ts.drop_first(), rest);
        assert(seq![ts[0]] + ts.drop_first() =~= ts);
    }
}

proof fn lemma_read_list(ts: Seq<Seq<char>>, rest: Seq<char>)
    requires
        rest.len() > 0,
        rest[0] == ']',
    ensures
        read_list(quoted_list(ts) + rest) == Some((ts, rest)),
{
    if ts.len() == 0 {
        assert(quoted_list(ts) + rest =~= rest);
        assert(ts =~= seq![]);
    } else {
        lemma_read_items(ts, rest);
        assert((quoted_list(ts) + rest)[0] == '"');
    }
}

/// Encoding then decoding a record gives the record back, whatever its texts
/// hold.
pub proof fn lemma_round_trip(r: RecordView)
    ensures
        decode_record(encode_record(r)) == Some(r),
{
    reveal_strlit("],\"species\":");
    let l_name = "{\"name\":"@;
    let l_types = ",\"types\":["@;
    let l_species = "],\"species\":"@;
    let l_height = ",\"height\":"@;
    let l_weight = ",\"weight\":"@;
    let l_end = "}"@;
    let s10 = l_end;
    let s9 = quoted(r.weight) + s10;
    let s8 = l_weight + s9;
    let s7 = quoted(r.height) + s8;
    let s6 = l_height + s7;
    let s5 = quoted(r.species) + s6;
    let s4 = l_species + s5;
    let s3 = quoted_list(r.types) + s4;
    let s2 = l_types + s3;
    let s1 = quoted(r.name) + s2;
    let s0 = l_name + s1;
    assert(encode_record(r) =~= s0);
    lemma_read_lit(l_name, s1);
    lemma_read_quoted(r.name, s2);
    lemma_read_lit(l_types, s3);
    lemma_read_list(r.types, s4);
    lemma_read_lit(l_species, s5);
    lemma_read_quoted(r.species, s6);
    lemma_read_lit(l_height, s7);
    lemma_read_quoted(r.height, s8);
    lemma_read_lit(l_weight, s9);
    lemma_read_quoted(r.weight, s10);
}

} // verus!
