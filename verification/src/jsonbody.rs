//! Construction of the JSON reply bodies that the service itself produces:
//! the fixed health text and the database-version object. The version string
//! comes back from the database unconstrained, so it is embedded as a JSON
//! string literal with full escaping.

use vstd::prelude::*;
use vstd::string::StrSliceExecFns;
use vstd::string::StringExecFns;

verus! {

/// The hexadecimal digit character of a nibble.
pub open spec fn hex_char(n: int) -> char {
    if n == 0 {
        '0'
    } else if n == 1 {
        '1'
    } else if n == 2 {
        '2'
    } else if n == 3 {
        '3'
    } else if n == 4 {
        '4'
    } else if n == 5 {
        '5'
    } else if n == 6 {
        '6'
    } else if n == 7 {
        '7'
    } else if n == 8 {
        '8'
    } else if n == 9 {
        '9'
    } else if n == 10 {
        'a'
    } else if n == 11 {
        'b'
    } else if n == 12 {
        'c'
    } else if n == 13 {
        'd'
    } else if n == 14 {
        'e'
    } else {
        'f'
    }
}

/// How one character appears inside a JSON string literal: the short escapes
/// of the JSON grammar, `\u00XX` for the remaining control characters, and
/// the character itself otherwise.
pub open spec fn escaped_char(c: char) -> Seq<char> {
    if c == '"' {
        seq!['\\', '"']
    } else if c == '\\' {
        seq!['\\', '\\']
    } else if c == '\u{8}' {
        seq!['\\', 'b']
    } else if c == '\u{c}' {
        seq!['\\', 'f']
    } else if c == '\n' {
        seq!['\\', 'n']
    } else if c == '\r' {
        seq!['\\', 'r']
    } else if c == '\t' {
        seq!['\\', 't']
    } else if (c as u32) < 32 {
        seq!['\\', 'u', '0', '0', hex_char((c as u32) as int / 16), hex_char((c as u32) as int % 16)]
    } else {
        seq![c]
    }
}

/// A whole string escaped for embedding between JSON quotes.
pub open spec fn json_escaped(s: Seq<char>) -> Seq<char>
    decreases s.len(),
{
    if s.len() == 0 {
        Seq::empty()
    } else {
        escaped_char(s[0]) + json_escaped(s.skip(1))
    }
}

/// Escaping distributes over concatenation.
pub proof fn lemma_json_escaped_concat(a: Seq<char>, b: Seq<char>)
    ensures
        json_escaped(a + b) == json_escaped(a) + json_escaped(b),
    decreases a.len(),
{
    if a.len() == 0 {
        assert(a + b =~= b);
        assert(json_escaped(a) + json_escaped(b) =~= json_escaped(b));
    } else {
        lemma_json_escaped_concat(a.skip(1), b);
        assert((a + b).skip(1) =~= a.skip(1) + b);
        assert((a + b)[0] == a[0]);
        assert(escaped_char(a[0]) + (json_escaped(a.skip(1)) + json_escaped(b)) =~= (escaped_char(
            a[0],
        ) + json_escaped(a.skip(1))) + json_escaped(b));
    }
}

/// Escaping a single character yields exactly its escape sequence.
pub proof fn lemma_json_escaped_singleton(c: char)
    ensures
        json_escaped(seq![c]) == escaped_char(c),
{
    assert(seq![c].skip(1) =~= Seq::<char>::empty());
    assert(escaped_char(c) + json_escaped(seq![c].skip(1)) =~= escaped_char(c));
}

/// The hexadecimal digit of a nibble, as a one-character string slice.
pub fn hex_digit(n: u32) -> (r: &'static str)
    requires
        n < 16,
    ensures
        r@ == seq![hex_char(n as int)],
{
    proof {
        reveal_strlit("0");
        reveal_strlit("1");
        reveal_strlit("2");
        reveal_strlit("3");
        reveal_strlit("4");
        reveal_strlit("5");
        reveal_strlit("6");
        reveal_strlit("7");
        reveal_strlit("8");
        reveal_strlit("9");
        reveal_strlit("a");
        reveal_strlit("b");
        reveal_strlit("c");
        reveal_strlit("d");
        reveal_strlit("e");
        reveal_strlit("f");
    }
    let r = match n {
        0 => "0",
        1 => "1",
        2 => "2",
        3 => "3",
        4 => "4",
        5 => "5",
        6 => "6",
        7 => "7",
        8 => "8",
        9 => "9",
        10 => "a",
        11 => "b",
        12 => "c",
        13 => "d",
        14 => "e",
        _ => "f",
    };
    proof {
        assert(r@ =~= seq![hex_char(n as int)]);
    }
    r
}

/// Escape a string for embedding between JSON quotes.
pub fn escape_json(s: &str) -> (r: String)
    ensures
        r@ == json_escaped(s@),
{
    let len = s.unicode_len();
    let mut out = String::new();
    let mut i: usize = 0;
    while i < len
        invariant
            len == s@.len(),
            i <= len,
            out@ == json_escaped(s@.take(i as int)),
        decreases len - i,
    {
        let c = s.get_char(i);
        proof {
            assert(s@.take(i as int + 1) =~= s@.take(i as int) + seq![c]);
            lemma_json_escaped_concat(s@.take(i as int), seq![c]);
            lemma_json_escaped_singleton(c);
        }
        if c == '"' {
            proof {
                reveal_strlit("\\\"");
                assert("\\\""@ =~= escaped_char(c));
            }
            out.append("\\\"");
        } else if c == '\\' {
            proof {
                reveal_strlit("\\\\");
                assert("\\\\"@ =~= escaped_char(c));
            }
            out.append("\\\\");
        } else if c == '\u{8}' {
            proof {
                reveal_strlit("\\b");
                assert("\\b"@ =~= escaped_char(c));
            }
            out.append("\\b");
        } else if c == '\u{c}' {
            proof {
                reveal_strlit("\\f");
                assert("\\f"@ =~= escaped_char(c));
            }
            out.append("\\f");
        } else if c == '\n' {
            proof {
                reveal_strlit("\\n");
                assert("\\n"@ =~= escaped_char(c));
            }
            out.append("\\n");
        } else if c == '\r' {
            proof {
                reveal_strlit("\\r");
                assert("\\r"@ =~= escaped_char(c));
            }
            out.append("\\r");
        } else if c == '\t' {
            proof {
                reveal_strlit("\\t");
                assert("\\t"@ =~= escaped_char(c));
            }
            out.append("\\t");
        } else if (c as u32) < 32 {
            let n = c as u32;
            proof {
                reveal_strlit("\\u00");
            }
            out.append("\\u00");
            out.append(hex_digit(n / 16));
            out.append(hex_digit(n % 16));
            proof {
                assert("\\u00"@ + seq![hex_char(n as int / 16)] + seq![hex_char(n as int % 16)]
                    =~= escaped_char(c));
            }
        } else {
            let piece = s.substring_char(i, i + 1);
            proof {
                assert(piece@ =~= seq![c]);
            }
            out.append(piece);
        }
        i += 1;
    }
    proof {
        assert(s@.take(len as int) =~= s@);
    }
    out
}

/// The fixed body of a health reply.
pub open spec fn health_text() -> Seq<char> {
    "{\"status\":\"alive\"}"@
}

/// The body of a successful database-version reply for version string `v`.
pub open spec fn version_text(v: Seq<char>) -> Seq<char> {
    "{\"version\":\""@ + json_escaped(v) + "\"}"@
}

/// The health probe's reply body, always the same object.
pub fn health_body() -> (r: String)
    ensures
        r@ == health_text(),
{
    String::from_str("{\"status\":\"alive\"}")
}

/// The database-version reply body: a one-field object holding `v`.
pub fn version_body(v: &str) -> (r: String)
    ensures
        r@ == version_text(v@),
{
    let mut out = String::from_str("{\"version\":\"");
    let esc = escape_json(v);
    out.append(esc.as_str());
    out.append("\"}");
    out
}

} // verus!
