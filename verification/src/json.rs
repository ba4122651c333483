//! JSON string literals, as the health bodies need them.

use crate::ident::hex_digit;
use vstd::prelude::*;
use vstd::string::{StrSliceExecFns, StringExecFns};

verus! {

/// How one character stands inside a JSON string: the quote and the
/// backslash get a backslash, the five usual control characters their short
/// escapes, the other control characters `\u00` and two lower-case
/// hexadecimal digits; every other character stands for itself.
pub open spec fn escape_of(c: char) -> Seq<char> {
    if c == '"' {
        "\\\""@
    } else if c == '\\' {
        "\\\\"@
    } else if c == '\u{8}' {
        "\\b"@
    } else if c == '\u{c}' {
        "\\f"@
    } else if c == '\n' {
        "\\n"@
    } else if c == '\r' {
        "\\r"@
    } else if c == '\t' {
        "\\t"@
    } else if (c as u32) < 0x20 {
        "\\u00"@ + seq![hex_digit((c as u32 / 16) as int)] + seq![hex_digit((c as u32 % 16) as int)]
    } else {
        seq![c]
    }
}

/// The characters of a text, each in its escaped form.
pub open spec fn escaped(text: Seq<char>) -> Seq<char>
    decreases text.len(),
{
    if text.len() == 0 {
        Seq::empty()
    } else {
        escaped(text.drop_last()) + escape_of(text.last())
    }
}

/// A text as a JSON string literal: escaped, between double quotes.
pub open spec fn quoted(text: Seq<char>) -> Seq<char> {
    "\""@ + escaped(text) + "\""@
}

/// The hexadecimal digit of a value below 16, as text.
fn hex_text(n: u32) -> (text: &'static str)
    requires
        n < 16,
    ensures
        text@ == seq![hex_digit(n as int)],
{
    proof {
        reveal_strlit("0");
        reveal_strlit("1");
        reveal_strlit("2");
        reveal_strlit("3");
        reveal_strlit("4");
        reveal_strlit("5");
        reveal_strlit("6");
        reveal_strlit("7");
        reveal_strlit("8");
        reveal_strlit("9");
        reveal_strlit("a");
        reveal_strlit("b");
        reveal_strlit("c");
        reveal_strlit("d");
        reveal_strlit("e");
        reveal_strlit("f");
    }
    let text = if n == 0 {
        "0"
    } else if n == 1 {
        "1"
    } else if n == 2 {
        "2"
    } else if n == 3 {
        "3"
    } else if n == 4 {
        "4"
    } else if n == 5 {
        "5"
    } else if n == 6 {
        "6"
    } else if n == 7 {
        "7"
    } else if n == 8 {
        "8"
    } else if n == 9 {
        "9"
    } else if n == 10 {
        "a"
    } else if n == 11 {
        "b"
    } else if n == 12 {
        "c"
    } else if n == 13 {
        "d"
    } else if n == 14 {
        "e"
    } else {
        "f"
    };
    assert(text@ =~= seq![hex_digit(n as int)]);
    text
}

/// Writes `text` as a JSON string literal.
pub fn quote(text: &str) -> (literal: String)
    ensures
        literal@ == quoted(text@),
{
    let mut literal = "\"".to_string();
    let n = text.unicode_len();
    let mut i: usize = 0;
    while i < n
        invariant
            n == text@.len(),
            i <= n,
            literal@ == "\""@ + escaped(text@.take(i as int)),
        decreases n - i,
    {
        let c = text.get_char(i);
        proof {
            assert(text@.take(i + 1).drop_last() =~= text@.take(i as int));
            assert(text@.take(i + 1).last() == c);
        }
        if c == '"' {
            literal.append("\\\"");
        } else if c == '\\' {
            literal.append("\\\\");
        } else if c == '\u{8}' {
            literal.append("\\b");
        } else if c == '\u{c}' {
            literal.append("\\f");
        } else if c == '\n' {
            literal.append("\\n");
        } else if c == '\r' {
            literal.append("\\r");
        } else if c == '\t' {
            literal.append("\\t");
        } else if (c as u32) < 0x20 {
            let code: u32 = c as u32;
            literal.append("\\u00");
            literal.append(hex_text(code / 16));
            literal.append(hex_text(code % 16));
        } else {
            let one = text.substring_char(i, i + 1);
            assert(one@ =~= seq![c]);
            literal.append(one);
        }
        assert(literal@ =~= "\""@ + escaped(text@.take(i + 1)));
        i += 1;
    }
    proof {
        assert(text@.take(i as int) =~= text@);
    }
    literal.append("\"");
    literal
}

} // verus!
