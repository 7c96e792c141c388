//! Verified text building blocks for the emitted documents.
//!
//! The configuration artifact and the finalizer patches are rendered by the
//! library itself, character by character, so that the emitted text is a
//! proven function of the input — identical input yields identical output.

use vstd::prelude::*;

verus! {

/// Concatenation of character sequences associates; stated once so that
/// long renderings can be regrouped without element-wise reasoning.
pub proof fn seq_concat_assoc(a: Seq<char>, b: Seq<char>, c: Seq<char>)
    ensures
        (a + b) + c == a + (b + c),
{
    assert((a + b) + c =~= a + (b + c));
}

/// The character for one decimal digit.
pub open spec fn digit_char(d: nat) -> char {
    if d == 0 {
        '0'
    } else if d == 1 {
        '1'
    } else if d == 2 {
        '2'
    } else if d == 3 {
        '3'
    } else if d == 4 {
        '4'
    } else if d == 5 {
        '5'
    } else if d == 6 {
        '6'
    } else if d == 7 {
        '7'
    } else if d == 8 {
        '8'
    } else {
        '9'
    }
}

/// The decimal notation of a number, most significant digit first.
pub open spec fn dec_str(n: nat) -> Seq<char>
    decreases n,
{
    if n < 10 {
        seq![digit_char(n)]
    } else {
        dec_str(n / 10).push(digit_char(n % 10))
    }
}

/// The character for one hexadecimal digit.
pub open spec fn hex_digit_char(d: nat) -> char {
    if d < 10 {
        digit_char(d)
    } else if d == 10 {
        'A'
    } else if d == 11 {
        'B'
    } else if d == 12 {
        'C'
    } else if d == 13 {
        'D'
    } else if d == 14 {
        'E'
    } else {
        'F'
    }
}

/// How one character appears inside a TOML basic string: quote and
/// backslash are escaped, control characters take their short escape or a
/// `\u00XX` form, everything else stands for itself.
pub open spec fn escape_char(c: char) -> Seq<char> {
    if c == '"' {
        seq!['\\', '"']
    } else if c == '\\' {
        seq!['\\', '\\']
    } else if c == '\u{8}' {
        seq!['\\', 'b']
    } else if c == '\t' {
        seq!['\\', 't']
    } else if c == '\n' {
        seq!['\\', 'n']
    } else if c == '\u{c}' {
        seq!['\\', 'f']
    } else if c == '\r' {
        seq!['\\', 'r']
    } else if (c as nat) < 0x20 || c == '\u{7f}' {
        seq!['\\', 'u', '0', '0'] + seq![hex_digit_char((c as nat) / 16), hex_digit_char(
            (c as nat) % 16,
        )]
    } else {
        seq![c]
    }
}

/// A character sequence with every character escaped.
pub open spec fn escape_str(s: Seq<char>) -> Seq<char>
    decreases s.len(),
{
    if s.len() == 0 {
        Seq::empty()
    } else {
        escape_str(s.drop_last()) + escape_char(s.last())
    }
}

/// A TOML basic string: the escaped content between double quotes.
pub open spec fn quoted(s: Seq<char>) -> Seq<char> {
    seq!['"'] + escape_str(s) + seq!['"']
}

/// Appends one decimal digit.
fn append_digit(out: &mut String, d: u64)
    requires
        d < 10,
    ensures
        final (out)@ == old(out)@.push(digit_char(d as nat)),
{
    let piece: &str = match d {
        0 => "0",
        1 => "1",
        2 => "2",
        3 => "3",
        4 => "4",
        5 => "5",
        6 => "6",
        7 => "7",
        8 => "8",
        _ => "9",
    };
    proof {
        reveal_strlit("0");
        reveal_strlit("1");
        reveal_strlit("2");
        reveal_strlit("3");
        reveal_strlit("4");
        reveal_strlit("5");
        reveal_strlit("6");
        reveal_strlit("7");
        reveal_strlit("8");
        reveal_strlit("9");
    }
    out.append(piece);
    proof {
        assert(final (out)@ =~= old(out)@.push(digit_char(d as nat)));
    }
}

/// Appends the decimal notation of `n`.
pub fn append_u64(out: &mut String, n: u64)
    ensures
        final (out)@ == old(out)@ + dec_str(n as nat),
    decreases n,
{
    if n < 10 {
        append_digit(out, n);
        proof {
            assert(old(out)@.push(digit_char(n as nat)) =~= old(out)@ + dec_str(n as nat));
        }
    } else {
        append_u64(out, n / 10);
        append_digit(out, n % 10);
        proof {
            assert((old(out)@ + dec_str((n / 10) as nat)).push(digit_char((n % 10) as nat)) =~= old(
                out,
            )@ + dec_str(n as nat));
        }
    }
}

/// Appends `true` or `false`.
pub fn append_bool(out: &mut String, b: bool)
    ensures
        final (out)@ == old(out)@ + bool_str(b),
{
    if b {
        out.append("true");
    } else {
        out.append("false");
    }
}

/// The word a boolean is written as.
pub open spec fn bool_str(b: bool) -> Seq<char> {
    if b {
        "true"@
    } else {
        "false"@
    }
}

/// Appends one possibly-escaped character.
fn append_escaped_char(out: &mut String, piece: &str, c: char)
    requires
        piece@ == seq![c],
    ensures
        final (out)@ == old(out)@ + escape_char(c),
{
    if c == '"' {
        out.append("\\\"");
        proof {
            reveal_strlit("\\\"");
            assert(final (out)@ =~= old(out)@ + escape_char(c));
        }
    } else if c == '\\' {
        out.append("\\\\");
        proof {
            reveal_strlit("\\\\");
            assert(final (out)@ =~= old(out)@ + escape_char(c));
        }
    } else if c == '\u{8}' {
        out.append("\\b");
        proof {
            reveal_strlit("\\b");
            assert(final (out)@ =~= old(out)@ + escape_char(c));
        }
    } else if c == '\t' {
        out.append("\\t");
        proof {
            reveal_strlit("\\t");
            assert(final (out)@ =~= old(out)@ + escape_char(c));
        }
    } else if c == '\n' {
        out.append("\\n");
        proof {
            reveal_strlit("\\n");
            assert(final (out)@ =~= old(out)@ + escape_char(c));
        }
    } else if c == '\u{c}' {
        out.append("\\f");
        proof {
            reveal_strlit("\\f");
            assert(final (out)@ =~= old(out)@ + escape_char(c));
        }
    } else if c == '\r' {
        out.append("\\r");
        proof {
            reveal_strlit("\\r");
            assert(final (out)@ =~= old(out)@ + escape_char(c));
        }
    } else if (c as u32) < 0x20 || c == '\u{7f}' {
        out.append("\\u00");
        let code: u32 = c as u32;
        append_hex_digit(out, ((code / 16) % 16) as u64);
        append_hex_digit(out, (code % 16) as u64);
        proof {
            reveal_strlit("\\u00");
            assert(final (out)@ =~= old(out)@ + escape_char(c));
        }
    } else {
        out.append(piece);
        proof {
            assert(final (out)@ =~= old(out)@ + escape_char(c));
        }
    }
}

/// Appends one hexadecimal digit.
fn append_hex_digit(out: &mut String, d: u64)
    requires
        d < 16,
    ensures
        final (out)@ == old(out)@.push(hex_digit_char(d as nat)),
{
    if d < 10 {
        append_digit(out, d);
    } else {
        let piece: &str = match d {
            10 => "A",
            11 => "B",
            12 => "C",
            13 => "D",
            14 => "E",
            _ => "F",
        };
        proof {
            reveal_strlit("A");
            reveal_strlit("B");
            reveal_strlit("C");
            reveal_strlit("D");
            reveal_strlit("E");
            reveal_strlit("F");
        }
        out.append(piece);
        proof {
            assert(final (out)@ =~= old(out)@.push(hex_digit_char(d as nat)));
        }
    }
}

/// Appends the escaped form of `s`.
pub fn append_escaped(out: &mut String, s: &str)
    ensures
        final (out)@ == old(out)@ + escape_str(s@),
{
    let len: usize = s.unicode_len();
    let mut i: usize = 0;
    while i < len
        invariant
            len == s@.len(),
            i <= len,
            out@ == old(out)@ + escape_str(s@.take(i as int)),
        decreases len - i,
    {
        let piece: &str = s.substring_char(i, i + 1);
        let c: char = s.get_char(i);
        proof {
            assert(piece@ =~= seq![c]);
        }
        append_escaped_char(out, piece, c);
        proof {
            assert(s@.take(i + 1 as int).drop_last() =~= s@.take(i as int));
            assert(s@.take(i + 1 as int).last() == s@[i as int]);
        }
        i = i + 1;
    }
    proof {
        assert(s@.take(len as int) =~= s@);
    }
}

/// Appends `s` as a TOML basic string, quotes and all.
pub fn append_quoted(out: &mut String, s: &str)
    ensures
        final (out)@ == old(out)@ + quoted(s@),
{
    out.append("\"");
    append_escaped(out, s);
    out.append("\"");
    proof {
        reveal_strlit("\"");
        assert(final (out)@ =~= old(out)@ + quoted(s@));
    }
}

} // verus!
