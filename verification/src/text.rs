//! Text rendering of the numeric values that appear in table cells: decimal
//! integers, signed percent figures, and ASCII upper-casing for headers.

use vstd::prelude::*;
use vstd::string::StringExecFns;

verus! {

/// The character for one decimal digit.
pub open spec fn digit_char(d: int) -> char {
    if d == 0 {
        '0'
    } else if d == 1 {
        '1'
    } else if d == 2 {
        '2'
    } else if d == 3 {
        '3'
    } else if d == 4 {
        '4'
    } else if d == 5 {
        '5'
    } else if d == 6 {
        '6'
    } else if d == 7 {
        '7'
    } else if d == 8 {
        '8'
    } else {
        '9'
    }
}

/// The decimal digit sequence of a nonnegative integer, most significant
/// digit first, with no leading zeros (a single '0' for zero).
pub open spec fn dec_seq(n: int) -> Seq<char>
    decreases n,
{
    if n <= 9 {
        seq![digit_char(n)]
    } else {
        dec_seq(n / 10) + seq![digit_char(n % 10)]
    }
}

/// The display form of a signed percent value given in tenths of a percent:
/// a sign ('+' for positive, '-' for negative, absent for zero), the whole
/// percent digits, '.', the tenths digit, and a trailing '%'.
pub open spec fn percent_seq(v: int) -> Seq<char> {
    let a = if v < 0 {
        -v
    } else {
        v
    };
    let sign = if v > 0 {
        seq!['+']
    } else if v < 0 {
        seq!['-']
    } else {
        Seq::<char>::empty()
    };
    sign + dec_seq(a / 10) + seq!['.'] + seq![digit_char(a % 10)] + seq!['%']
}

/// The ASCII upper-case form of one character: 'a' through 'z' map to
/// 'A' through 'Z'; every other character is unchanged.
pub open spec fn upper_char(c: char) -> char {
    if 'a' <= c && c <= 'z' {
        ((c as u8) - 32) as char
    } else {
        c
    }
}

/// The ASCII upper-case form of a character sequence.
pub open spec fn upper_seq(s: Seq<char>) -> Seq<char> {
    s.map_values(|c: char| upper_char(c))
}

/// Relies on str::to_ascii_uppercase: ASCII letters 'a' through 'z' are
/// mapped to 'A' through 'Z'; all other characters are left unchanged.
/// The ASCII mapping is the library's header rule: it is pinned here
/// character by character, where a full Unicode case map could only be
/// named, not stated.
#[verifier::external_body]
pub fn ascii_upper(s: &str) -> (r: String)
    ensures
        r@ == upper_seq(s@),
{
    s.to_ascii_uppercase()
}

/// Whether a character sequence holds no line break.
pub open spec fn line_break_free(s: Seq<char>) -> bool {
    forall|i: int| 0 <= i < s.len() ==> #[trigger] s[i] != '\n' && s[i] != '\r'
}

/// A decimal digit sequence holds only digit characters, so no line break.
pub proof fn lemma_dec_seq_line_break_free(n: int)
    ensures
        line_break_free(dec_seq(n)),
    decreases n,
{
    if n <= 9 {
        assert(line_break_free(dec_seq(n)));
    } else {
        lemma_dec_seq_line_break_free(n / 10);
        assert forall|i: int| 0 <= i < dec_seq(n).len() implies #[trigger] dec_seq(n)[i] != '\n'
            && dec_seq(n)[i] != '\r' by {
            if i < dec_seq(n / 10).len() {
                assert(dec_seq(n)[i] == dec_seq(n / 10)[i]);
            }
        }
    }
}

/// A percent display sequence holds only a sign, digits, a point and a
/// percent sign, so no line break.
pub proof fn lemma_percent_seq_line_break_free(v: int)
    ensures
        line_break_free(percent_seq(v)),
{
    let a = if v < 0 {
        -v
    } else {
        v
    };
    lemma_dec_seq_line_break_free(a / 10);
    assert forall|i: int| 0 <= i < percent_seq(v).len() implies #[trigger] percent_seq(v)[i]
        != '\n' && percent_seq(v)[i] != '\r' by {
        let sign = if v > 0 {
            seq!['+']
        } else if v < 0 {
            seq!['-']
        } else {
            Seq::<char>::empty()
        };
        let d = dec_seq(a / 10);
        if sign.len() <= i < sign.len() + d.len() {
            assert(percent_seq(v)[i] == d[i - sign.len()]);
        }
    }
}

/// Concatenation keeps freedom from line breaks.
pub proof fn lemma_line_break_free_concat(a: Seq<char>, b: Seq<char>)
    requires
        line_break_free(a),
        line_break_free(b),
    ensures
        line_break_free(a + b),
{
    assert forall|i: int| 0 <= i < (a + b).len() implies #[trigger] (a + b)[i] != '\n' && (a
        + b)[i] != '\r' by {
        if i < a.len() {
            assert((a + b)[i] == a[i]);
        } else {
            assert((a + b)[i] == b[i - a.len()]);
        }
    }
}

/// ASCII upper-casing keeps freedom from line breaks: a letter maps into
/// 'A' through 'Z' and every other character is unchanged.
pub proof fn lemma_upper_seq_line_break_free(s: Seq<char>)
    requires
        line_break_free(s),
    ensures
        line_break_free(upper_seq(s)),
{
    assert forall|i: int| 0 <= i < upper_seq(s).len() implies #[trigger] upper_seq(s)[i] != '\n'
        && upper_seq(s)[i] != '\r' by {
        let c = s[i];
        if 'a' <= c && c <= 'z' {
            assert(upper_char(c) as int == (c as u8) - 32);
            assert(upper_char(c) as int >= 65);
        } else {
            assert(upper_char(c) == c);
        }
    }
}

/// The string literal for one decimal digit.
fn digit_str(d: u128) -> (r: &'static str)
    requires
        d <= 9,
    ensures
        r@ == seq![digit_char(d as int)],
{
    proof {
        reveal_strlit("0");
        reveal_strlit("1");
        reveal_strlit("2");
        reveal_strlit("3");
        reveal_strlit("4");
        reveal_strlit("5");
        reveal_strlit("6");
        reveal_strlit("7");
        reveal_strlit("8");
        reveal_strlit("9");
    }
    let r = match d {
        0 => "0",
        1 => "1",
        2 => "2",
        3 => "3",
        4 => "4",
        5 => "5",
        6 => "6",
        7 => "7",
        8 => "8",
        _ => "9",
    };
    proof {
        assert(r@ =~= seq![digit_char(d as int)]);
    }
    r
}

/// The decimal string of a nonnegative integer.
pub fn dec_string(n: u128) -> (s: String)
    ensures
        s@ == dec_seq(n as int),
    decreases n,
{
    if n <= 9 {
        String::from_str(digit_str(n))
    } else {
        let mut s = dec_string(n / 10);
        s.append(digit_str(n % 10));
        s
    }
}

/// The display string of a signed percent value given in tenths of a percent.
pub fn percent_string(v: i64) -> (s: String)
    ensures
        s@ == percent_seq(v as int),
{
    let mut s = String::new();
    if v > 0 {
        s.append("+");
    } else if v < 0 {
        s.append("-");
    }
    let a: u64 = if v < 0 {
        (-(v as i128)) as u64
    } else {
        v as u64
    };
    let whole = dec_string((a / 10) as u128);
    s.append(whole.as_str());
    s.append(".");
    s.append(digit_str((a % 10) as u128));
    s.append("%");
    proof {
        reveal_strlit("+");
        reveal_strlit("-");
        reveal_strlit(".");
        reveal_strlit("%");
        assert(s@ =~= percent_seq(v as int));
    }
    s
}

} // verus!
