//! Helpers on strings, stated over their character sequences.

use vstd::prelude::*;
use vstd::string::*;

verus! {

/// Whether two string slices hold the same characters.
pub fn same_text(a: &str, b: &str) -> (r: bool)
    ensures
        r == (a@ == b@),
{
    let x = a.to_owned();
    let y = b.to_owned();
    x == y
}

/// The characters with the Unicode property `White_Space`.
pub open spec fn is_blank(c: char) -> bool {
    ||| ('\u{9}' <= c && c <= '\u{d}')
    ||| c == ' '
    ||| c == '\u{85}'
    ||| c == '\u{a0}'
    ||| c == '\u{1680}'
    ||| ('\u{2000}' <= c && c <= '\u{200a}')
    ||| c == '\u{2028}'
    ||| c == '\u{2029}'
    ||| c == '\u{202f}'
    ||| c == '\u{205f}'
    ||| c == '\u{3000}'
}

/// How many blanks `s` begins with.
pub open spec fn leading_blanks(s: Seq<char>) -> nat
    decreases s.len(),
{
    if s.len() > 0 && is_blank(s[0]) {
        1 + leading_blanks(s.drop_first())
    } else {
        0
    }
}

/// How many blanks `s` ends with.
pub open spec fn trailing_blanks(s: Seq<char>) -> nat
    decreases s.len(),
{
    if s.len() > 0 && is_blank(s.last()) {
        1 + trailing_blanks(s.drop_last())
    } else {
        0
    }
}

/// `s` without the blanks it begins and ends with.
pub open spec fn trimmed(s: Seq<char>) -> Seq<char> {
    let rest = s.skip(leading_blanks(s) as int);
    rest.take(rest.len() - trailing_blanks(rest))
}

/// `leading_blanks` is the position of the first character that is no blank.
pub proof fn lemma_leading_blanks(s: Seq<char>, n: int)
    requires
        0 <= n <= s.len(),
        forall|i: int| 0 <= i < n ==> is_blank(#[trigger] s[i]),
        n < s.len() ==> !is_blank(s[n]),
    ensures
        leading_blanks(s) == n,
    decreases s.len(),
{
    if n > 0 {
        let rest = s.drop_first();
        assert forall|i: int| 0 <= i < n - 1 implies is_blank(#[trigger] rest[i]) by {
            assert(rest[i] == s[i + 1]);
        }
        lemma_leading_blanks(rest, n - 1);
    }
}

/// `trailing_blanks` counts back to the last character that is no blank.
pub proof fn lemma_trailing_blanks(s: Seq<char>, n: int)
    requires
        0 <= n <= s.len(),
        forall|i: int| s.len() - n <= i < s.len() ==> is_blank(#[trigger] s[i]),
        n < s.len() ==> !is_blank(s[s.len() - n - 1]),
    ensures
        trailing_blanks(s) == n,
    decreases s.len(),
{
    if n > 0 {
        let rest = s.drop_last();
        assert forall|i: int| rest.len() - (n - 1) <= i < rest.len() implies is_blank(
            #[trigger] rest[i],
        ) by {
            assert(rest[i] == s[i]);
        }
        lemma_trailing_blanks(rest, n - 1);
    }
}

/// Whether `c` is a blank.
pub fn blank(c: char) -> (r: bool)
    ensures
        r == is_blank(c),
{
    ('\u{9}' <= c && c <= '\u{d}') || c == ' ' || c == '\u{85}' || c == '\u{a0}' || c
        == '\u{1680}' || ('\u{2000}' <= c && c <= '\u{200a}') || c == '\u{2028}' || c
        == '\u{2029}' || c == '\u{202f}' || c == '\u{205f}' || c == '\u{3000}'
}

/// `s` without the blanks it begins and ends with.
pub fn trim(s: &str) -> (r: String)
    ensures
        r@ == trimmed(s@),
{
    let n = s.unicode_len();
    let mut from: usize = 0;
    while from < n && blank(s.get_char(from))
        invariant
            from <= n,
            n == s@.len(),
            forall|i: int| 0 <= i < from ==> is_blank(#[trigger] s@[i]),
        decreases n - from,
    {
        from += 1;
    }
    let mut to: usize = n;
    while to > from && blank(s.get_char(to - 1))
        invariant
            from <= to <= n,
            n == s@.len(),
            forall|i: int| to <= i < n ==> is_blank(#[trigger] s@[i]),
        decreases to,
    {
        to -= 1;
    }
    proof {
        lemma_leading_blanks(s@, from as int);
        let rest = s@.skip(from as int);
        assert forall|i: int| rest.len() - (n - to) <= i < rest.len() implies is_blank(
            #[trigger] rest[i],
        ) by {
            assert(rest[i] == s@[i + from]);
        }
        lemma_trailing_blanks(rest, n - to);
        assert(rest.take(rest.len() - (n - to)) =~= s@.subrange(from as int, to as int));
    }
    s.substring_char(from, to).to_owned()
}

/// The character sequences of a sequence of strings.
pub open spec fn texts(v: Seq<String>) -> Seq<Seq<char>> {
    Seq::new(v.len(), |i: int| v[i]@)
}

/// The character that writes the digit `d`.
pub open spec fn digit(d: nat) -> char {
    if d == 0 {
        '0'
    } else if d == 1 {
        '1'
    } else if d == 2 {
        '2'
    } else if d == 3 {
        '3'
    } else if d == 4 {
        '4'
    } else if d == 5 {
        '5'
    } else if d == 6 {
        '6'
    } else if d == 7 {
        '7'
    } else if d == 8 {
        '8'
    } else {
        '9'
    }
}

/// `n` written in decimal, without leading zeros.
pub open spec fn decimal(n: nat) -> Seq<char>
    decreases n,
{
    if n < 10 {
        seq![digit(n)]
    } else {
        decimal(n / 10).push(digit(n % 10))
    }
}

/// `n` written in decimal, with a minus sign where it is negative.
pub open spec fn signed_decimal(n: int) -> Seq<char> {
    if n < 0 {
        seq!['-'] + decimal((-n) as nat)
    } else {
        decimal(n as nat)
    }
}

/// The digit `d` as text.
fn digit_text(d: u64) -> (r: &'static str)
    requires
        d < 10,
    ensures
        r@ == seq![digit(d as nat)],
{
    proof {
        reveal_strlit("0");
        reveal_strlit("1");
        reveal_strlit("2");
        reveal_strlit("3");
        reveal_strlit("4");
        reveal_strlit("5");
        reveal_strlit("6");
        reveal_strlit("7");
        reveal_strlit("8");
        reveal_strlit("9");
    }
    let r = if d == 0 {
        "0"
    } else if d == 1 {
        "1"
    } else if d == 2 {
        "2"
    } else if d == 3 {
        "3"
    } else if d == 4 {
        "4"
    } else if d == 5 {
        "5"
    } else if d == 6 {
        "6"
    } else if d == 7 {
        "7"
    } else if d == 8 {
        "8"
    } else {
        "9"
    };
    assert(r@ =~= seq![digit(d as nat)]);
    r
}

/// `n` written in decimal.
pub fn decimal_text(n: u64) -> (r: String)
    ensures
        r@ == decimal(n as nat),
    decreases n,
{
    if n < 10 {
        digit_text(n).to_owned()
    } else {
        let mut s = decimal_text(n / 10);
        s.append(digit_text(n % 10));
        assert(s@ =~= decimal(n as nat));
        s
    }
}

/// `n` written in decimal, with a minus sign where it is negative.
pub fn int_text(n: i64) -> (r: String)
    ensures
        r@ == signed_decimal(n as int),
{
    if n < 0 {
        proof {
            reveal_strlit("-");
        }
        let mut s = "-".to_owned();
        let m: u64 = (0 - (n as i128)) as u64;
        s.append(decimal_text(m).as_str());
        assert(s@ =~= signed_decimal(n as int));
        s
    } else {
        decimal_text(n as u64)
    }
}

} // verus!
