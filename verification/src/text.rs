//! Whitespace and trimming, as the answers of a user are read.

use vstd::prelude::*;
use vstd::string::{StrSliceExecFns, StringExecFns};

verus! {

/// The characters with the Unicode property `White_Space`.
pub open spec fn is_whitespace(c: char) -> bool {
    let n = c as u32;
    0x09 <= n <= 0x0D || n == 0x20 || n == 0x85 || n == 0xA0 || n == 0x1680 || 0x2000 <= n
        <= 0x200A || n == 0x2028 || n == 0x2029 || n == 0x202F || n == 0x205F || n == 0x3000
}

/// How many whitespace characters a text begins with.
pub open spec fn leading_whitespace(text: Seq<char>) -> nat
    decreases text.len(),
{
    if text.len() > 0 && is_whitespace(text[0]) {
        1 + leading_whitespace(text.drop_first())
    } else {
        0
    }
}

/// A text without the whitespace at its end.
pub open spec fn trim_end(text: Seq<char>) -> Seq<char>
    decreases text.len(),
{
    if text.len() > 0 && is_whitespace(text.last()) {
        trim_end(text.drop_last())
    } else {
        text
    }
}

/// A text without the whitespace at its start.
pub open spec fn trim_start(text: Seq<char>) -> Seq<char> {
    text.skip(leading_whitespace(text) as int)
}

/// A text without the whitespace at its start and at its end.
pub open spec fn trimmed(text: Seq<char>) -> Seq<char> {
    trim_end(trim_start(text))
}

/// Whether a character is whitespace.
pub fn is_space(c: char) -> (space: bool)
    ensures
        space == is_whitespace(c),
{
    let n: u32 = c as u32;
    (0x09 <= n && n <= 0x0D) || n == 0x20 || n == 0x85 || n == 0xA0 || n == 0x1680 || (0x2000 <= n
        && n <= 0x200A) || n == 0x2028 || n == 0x2029 || n == 0x202F || n == 0x205F || n == 0x3000
}

proof fn lemma_leading_whitespace(text: Seq<char>, start: int)
    requires
        0 <= start <= text.len(),
        forall|k: int| 0 <= k < start ==> is_whitespace(text[k]),
        start < text.len() ==> !is_whitespace(text[start]),
    ensures
        leading_whitespace(text) == start,
    decreases start,
{
    if start > 0 {
        let rest = text.drop_first();
        assert forall|k: int| 0 <= k < start - 1 implies is_whitespace(rest[k]) by {
            assert(rest[k] == text[k + 1]);
        }
        if start - 1 < rest.len() {
            assert(rest[start - 1] == text[start]);
        }
        lemma_leading_whitespace(rest, start - 1);
    }
}

proof fn lemma_trim_end(text: Seq<char>, end: int)
    requires
        0 <= end <= text.len(),
        forall|k: int| end <= k < text.len() ==> is_whitespace(text[k]),
        end > 0 ==> !is_whitespace(text[end - 1]),
    ensures
        trim_end(text) == text.take(end),
    decreases text.len() - end,
{
    if end < text.len() {
        let shorter = text.drop_last();
        assert forall|k: int| end <= k < shorter.len() implies is_whitespace(shorter[k]) by {
            assert(shorter[k] == text[k]);
        }
        if end > 0 {
            assert(shorter[end - 1] == text[end - 1]);
        }
        lemma_trim_end(shorter, end);
        assert(shorter.take(end) =~= text.take(end));
    } else {
        assert(text.take(end) =~= text);
    }
}

/// The part of a text between its leading and its trailing whitespace.
pub fn trim(text: &str) -> (inner: &str)
    ensures
        inner@ == trimmed(text@),
{
    let length = text.unicode_len();
    let mut start: usize = 0;
    let mut end: usize = 0;
    let mut index: usize = 0;
    for c in it: text.chars()
        invariant
            length == text@.len(),
            it.seq() == text@,
            index == it.index(),
            index <= length,
            start <= index,
            end <= index,
            forall|k: int| 0 <= k < start ==> is_whitespace(text@[k]),
            forall|k: int| end <= k < index ==> is_whitespace(text@[k]),
            end == 0 ==> start == index,
            end > 0 ==> start < end && !is_whitespace(text@[start as int]) && !is_whitespace(
                text@[end - 1],
            ),
    {
        if is_space(c) {
            if end == 0 {
                start = index + 1;
            }
        } else {
            end = index + 1;
        }
        index = index + 1;
    }
    if end == 0 {
        start = length;
        end = length;
    }
    proof {
        let s = text@;
        lemma_leading_whitespace(s, start as int);
        let rest = s.skip(start as int);
        assert forall|k: int| end - start <= k < rest.len() implies is_whitespace(rest[k]) by {
            assert(rest[k] == s[k + start]);
        }
        if end - start > 0 {
            assert(rest[end - start - 1] == s[end - 1]);
        }
        lemma_trim_end(rest, end - start);
        assert(rest.take(end - start) =~= s.subrange(start as int, end as int));
    }
    text.substring_char(start, end)
}

/// The numeral of a digit; empty for anything above nine.
pub open spec fn digit_text(digit: nat) -> Seq<char> {
    if digit == 0 {
        "0"@
    } else if digit == 1 {
        "1"@
    } else if digit == 2 {
        "2"@
    } else if digit == 3 {
        "3"@
    } else if digit == 4 {
        "4"@
    } else if digit == 5 {
        "5"@
    } else if digit == 6 {
        "6"@
    } else if digit == 7 {
        "7"@
    } else if digit == 8 {
        "8"@
    } else if digit == 9 {
        "9"@
    } else {
        Seq::empty()
    }
}

/// A number in decimal, without leading zeros.
pub open spec fn decimal_text(n: nat) -> Seq<char>
    decreases n,
{
    if n < 10 {
        digit_text(n)
    } else {
        decimal_text(n / 10) + digit_text(n % 10)
    }
}

fn digit(d: usize) -> (text: &'static str)
    requires
        d < 10,
    ensures
        text@ == digit_text(d as nat),
{
    if d == 0 {
        "0"
    } else if d == 1 {
        "1"
    } else if d == 2 {
        "2"
    } else if d == 3 {
        "3"
    } else if d == 4 {
        "4"
    } else if d == 5 {
        "5"
    } else if d == 6 {
        "6"
    } else if d == 7 {
        "7"
    } else if d == 8 {
        "8"
    } else {
        "9"
    }
}

/// Writes a number in decimal.
pub fn decimal(n: usize) -> (text: String)
    ensures
        text@ == decimal_text(n as nat),
    decreases n,
{
    if n < 10 {
        digit(n).to_owned()
    } else {
        decimal(n / 10).concat(digit(n % 10))
    }
}

} // verus!
