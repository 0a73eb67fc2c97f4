//! Player decisions and the line grammar that produces them.
//!
//! A decision arrives as one raw text line. The grammar is small: a line
//! beginning with a run of digits is a quantity (the run is maximal and
//! the rest of the line is ignored; a value past `i32::MAX` fails),
//! `buy`/`sell` (case-insensitive, then optional blanks) followed by a
//! digit run is a trade, and a line ending (`\n` or `\r\n`) by itself is
//! the default. Anything else fails to parse and the caller re-prompts.

use vstd::prelude::*;

verus! {

/// A parsed quantity line: either a non-negative number or an empty line,
/// which stands for "use the suggested default".
#[derive(Clone, Copy, Debug, PartialEq, Eq, Structural)]
pub enum WholeNumber {
    Number(i32),
    UseDefault,
}

/// A parsed trade line: buy or sell so many acres, or an empty line for
/// "no trade".
#[derive(Clone, Copy, Debug, PartialEq, Eq, Structural)]
pub enum BuySell {
    Buy(i32),
    Sell(i32),
    UseDefault,
}

/// An ASCII decimal digit.
pub open spec fn is_digit_char(c: char) -> bool {
    48 <= c as int <= 57
}

/// The numeric value of one digit character.
pub open spec fn digit_val(c: char) -> int {
    c as int - 48
}

/// The length of the maximal digit run at the head of `s`.
pub open spec fn digit_run_len(s: Seq<char>) -> nat
    decreases s.len(),
{
    if s.len() == 0 || !is_digit_char(s[0]) {
        0
    } else {
        (1 + digit_run_len(s.skip(1))) as nat
    }
}

/// The value of a sequence of digit characters, most significant first.
pub open spec fn digits_value(s: Seq<char>) -> int
    decreases s.len(),
{
    if s.len() == 0 {
        0
    } else {
        digits_value(s.drop_last()) * 10 + digit_val(s.last())
    }
}

/// A space or a tab, the blanks allowed between a trade word and its
/// quantity.
pub open spec fn is_space_char(c: char) -> bool {
    c == ' ' || c == '\t'
}

/// The length of the maximal blank run at the head of `s`.
pub open spec fn space_run_len(s: Seq<char>) -> nat
    decreases s.len(),
{
    if s.len() == 0 || !is_space_char(s[0]) {
        0
    } else {
        (1 + space_run_len(s.skip(1))) as nat
    }
}

/// `s` with its leading blanks removed.
pub open spec fn skip_spaces(s: Seq<char>) -> Seq<char> {
    s.skip(space_run_len(s) as int)
}

/// `s` begins with a line ending: a bare newline or a carriage return
/// followed by one.
pub open spec fn starts_with_line_ending(s: Seq<char>) -> bool {
    (s.len() >= 1 && s[0] == '\n') || (s.len() >= 2 && s[0] == '\r' && s[1] == '\n')
}

/// The maximal digit run at the head of `s` is exactly the first `k`
/// characters.
proof fn lemma_digit_run_len_is(s: Seq<char>, k: int)
    requires
        0 <= k <= s.len(),
        forall|j: int| 0 <= j < k ==> is_digit_char(s[j]),
        k == s.len() || !is_digit_char(s[k]),
    ensures
        digit_run_len(s) == k,
    decreases k,
{
    if k == 0 {
    } else {
        assert(is_digit_char(s[0]));
        assert forall|j: int| 0 <= j < k - 1 implies is_digit_char(s.skip(1)[j]) by {
            assert(s.skip(1)[j] == s[j + 1]);
        }
        if k < s.len() {
            assert(s.skip(1)[k - 1] == s[k]);
        }
        lemma_digit_run_len_is(s.skip(1), k - 1);
    }
}

/// The maximal blank run at the head of `s` is exactly the first `k`
/// characters.
proof fn lemma_space_run_len_is(s: Seq<char>, k: int)
    requires
        0 <= k <= s.len(),
        forall|j: int| 0 <= j < k ==> is_space_char(s[j]),
        k == s.len() || !is_space_char(s[k]),
    ensures
        space_run_len(s) == k,
    decreases k,
{
    if k == 0 {
    } else {
        assert(is_space_char(s[0]));
        assert forall|j: int| 0 <= j < k - 1 implies is_space_char(s.skip(1)[j]) by {
            assert(s.skip(1)[j] == s[j + 1]);
        }
        if k < s.len() {
            assert(s.skip(1)[k - 1] == s[k]);
        }
        lemma_space_run_len_is(s.skip(1), k - 1);
    }
}

/// The digit run at the head of `s`, read as an `i32`: `None` when the
/// run is empty or its value exceeds `i32::MAX`.
pub open spec fn spec_parse_i32(s: Seq<char>) -> Option<i32> {
    let k = digit_run_len(s) as int;
    if k == 0 {
        None
    } else {
        let v = digits_value(s.take(k));
        if v <= i32::MAX {
            Some(v as i32)
        } else {
            None
        }
    }
}

/// Parse the maximal digit run of `s` that begins at `start`.
fn parse_i32_at(s: &str, start: usize) -> (r: Option<i32>)
    requires
        start <= s@.len(),
    ensures
        r == spec_parse_i32(s@.skip(start as int)),
{
    let ghost t = s@.skip(start as int);
    let n = s.unicode_len();
    let mut i = start;
    let mut acc: i64 = 0;
    let mut over = false;
    loop
        invariant
            start <= i <= n,
            n == s@.len(),
            t == s@.skip(start as int),
            forall|j: int| start <= j < i ==> is_digit_char(s@[j]),
            !over ==> 0 <= acc <= i32::MAX && acc == digits_value(t.take(i - start)),
            over ==> digits_value(t.take(i - start)) > i32::MAX,
        ensures
            start <= i <= n,
            forall|j: int| start <= j < i ==> is_digit_char(s@[j]),
            i == n || !is_digit_char(s@[i as int]),
            !over ==> 0 <= acc <= i32::MAX && acc == digits_value(t.take(i - start)),
            over ==> digits_value(t.take(i - start)) > i32::MAX,
        decreases n - i,
    {
        if i >= n {
            break;
        }
        let c = s.get_char(i);
        let u = c as u32;
        if u < 48 || u > 57 {
            break;
        }
        proof {
            assert(t[i - start] == s@[i as int]);
            assert(t.take(i - start + 1).drop_last() =~= t.take(i - start));
            assert(t.take(i - start + 1).last() == t[i - start]);
        }
        let d = (u - 48) as i64;
        if !over {
            let next = acc * 10 + d;
            if next > 2147483647 {
                over = true;
                proof {
                    assert(digits_value(t.take(i - start + 1)) == acc * 10 + d);
                }
            } else {
                acc = next;
            }
        }
        i += 1;
    }
    proof {
        assert forall|j: int| 0 <= j < i - start implies is_digit_char(t[j]) by {
            assert(t[j] == s@[j + start]);
        }
        if i < n {
            assert(t[i - start] == s@[i as int]);
        }
        lemma_digit_run_len_is(t, i - start);
    }
    if i == start {
        None
    } else if over {
        None
    } else {
        Some(acc as i32)
    }
}

/// The index just past the blanks of `s` that begin at `start`.
fn skip_spaces_from(s: &str, start: usize) -> (r: usize)
    requires
        start <= s@.len(),
    ensures
        start <= r <= s@.len(),
        r - start == space_run_len(s@.skip(start as int)),
{
    let ghost t = s@.skip(start as int);
    let n = s.unicode_len();
    let mut i = start;
    loop
        invariant
            start <= i <= n,
            n == s@.len(),
            t == s@.skip(start as int),
            forall|j: int| start <= j < i ==> is_space_char(s@[j]),
        ensures
            start <= i <= n,
            forall|j: int| start <= j < i ==> is_space_char(s@[j]),
            i == n || !is_space_char(s@[i as int]),
        decreases n - i,
    {
        if i >= n {
            break;
        }
        let c = s.get_char(i);
        let u = c as u32;
        if u != 32 && u != 9 {
            break;
        }
        i += 1;
    }
    proof {
        assert forall|j: int| 0 <= j < i - start implies is_space_char(t[j]) by {
            assert(t[j] == s@[j + start]);
        }
        if i < n {
            assert(t[i - start] == s@[i as int]);
        }
        lemma_space_run_len_is(t, i - start);
    }
    i
}

/// The digit run at the head of `input` as an `i32`, if there is one and
/// it fits.
pub fn parse_positive_i32_maybe(input: &str) -> (r: Option<i32>)
    ensures
        r == spec_parse_i32(input@),
{
    proof {
        assert(input@.skip(0) =~= input@);
    }
    parse_i32_at(input, 0)
}

/// What a quantity line parses to: a leading digit run is a number (or a
/// failure, when its value does not fit an `i32`); otherwise a leading
/// line ending is the default; otherwise nothing.
pub open spec fn spec_parse_whole_number(s: Seq<char>) -> Option<WholeNumber> {
    if digit_run_len(s) > 0 {
        match spec_parse_i32(s) {
            Some(v) => Some(WholeNumber::Number(v)),
            None => None,
        }
    } else if starts_with_line_ending(s) {
        Some(WholeNumber::UseDefault)
    } else {
        None
    }
}

impl WholeNumber {
    /// Parse one quantity line.
    pub fn parse_maybe(input: &str) -> (r: Option<WholeNumber>)
        ensures
            r == spec_parse_whole_number(input@),
    {
        let n = input.unicode_len();
        if n == 0 {
            return None;
        }
        let c0 = input.get_char(0);
        let u0 = c0 as u32;
        if 48 <= u0 && u0 <= 57 {
            proof {
                assert(input@.skip(0) =~= input@);
            }
            match parse_i32_at(input, 0) {
                Some(v) => Some(WholeNumber::Number(v)),
                None => None,
            }
        } else if u0 == 10 {
            Some(WholeNumber::UseDefault)
        } else if u0 == 13 && n >= 2 {
            let c1 = input.get_char(1);
            if c1 as u32 == 10 {
                Some(WholeNumber::UseDefault)
            } else {
                None
            }
        } else {
            None
        }
    }
}

/// `s` begins with `buy`, in any letter case.
pub open spec fn starts_with_buy(s: Seq<char>) -> bool {
    s.len() >= 3 && (s[0] == 'b' || s[0] == 'B') && (s[1] == 'u' || s[1] == 'U') && (s[2] == 'y'
        || s[2] == 'Y')
}

/// `s` begins with `sell`, in any letter case.
pub open spec fn starts_with_sell(s: Seq<char>) -> bool {
    s.len() >= 4 && (s[0] == 's' || s[0] == 'S') && (s[1] == 'e' || s[1] == 'E') && (s[2] == 'l'
        || s[2] == 'L') && (s[3] == 'l' || s[3] == 'L')
}

/// What a trade line parses to: a `buy` or `sell` word, optional blanks
/// and a digit run (tried in that order); otherwise a leading line ending
/// is "no trade"; otherwise nothing.
pub open spec fn spec_parse_buysell(s: Seq<char>) -> Option<BuySell> {
    if starts_with_buy(s) {
        match spec_parse_i32(skip_spaces(s.skip(3))) {
            Some(v) => Some(BuySell::Buy(v)),
            None => None,
        }
    } else if starts_with_sell(s) {
        match spec_parse_i32(skip_spaces(s.skip(4))) {
            Some(v) => Some(BuySell::Sell(v)),
            None => None,
        }
    } else if starts_with_line_ending(s) {
        Some(BuySell::UseDefault)
    } else {
        None
    }
}

impl BuySell {
    /// Parse one trade line.
    pub fn parse_maybe(input: &str) -> (r: Option<BuySell>)
        ensures
            r == spec_parse_buysell(input@),
    {
        let n = input.unicode_len();
        if Self::has_buy_at(input, n) {
            let j = skip_spaces_from(input, 3);
            proof {
                assert(input@.skip(3).skip(j - 3) =~= input@.skip(j as int));
                assert(skip_spaces(input@.skip(3)) == input@.skip(j as int));
            }
            match parse_i32_at(input, j) {
                Some(v) => Some(BuySell::Buy(v)),
                None => None,
            }
        } else if Self::has_sell_at(input, n) {
            let j = skip_spaces_from(input, 4);
            proof {
                assert(input@.skip(4).skip(j - 4) =~= input@.skip(j as int));
                assert(skip_spaces(input@.skip(4)) == input@.skip(j as int));
            }
            match parse_i32_at(input, j) {
                Some(v) => Some(BuySell::Sell(v)),
                None => None,
            }
        } else if n >= 1 {
            let c0 = input.get_char(0);
            let u0 = c0 as u32;
            if u0 == 10 {
                Some(BuySell::UseDefault)
            } else if u0 == 13 && n >= 2 {
                let c1 = input.get_char(1);
                if c1 as u32 == 10 {
                    Some(BuySell::UseDefault)
                } else {
                    None
                }
            } else {
                None
            }
        } else {
            None
        }
    }

    /// Does `input` begin with the word `buy`, in any letter case?
    fn has_buy_at(input: &str, n: usize) -> (r: bool)
        requires
            n == input@.len(),
        ensures
            r == starts_with_buy(input@),
    {
        if n < 3 {
            return false;
        }
        let c0 = input.get_char(0);
        let c1 = input.get_char(1);
        let c2 = input.get_char(2);
        (c0 == 'b' || c0 == 'B') && (c1 == 'u' || c1 == 'U') && (c2 == 'y' || c2 == 'Y')
    }

    /// Does `input` begin with the word `sell`, in any letter case?
    fn has_sell_at(input: &str, n: usize) -> (r: bool)
        requires
            n == input@.len(),
        ensures
            r == starts_with_sell(input@),
    {
        if n < 4 {
            return false;
        }
        let c0 = input.get_char(0);
        let c1 = input.get_char(1);
        let c2 = input.get_char(2);
        let c3 = input.get_char(3);
        (c0 == 's' || c0 == 'S') && (c1 == 'e' || c1 == 'E') && (c2 == 'l' || c2 == 'L') && (c3
            == 'l' || c3 == 'L')
    }
}

/// Law: an empty line — one that is just a line ending — parses to the
/// default decision under both grammars, whichever prompt issued it.
pub proof fn lemma_default_line_parses_default(s: Seq<char>)
    requires
        starts_with_line_ending(s),
    ensures
        spec_parse_whole_number(s) == Some(WholeNumber::UseDefault),
        spec_parse_buysell(s) == Some(BuySell::UseDefault),
{
    assert(!is_digit_char(s[0]));
    assert(digit_run_len(s) == 0);
    assert(!starts_with_buy(s));
    assert(!starts_with_sell(s));
}

} // verus!
