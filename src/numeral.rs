use vstd::prelude::*;
use vstd::string::StrSliceExecFns;

verus! {

pub open spec fn is_digit(c: char) -> bool {
    '0' <= c && c <= '9'
}

/// How many `.` characters the text holds.
pub open spec fn dot_count(s: Seq<char>) -> nat
    decreases s.len(),
{
    if s.len() == 0 {
        0
    } else {
        dot_count(s.drop_last()) + if s.last() == '.' { 1nat } else { 0nat }
    }
}

/// 1 when the text starts with a minus sign, else 0.
pub open spec fn sign_len(s: Seq<char>) -> int {
    if s.len() > 0 && s[0] == '-' { 1 } else { 0 }
}

/// A decimal numeral: an optional `-`, digits, and at most one `.` that has
/// digits on both sides, such as `-1.5000000000000000` or `42`.
pub open spec fn is_decimal_numeral(s: Seq<char>) -> bool {
    let b = sign_len(s);
    &&& b < s.len()
    &&& is_digit(s[b])
    &&& is_digit(s.last())
    &&& forall|i: int| b <= i < s.len() ==> is_digit(#[trigger] s[i]) || s[i] == '.'
    &&& dot_count(s) <= 1
}

/// Every text of the sequence is a decimal numeral.
pub open spec fn all_numerals(cells: Seq<Seq<char>>) -> bool {
    forall|i: int| 0 <= i < cells.len() ==> is_decimal_numeral(#[trigger] cells[i])
}

/// Whether `s` is a decimal numeral.
pub fn decimal_numeral(s: &str) -> (r: bool)
    ensures
        r == is_decimal_numeral(s@),
{
    let n = s.unicode_len();
    if n == 0 {
        return false;
    }
    let b: usize = if s.get_char(0) == '-' { 1 } else { 0 };
    if b >= n || !('0' <= s.get_char(b) && s.get_char(b) <= '9') || !('0' <= s.get_char(n - 1)
        && s.get_char(n - 1) <= '9') {
        return false;
    }
    let mut dots: usize = 0;
    let mut i: usize = 0;
    while i < n
        invariant
            n == s@.len(),
            b == sign_len(s@),
            b < n,
            0 <= i <= n,
            dots == dot_count(s@.take(i as int)),
            dots <= 1,
            forall|k: int| b <= k < i ==> is_digit(#[trigger] s@[k]) || s@[k] == '.',
        decreases n - i,
    {
        proof {
            assert(s@.take(i + 1).drop_last() =~= s@.take(i as int));
        }
        let c = s.get_char(i);
        if c == '.' {
            if dots == 1 {
                proof {
                    lemma_dot_count_prefix(s@, i + 1);
                }
                return false;
            }
            dots = dots + 1;
        } else if i >= b && !('0' <= c && c <= '9') {
            return false;
        }
        i = i + 1;
    }
    assert(s@.take(n as int) =~= s@);
    dots <= 1
}

/// A prefix never holds more dots than the whole text.
proof fn lemma_dot_count_prefix(s: Seq<char>, k: int)
    requires
        0 <= k <= s.len(),
    ensures
        dot_count(s.take(k)) <= dot_count(s),
    decreases s.len() - k,
{
    if k < s.len() {
        assert(s.take(k + 1).drop_last() =~= s.take(k));
        lemma_dot_count_prefix(s, k + 1);
    } else {
        assert(s.take(k) =~= s);
    }
}

/// Whether every cell is a decimal numeral.
pub fn numerals_only(cells: &Vec<String>) -> (r: bool)
    ensures
        r == all_numerals(cells.deep_view()),
{
    let mut i: usize = 0;
    while i < cells.len()
        invariant
            0 <= i <= cells.len(),
            forall|k: int| 0 <= k < i ==> is_decimal_numeral(#[trigger] cells.deep_view()[k]),
        decreases cells.len() - i,
    {
        if !decimal_numeral(cells[i].as_str()) {
            assert(!is_decimal_numeral(cells.deep_view()[i as int]));
            return false;
        }
        i = i + 1;
    }
    true
}

} // verus!
