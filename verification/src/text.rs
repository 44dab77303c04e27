//! Character-level searching and decimal formatting, stated over `Seq<char>`.
//!
//! The searches behave as `str::find` and `str::rfind`; positions are
//! counted in characters rather than bytes, which cuts a text at the same
//! places.
use vstd::prelude::*;

verus! {

/// `needle` occurs in `s` starting at position `i`.
pub open spec fn occurs_at(s: Seq<char>, needle: Seq<char>, i: int) -> bool {
    &&& 0 <= i
    &&& i + needle.len() <= s.len()
    &&& s.subrange(i, i + needle.len()) =~= needle
}

/// `i` is the leftmost position at which `needle` occurs in `s`.
pub open spec fn is_first_occurrence(s: Seq<char>, needle: Seq<char>, i: int) -> bool {
    &&& occurs_at(s, needle, i)
    &&& forall|j: int| 0 <= j < i ==> !occurs_at(s, needle, j)
}

/// Leftmost position of `needle` in `s`, as `str::find` reports it.
#[verifier::opaque]
pub open spec fn find_seq(s: Seq<char>, needle: Seq<char>) -> Option<int> {
    if exists|i: int| is_first_occurrence(s, needle, i) {
        Some(choose|i: int| is_first_occurrence(s, needle, i))
    } else {
        None
    }
}

/// `needle` occurs somewhere in `s` (`str::contains`).
pub open spec fn contains_seq(s: Seq<char>, needle: Seq<char>) -> bool {
    exists|i: int| occurs_at(s, needle, i)
}

/// `i` is the rightmost position of the character `c` in `s`.
pub open spec fn is_last_char(s: Seq<char>, c: char, i: int) -> bool {
    &&& 0 <= i < s.len()
    &&& s[i] == c
    &&& forall|j: int| i < j < s.len() ==> s[j] != c
}

/// Rightmost position of `c` in `s`, as `str::rfind` reports it.
#[verifier::opaque]
pub open spec fn rfind_char(s: Seq<char>, c: char) -> Option<int> {
    if exists|i: int| is_last_char(s, c, i) {
        Some(choose|i: int| is_last_char(s, c, i))
    } else {
        None
    }
}

/// Every occurrence has a leftmost one, so `find_seq` is `None` exactly when
/// `needle` does not occur at all.
pub proof fn lemma_find_seq_none_iff(s: Seq<char>, needle: Seq<char>)
    ensures
        find_seq(s, needle) is None <==> !contains_seq(s, needle),
        find_seq(s, needle) matches Some(i) ==> is_first_occurrence(s, needle, i),
{
    reveal(find_seq);
    if contains_seq(s, needle) {
        let k = choose|k: int| occurs_at(s, needle, k);
        lemma_first_occurrence_exists(s, needle, k);
    }
}

proof fn lemma_first_occurrence_exists(s: Seq<char>, needle: Seq<char>, k: int)
    requires
        occurs_at(s, needle, k),
    ensures
        exists|i: int| is_first_occurrence(s, needle, i),
    decreases k,
{
    if forall|j: int| 0 <= j < k ==> !occurs_at(s, needle, j) {
        assert(is_first_occurrence(s, needle, k));
    } else {
        let j = choose|j: int| 0 <= j < k && occurs_at(s, needle, j);
        lemma_first_occurrence_exists(s, needle, j);
    }
}

/// A leftmost occurrence is the one `find_seq` reports.
pub proof fn lemma_find_seq_is(s: Seq<char>, needle: Seq<char>, i: int)
    requires
        is_first_occurrence(s, needle, i),
    ensures
        find_seq(s, needle) == Some(i),
{
    reveal(find_seq);
    let k = choose|k: int| is_first_occurrence(s, needle, k);
    assert(is_first_occurrence(s, needle, k));
    if k < i {
        assert(!occurs_at(s, needle, k));
    } else if i < k {
        assert(!occurs_at(s, needle, i));
    }
}

/// No occurrence at all means `find_seq` reports none.
pub proof fn lemma_find_seq_absent(s: Seq<char>, needle: Seq<char>)
    requires
        forall|j: int| !occurs_at(s, needle, j),
    ensures
        find_seq(s, needle) is None,
        !contains_seq(s, needle),
{
    reveal(find_seq);
}

/// No occurrence means `rfind_char` reports none.
pub proof fn lemma_rfind_char_absent(s: Seq<char>, c: char)
    requires
        forall|j: int| 0 <= j < s.len() ==> s[j] != c,
    ensures
        rfind_char(s, c) is None,
{
    reveal(rfind_char);
}

/// A rightmost occurrence is the one `rfind_char` reports.
pub proof fn lemma_rfind_char_is(s: Seq<char>, c: char, i: int)
    requires
        is_last_char(s, c, i),
    ensures
        rfind_char(s, c) == Some(i),
{
    reveal(rfind_char);
    let k = choose|k: int| is_last_char(s, c, k);
    assert(is_last_char(s, c, k));
}

/// The characters of a string slice, one by one.
pub fn chars_of(s: &str) -> (v: Vec<char>)
    ensures
        v@ == s@,
{
    let mut v: Vec<char> = Vec::new();
    for c in it: s.chars()
        invariant
            v@ == it.seq().take(it.index() as int),
    {
        v.push(c);
    }
    v
}

/// Does `needle` occur in `s` at position `i`?
fn matches_at(s: &Vec<char>, i: usize, needle: &Vec<char>) -> (b: bool)
    requires
        i + needle.len() <= s.len(),
    ensures
        b == (s@.subrange(i as int, i + needle.len()) =~= needle@),
{
    let n = needle.len();
    let mut k: usize = 0;
    while k < n
        invariant
            k <= n,
            n == needle.len(),
            i + n <= s.len(),
            forall|t: int| 0 <= t < k ==> s@[i + t] == needle@[t],
        decreases n - k,
    {
        if s[i + k] != needle[k] {
            assert(s@.subrange(i as int, i + n)[k as int] != needle@[k as int]);
            return false;
        }
        k = k + 1;
    }
    true
}

/// Leftmost occurrence of `needle` inside `s[lo..hi]`, counted from `lo`.
pub fn find_in(s: &Vec<char>, lo: usize, hi: usize, needle: &Vec<char>) -> (r: Option<usize>)
    requires
        lo <= hi <= s.len(),
    ensures
        match r {
            Some(k) => k + needle.len() <= hi - lo && find_seq(
                s@.subrange(lo as int, hi as int),
                needle@,
            ) == Some(k as int),
            None => find_seq(s@.subrange(lo as int, hi as int), needle@) is None,
        },
{
    let ghost sub = s@.subrange(lo as int, hi as int);
    let n = needle.len();
    if n > hi - lo {
        proof {
            lemma_find_seq_absent(sub, needle@);
        }
        return None;
    }
    let last = hi - n;
    let mut i: usize = lo;
    while i <= last
        invariant
            lo <= i <= last + 1,
            last + n == hi,
            hi <= s.len(),
            n == needle.len(),
            sub == s@.subrange(lo as int, hi as int),
            forall|j: int| 0 <= j < i - lo ==> !occurs_at(sub, needle@, j),
        decreases last + 1 - i,
    {
        if matches_at(s, i, needle) {
            proof {
                assert(sub.subrange(i - lo, i - lo + n) =~= s@.subrange(i as int, i + n));
                assert(is_first_occurrence(sub, needle@, i - lo));
                lemma_find_seq_is(sub, needle@, i - lo);
            }
            return Some(i - lo);
        }
        proof {
            assert(sub.subrange(i - lo, i - lo + n) =~= s@.subrange(i as int, i + n));
        }
        i = i + 1;
    }
    proof {
        assert forall|j: int| !occurs_at(sub, needle@, j) by {
            if 0 <= j < i - lo {
            }
        }
        lemma_find_seq_absent(sub, needle@);
    }
    None
}

/// Rightmost position of `c` in `s`.
pub fn rfind_char_in(s: &Vec<char>, c: char) -> (r: Option<usize>)
    ensures
        match r {
            Some(k) => k < s.len() && s@[k as int] == c && rfind_char(s@, c) == Some(k as int),
            None => rfind_char(s@, c) is None,
        },
{
    let mut i: usize = s.len();
    while i > 0
        invariant
            i <= s.len(),
            forall|j: int| i <= j < s.len() ==> s@[j] != c,
        decreases i,
    {
        if s[i - 1] == c {
            proof {
                lemma_rfind_char_is(s@, c, i - 1);
            }
            return Some(i - 1);
        }
        i = i - 1;
    }
    proof {
        lemma_rfind_char_absent(s@, c);
    }
    None
}

/// The decimal digit character for `d < 10`.
pub open spec fn digit_char(d: nat) -> char {
    if d == 0 { '0' }
    else if d == 1 { '1' }
    else if d == 2 { '2' }
    else if d == 3 { '3' }
    else if d == 4 { '4' }
    else if d == 5 { '5' }
    else if d == 6 { '6' }
    else if d == 7 { '7' }
    else if d == 8 { '8' }
    else { '9' }
}

/// The decimal notation of `n`, without leading zeros (`"0"` for zero),
/// as `Display` writes an unsigned integer.
pub open spec fn decimal(n: nat) -> Seq<char>
    decreases n,
{
    if n < 10 {
        seq![digit_char(n)]
    } else {
        decimal(n / 10).push(digit_char(n % 10))
    }
}

/// `n` written with at least two digits (`{:02}`).
pub open spec fn two_digits(n: nat) -> Seq<char> {
    if n < 10 {
        seq!['0', digit_char(n)]
    } else {
        decimal(n)
    }
}

fn digit_str(d: u64) -> (s: &'static str)
    requires
        d < 10,
    ensures
        s@ == seq![digit_char(d as nat)],
{
    proof {
        reveal_strlit("0");
        reveal_strlit("1");
        reveal_strlit("2");
        reveal_strlit("3");
        reveal_strlit("4");
        reveal_strlit("5");
        reveal_strlit("6");
        reveal_strlit("7");
        reveal_strlit("8");
        reveal_strlit("9");
    }
    if d == 0 { "0" }
    else if d == 1 { "1" }
    else if d == 2 { "2" }
    else if d == 3 { "3" }
    else if d == 4 { "4" }
    else if d == 5 { "5" }
    else if d == 6 { "6" }
    else if d == 7 { "7" }
    else if d == 8 { "8" }
    else { "9" }
}

/// Appends the decimal notation of `n` to `out`.
pub fn push_decimal(out: &mut String, n: u64)
    ensures
        final(out)@ == old(out)@ + decimal(n as nat),
    decreases n,
{
    if n < 10 {
        out.append(digit_str(n));
    } else {
        push_decimal(out, n / 10);
        out.append(digit_str(n % 10));
        proof {
            assert(decimal(n as nat) == decimal((n / 10) as nat).push(digit_char((n % 10) as nat)));
        }
        assert(final(out)@ =~= old(out)@ + decimal(n as nat));
    }
}

/// Appends `n` with at least two digits (`{:02}`).
pub fn push_two_digits(out: &mut String, n: u64)
    ensures
        final(out)@ == old(out)@ + two_digits(n as nat),
{
    if n < 10 {
        out.append(digit_str(0));
        out.append(digit_str(n));
        assert(final(out)@ =~= old(out)@ + two_digits(n as nat));
    } else {
        push_decimal(out, n);
    }
}

} // verus!

verus! {

/// Decimal notation consists of digits only.
pub proof fn lemma_decimal_digits(n: nat)
    ensures
        decimal(n).len() >= 1,
        forall|i: int| 0 <= i < decimal(n).len() ==> '0' <= #[trigger] decimal(n)[i] <= '9',
    decreases n,
{
    if n >= 10 {
        lemma_decimal_digits(n / 10);
    }
}

} // verus!

verus! {

/// The number a decimal digit character stands for.
pub open spec fn digit_value(c: char) -> int {
    c as int - '0' as int
}

/// The number a string of decimal digits stands for (0 for the empty
/// string), read most significant digit first.
pub open spec fn numeral_value(s: Seq<char>) -> int
    decreases s.len(),
{
    if s.len() == 0 {
        0
    } else {
        numeral_value(s.drop_last()) * 10 + digit_value(s.last())
    }
}

proof fn lemma_digit_char_value(d: nat)
    requires
        d < 10,
    ensures
        digit_value(digit_char(d)) == d,
{
}

/// The decimal notation of `n` reads back as `n`.
pub proof fn lemma_decimal_value(n: nat)
    ensures
        numeral_value(decimal(n)) == n,
    decreases n,
{
    lemma_digit_char_value(n % 10);
    if n >= 10 {
        lemma_decimal_value(n / 10);
        let s = decimal(n);
        assert(s.drop_last() =~= decimal(n / 10));
        assert(s.last() == digit_char(n % 10));
        assert(numeral_value(s) == numeral_value(decimal(n / 10)) * 10 + digit_value(
            digit_char(n % 10),
        ));
        assert(n == (n / 10) * 10 + n % 10);
    } else {
        let s = seq![digit_char(n)];
        assert(s.drop_last() =~= Seq::<char>::empty());
        assert(numeral_value(Seq::<char>::empty()) == 0);
        assert(n % 10 == n);
        assert(numeral_value(s) == numeral_value(s.drop_last()) * 10 + digit_value(s.last()));
    }
}

/// `n < 100` written with two digits reads back as `n`.
pub proof fn lemma_two_digits_value(n: nat)
    requires
        n < 100,
    ensures
        two_digits(n).len() == 2,
        numeral_value(two_digits(n)) == n,
{
    lemma_decimal_value(n);
    if n < 10 {
        lemma_digit_char_value(n);
        let s = seq!['0', digit_char(n)];
        assert(s.drop_last() =~= seq!['0']);
        assert(seq!['0'].drop_last() =~= Seq::<char>::empty());
        assert(numeral_value(Seq::<char>::empty()) == 0);
        assert(numeral_value(seq!['0']) == 0);
        assert(numeral_value(s) == numeral_value(seq!['0']) * 10 + digit_value(digit_char(n)));
    } else {
        lemma_decimal_digits(n);
        lemma_decimal_len_two(n);
    }
}

proof fn lemma_decimal_len_two(n: nat)
    requires
        10 <= n < 100,
    ensures
        decimal(n).len() == 2,
{
    assert(decimal(n / 10).len() == 1);
}

/// Appending a zero digit multiplies the value by ten.
pub proof fn lemma_numeral_push_zero(s: Seq<char>)
    ensures
        numeral_value(s.push('0')) == numeral_value(s) * 10,
{
    assert(s.push('0').drop_last() =~= s);
}

} // verus!

verus! {

/// `n` written with at least two digits reads back as `n`.
pub proof fn lemma_two_digits_value_any(n: nat)
    ensures
        two_digits(n).len() >= 2,
        numeral_value(two_digits(n)) == n,
{
    if n < 100 {
        lemma_two_digits_value(n);
    } else {
        lemma_decimal_value(n);
        lemma_decimal_digits(n);
        assert(decimal(n / 10).len() >= 1);
    }
}

} // verus!
