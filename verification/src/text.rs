//! Text building blocks: decimal numbers, durations, and comparisons on
//! character sequences.
use vstd::prelude::*;

verus! {

/// Nanoseconds in one second.
pub const NANOS_PER_SEC: u64 = 1_000_000_000;

/// Appends one character to a string (`String::push`).
#[verifier::external_body]
pub fn push_char(s: &mut String, c: char)
    ensures
        final(s)@ == old(s)@.push(c),
{
    s.push(c);
}

/// The character of a decimal digit.
pub open spec fn digit_char(d: nat) -> char {
    ((48 + d) as u32) as char
}

/// The decimal representation of `n`, without leading zeros.
pub open spec fn decimal(n: nat) -> Seq<char>
    decreases n,
{
    if n < 10 {
        seq![digit_char(n)]
    } else {
        decimal(n / 10).push(digit_char(n % 10))
    }
}

/// The two-digit representation of `n < 100`, with a leading zero when needed.
pub open spec fn two_digits(n: nat) -> Seq<char> {
    seq![digit_char(n / 10), digit_char(n % 10)]
}

/// `M:SS` for a duration in nanoseconds: whole minutes, then the remaining
/// whole seconds on two digits.
pub open spec fn duration_text(nanos: u64) -> Seq<char> {
    let secs = nanos as nat / NANOS_PER_SEC as nat;
    decimal(secs / 60) + seq![':'] + two_digits(secs % 60)
}

fn digit(d: u64) -> (c: char)
    requires
        d < 10,
    ensures
        c == digit_char(d as nat),
{
    match d {
        0 => '0',
        1 => '1',
        2 => '2',
        3 => '3',
        4 => '4',
        5 => '5',
        6 => '6',
        7 => '7',
        8 => '8',
        _ => '9',
    }
}

/// Appends the decimal representation of `n`.
pub fn push_decimal(s: &mut String, n: u64)
    ensures
        final(s)@ == old(s)@ + decimal(n as nat),
    decreases n,
{
    if n >= 10 {
        push_decimal(s, n / 10);
    }
    push_char(s, digit(n % 10));
    proof {
        if n >= 10 {
            assert(decimal(n as nat) == decimal((n / 10) as nat).push(digit_char((n % 10) as nat)));
        }
    }
}

/// The decimal representation of `n` as a new string.
pub fn decimal_string(n: u64) -> (s: String)
    ensures
        s@ == decimal(n as nat),
{
    let mut s = String::new();
    push_decimal(&mut s, n);
    assert(s@ == Seq::<char>::empty() + decimal(n as nat));
    s
}

/// Formats a duration given in nanoseconds as `M:SS`.
pub fn format_duration(nanos: u64) -> (s: String)
    ensures
        s@ == duration_text(nanos),
{
    let secs = nanos / NANOS_PER_SEC;
    let mut s = String::new();
    push_decimal(&mut s, secs / 60);
    push_char(&mut s, ':');
    let rest = secs % 60;
    push_char(&mut s, digit(rest / 10));
    push_char(&mut s, digit(rest % 10));
    s
}

/// Whether `needle` occurs in `hay` starting at position `at`.
pub open spec fn occurs_at(hay: Seq<char>, needle: Seq<char>, at: int) -> bool {
    0 <= at && at + needle.len() <= hay.len() && hay.subrange(at, at + needle.len()) == needle
}

/// Whether `needle` occurs anywhere in `hay`.
pub open spec fn contains_seq(hay: Seq<char>, needle: Seq<char>) -> bool {
    exists|at: int| occurs_at(hay, needle, at)
}

/// Character-wise equality of two strings.
pub fn str_equals(a: &str, b: &str) -> (r: bool)
    ensures
        r == (a@ == b@),
{
    let n = a.unicode_len();
    if n != b.unicode_len() {
        return false;
    }
    let mut i: usize = 0;
    while i < n
        invariant
            n == a@.len(),
            n == b@.len(),
            i <= n,
            a@.subrange(0, i as int) == b@.subrange(0, i as int),
        decreases n - i,
    {
        if a.get_char(i) != b.get_char(i) {
            return false;
        }
        proof {
            assert(a@.subrange(0, i + 1) == a@.subrange(0, i as int).push(a@[i as int]));
            assert(b@.subrange(0, i + 1) == b@.subrange(0, i as int).push(b@[i as int]));
        }
        i = i + 1;
    }
    proof {
        assert(a@ == a@.subrange(0, n as int));
        assert(b@ == b@.subrange(0, n as int));
    }
    true
}

fn occurs_at_exec(hay: &str, needle: &str, at: usize, hay_len: usize, needle_len: usize) -> (r: bool)
    requires
        hay_len == hay@.len(),
        needle_len == needle@.len(),
        at + needle_len <= hay_len,
    ensures
        r == occurs_at(hay@, needle@, at as int),
{
    let mut j: usize = 0;
    while j < needle_len
        invariant
            hay_len == hay@.len(),
            needle_len == needle@.len(),
            at + needle_len <= hay_len,
            j <= needle_len,
            hay@.subrange(at as int, at + j) == needle@.subrange(0, j as int),
        decreases needle_len - j,
    {
        if hay.get_char(at + j) != needle.get_char(j) {
            proof {
                assert(hay@.subrange(at as int, at + needle_len)[j as int] != needle@[j as int]);
            }
            return false;
        }
        proof {
            assert(hay@.subrange(at as int, at + j + 1) == hay@.subrange(at as int, at + j).push(
                hay@[at + j],
            ));
            assert(needle@.subrange(0, j + 1) == needle@.subrange(0, j as int).push(
                needle@[j as int],
            ));
        }
        j = j + 1;
    }
    proof {
        assert(needle@ == needle@.subrange(0, needle_len as int));
    }
    true
}

/// Whether `needle` occurs as a contiguous run of characters in `hay`.
pub fn contains_str(hay: &str, needle: &str) -> (r: bool)
    ensures
        r == contains_seq(hay@, needle@),
{
    let hay_len = hay.unicode_len();
    let needle_len = needle.unicode_len();
    if needle_len > hay_len {
        proof {
            assert forall|at: int| !occurs_at(hay@, needle@, at) by {}
        }
        return false;
    }
    if needle_len == 0 {
        proof {
            assert(hay@.subrange(0, 0) =~= needle@);
            assert(occurs_at(hay@, needle@, 0));
        }
        return true;
    }
    let last = hay_len - needle_len;
    let mut at: usize = 0;
    while at <= last
        invariant
            hay_len == hay@.len(),
            needle_len == needle@.len(),
            last == hay_len - needle_len,
            needle_len > 0,
            at <= last + 1,
            forall|k: int| 0 <= k < at ==> !occurs_at(hay@, needle@, k),
        decreases last + 1 - at,
    {
        if occurs_at_exec(hay, needle, at, hay_len, needle_len) {
            return true;
        }
        at = at + 1;
    }
    proof {
        assert forall|k: int| !occurs_at(hay@, needle@, k) by {
            if 0 <= k < at {
            }
        }
    }
    false
}

/// The lowercase mapping of a character sequence, as `str::to_lowercase`
/// computes it.
pub uninterp spec fn lowercase(s: Seq<char>) -> Seq<char>;

/// The uppercase mapping of a character sequence, as `str::to_uppercase`
/// computes it.
pub uninterp spec fn uppercase(s: Seq<char>) -> Seq<char>;

/// `str::to_lowercase`: the result is the Unicode lowercase mapping of `s`,
/// a function of `s` alone; the mapping itself is left unstated.
#[verifier::external_body]
pub fn to_lowercase(s: &str) -> (r: String)
    ensures
        r@ == lowercase(s@),
{
    s.to_lowercase()
}

/// `str::to_uppercase`: the result is the Unicode uppercase mapping of `s`,
/// a function of `s` alone; the mapping itself is left unstated.
#[verifier::external_body]
pub fn to_uppercase(s: &str) -> (r: String)
    ensures
        r@ == uppercase(s@),
{
    s.to_uppercase()
}

/// The number a string of decimal digits stands for.
pub open spec fn digits_value(s: Seq<char>) -> nat
    decreases s.len(),
{
    if s.len() == 0 {
        0
    } else {
        digits_value(s.drop_last()) * 10 + ((s.last() as u32) - 48) as nat
    }
}

/// Whether every character is a decimal digit.
pub open spec fn all_digits(s: Seq<char>) -> bool {
    forall|i: int| 0 <= i < s.len() ==> '0' <= #[trigger] s[i] <= '9'
}

/// `decimal(n)` is a nonempty run of digits that reads back as `n`, with no
/// leading zero unless `n` is 0.
pub proof fn lemma_decimal_reads_back(n: nat)
    ensures
        all_digits(decimal(n)),
        digits_value(decimal(n)) == n,
        decimal(n).len() >= 1,
        n > 0 ==> decimal(n)[0] != '0',
    decreases n,
{
    let d = decimal(n);
    assert((digit_char(n % 10) as u32) == 48 + n % 10);
    if n >= 10 {
        lemma_decimal_reads_back(n / 10);
        assert(d.drop_last() == decimal(n / 10));
        assert(d.last() == digit_char(n % 10));
        assert(d[0] == decimal(n / 10)[0]);
        assert((n / 10) * 10 + n % 10 == n);
        assert(digits_value(d) == digits_value(d.drop_last()) * 10 + ((d.last() as u32) - 48) as nat);
    } else {
        assert(d.drop_last() =~= Seq::<char>::empty());
        assert(d.last() == digit_char(n % 10));
        assert(digits_value(Seq::<char>::empty()) == 0);
        assert(digits_value(d) == digits_value(d.drop_last()) * 10 + ((d.last() as u32) - 48) as nat);
        assert(n % 10 == n);
    }
}

/// A formatted duration reads back as the whole seconds it stands for:
/// minutes, a colon, then exactly two digits of seconds below 60.
pub proof fn lemma_duration_reads_back(nanos: u64)
    ensures
        ({
            let t = duration_text(nanos);
            let n = t.len() as int;
            &&& n >= 4
            &&& t[n - 3] == ':'
            &&& all_digits(t.subrange(0, n - 3))
            &&& all_digits(t.subrange(n - 2, n))
            &&& digits_value(t.subrange(n - 2, n)) < 60
            &&& digits_value(t.subrange(0, n - 3)) * 60 + digits_value(t.subrange(n - 2, n))
                == nanos as nat / 1_000_000_000
        }),
{
    let secs = nanos as nat / NANOS_PER_SEC as nat;
    let m = decimal(secs / 60);
    let s2 = two_digits(secs % 60);
    lemma_decimal_reads_back(secs / 60);
    let t = duration_text(nanos);
    assert(t == m + seq![':'] + s2);
    let n = t.len() as int;
    assert(t.subrange(0, n - 3) =~= m);
    assert(t.subrange(n - 2, n) =~= s2);
    let sec = secs % 60;
    assert(s2.drop_last() =~= seq![digit_char(sec / 10)]);
    assert(seq![digit_char(sec / 10)].drop_last() =~= Seq::<char>::empty());
    assert((digit_char(sec / 10) as u32) == 48 + sec / 10);
    assert((digit_char(sec % 10) as u32) == 48 + sec % 10);
    let first = seq![digit_char(sec / 10)];
    assert(digits_value(Seq::<char>::empty()) == 0);
    assert(digits_value(first) == digits_value(first.drop_last()) * 10 + ((first.last() as u32) - 48) as nat);
    assert(digits_value(first) == sec / 10);
    assert(digits_value(s2) == digits_value(s2.drop_last()) * 10 + ((s2.last() as u32) - 48) as nat);
    assert(digits_value(s2) == (sec / 10) * 10 + sec % 10);
    assert(digits_value(s2) == sec);
    assert((secs / 60) * 60 + sec == secs);
    assert forall|i: int| 0 <= i < s2.len() implies '0' <= #[trigger] s2[i] <= '9' by {}
}

} // verus!
