//! Character-level helpers for the status text: scanning, comparing and typed parses.
use vstd::prelude::*;
use vstd::string::StrSliceExecFns;

verus! {

/// Position of the first `c` in `s`, or `s.len()` when there is none.
pub open spec fn index_of(s: Seq<char>, c: char) -> nat
    decreases s.len(),
{
    if s.len() == 0 {
        0
    } else if s[0] == c {
        0
    } else {
        1 + index_of(s.drop_first(), c)
    }
}

/// `index_of` is at most the length, no `c` stands before it, and a `c` stands at it unless
/// it is the length.
pub proof fn lemma_index_of(s: Seq<char>, c: char)
    ensures
        index_of(s, c) <= s.len(),
        forall|j: int| 0 <= j < index_of(s, c) ==> s[j] != c,
        index_of(s, c) < s.len() ==> s[index_of(s, c) as int] == c,
    decreases s.len(),
{
    if s.len() > 0 && s[0] != c {
        lemma_index_of(s.drop_first(), c);
        assert forall|j: int| 0 <= j < index_of(s, c) implies s[j] != c by {
            if j > 0 {
                assert(s[j] == s.drop_first()[j - 1]);
            }
        }
    }
}

/// Whether `c` is an ASCII decimal digit.
pub open spec fn is_digit(c: char) -> bool {
    '0' <= c <= '9'
}

/// The number that a string of decimal digits writes.
pub open spec fn digits_value(d: Seq<char>) -> nat
    decreases d.len(),
{
    if d.len() == 0 {
        0
    } else {
        digits_value(d.drop_last()) * 10 + (d.last() as nat - '0' as nat) as nat
    }
}

/// A base-10 unsigned 32-bit number: an optional `+`, then one or more digits whose value
/// fits in 32 bits.
pub open spec fn u32_of(s: Seq<char>) -> Option<u32> {
    let d = if s.len() > 0 && s[0] == '+' {
        s.drop_first()
    } else {
        s
    };
    if d.len() > 0 && (forall|i: int| 0 <= i < d.len() ==> is_digit(#[trigger] d[i]))
        && digits_value(d) <= u32::MAX {
        Some(digits_value(d) as u32)
    } else {
        None
    }
}

/// `s` with every `+` turned into a space.
pub open spec fn plus_as_space(s: Seq<char>) -> Seq<char> {
    s.map_values(|c: char| if c == '+' { ' ' } else { c })
}

/// Relies on `str::parse::<u32>`: an optional `+` followed by only decimal digits, whose value
/// fits in a `u32`, parses to that value; anything else is an error.
#[verifier::external_body]
pub(crate) fn parse_u32(s: &str) -> (r: Option<u32>)
    ensures
        r == u32_of(s@),
{
    s.parse::<u32>().ok()
}

/// Relies on `str::replace` with a character pattern: every `from` becomes `to`, other
/// characters stay.
#[verifier::external_body]
pub(crate) fn replace_char(s: &str, from: char, to: char) -> (r: String)
    ensures
        r@ == s@.map_values(|c: char| if c == from { to } else { c }),
{
    s.replace(from, &to.to_string())
}

/// The characters of `s`, in order.
pub fn chars_of(s: &str) -> (r: Vec<char>)
    ensures
        r@ == s@,
{
    let n = s.unicode_len();
    let mut r: Vec<char> = Vec::new();
    let mut i: usize = 0;
    while i < n
        invariant
            n == s@.len(),
            i <= n,
            r@ == s@.subrange(0, i as int),
        decreases n - i,
    {
        r.push(s.get_char(i));
        i = i + 1;
        assert(r@ =~= s@.subrange(0, i as int));
    }
    assert(r@ =~= s@);
    r
}

/// Whether `a` and `b` hold the same characters.
pub fn text_eq(a: &str, b: &str) -> (r: bool)
    ensures
        r == (a@ == b@),
{
    let n = a.unicode_len();
    if n != b.unicode_len() {
        return false;
    }
    let mut i: usize = 0;
    while i < n
        invariant
            n == a@.len(),
            n == b@.len(),
            i <= n,
            forall|j: int| 0 <= j < i ==> a@[j] == b@[j],
        decreases n - i,
    {
        if a.get_char(i) != b.get_char(i) {
            return false;
        }
        i = i + 1;
    }
    assert(a@ =~= b@);
    true
}

/// Position of the first `c` in `chars[from..to]`, or `to` when there is none.
pub fn find_char(chars: &Vec<char>, from: usize, to: usize, c: char) -> (r: usize)
    requires
        from <= to <= chars@.len(),
    ensures
        from <= r <= to,
        r - from == index_of(chars@.subrange(from as int, to as int), c),
{
    let mut k: usize = from;
    while k < to && chars[k] != c
        invariant
            from <= k <= to,
            to <= chars@.len(),
            forall|j: int| from <= j < k ==> chars@[j] != c,
        decreases to - k,
    {
        k = k + 1;
    }
    let ghost sub = chars@.subrange(from as int, to as int);
    proof {
        lemma_index_of(sub, c);
        let m = index_of(sub, c);
        if m < k - from {
            assert(sub[m as int] == chars@[from + m]);
        } else if m > k - from {
            assert(sub[k - from] == chars@[k as int]);
        }
    }
    k
}

} // verus!
