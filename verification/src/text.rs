//! Character-level text operations with exact specifications.
//!
//! Strings are modelled as sequences of characters. The executable functions
//! work on a slice of characters taken once from a string with [`chars_of`], so
//! that positions are character positions and every access is constant time.

use vstd::prelude::*;

verus! {

/// Whether `pat` occurs in `text` starting at character position `at`.
pub open spec fn occurs_at(text: Seq<char>, pat: Seq<char>, at: int) -> bool {
    &&& 0 <= at
    &&& at + pat.len() <= text.len()
    &&& text.subrange(at, at + pat.len()) == pat
}

/// Whether `pat` occurs somewhere in `text` as a contiguous run of characters.
/// The empty pattern occurs in every text.
pub open spec fn contains(text: Seq<char>, pat: Seq<char>) -> bool {
    exists|at: int| occurs_at(text, pat, at)
}

/// Whether `text` begins with `prefix`.
pub open spec fn starts_with(text: Seq<char>, prefix: Seq<char>) -> bool {
    occurs_at(text, prefix, 0)
}

/// Whether `i` is the position of the first `c` in `s`, or the length of `s`
/// where `s` holds no `c`.
pub open spec fn is_first_index(s: Seq<char>, c: char, i: int) -> bool {
    &&& 0 <= i <= s.len()
    &&& forall|j: int| 0 <= j < i ==> s[j] != c
    &&& i < s.len() ==> s[i] == c
}

/// The position of the first `c` in `s`, or the length of `s` where `s` holds
/// no `c`.
pub open spec fn first_index(s: Seq<char>, c: char) -> int
    decreases s.len(),
{
    if s.len() == 0 {
        0
    } else if s[0] == c {
        0
    } else {
        1 + first_index(s.drop_first(), c)
    }
}

/// `first_index` is a first index.
pub proof fn lemma_first_index(s: Seq<char>, c: char)
    ensures
        is_first_index(s, c, first_index(s, c)),
    decreases s.len(),
{
    if s.len() != 0 && s[0] != c {
        let rest = s.drop_first();
        lemma_first_index(rest, c);
        let i = first_index(s, c);
        assert forall|j: int| 0 <= j < i implies s[j] != c by {
            if j > 0 {
                assert(s[j] == rest[j - 1]);
            }
        }
        if i < s.len() {
            assert(s[i] == rest[i - 1]);
        }
    }
}

/// There is only one first index.
pub proof fn lemma_first_index_unique(s: Seq<char>, c: char, i: int)
    requires
        is_first_index(s, c, i),
    ensures
        first_index(s, c) == i,
{
    lemma_first_index(s, c);
    let k = first_index(s, c);
    if k < i {
        assert(s[k] == c);
    } else if i < k {
        assert(s[i] == c);
    }
}

/// Whether `c` is whitespace: one of the characters with the Unicode property
/// White_Space.
pub open spec fn is_whitespace(c: char) -> bool {
    let u = c as u32;
    ||| 0x09 <= u <= 0x0D
    ||| u == 0x20
    ||| u == 0x85
    ||| u == 0xA0
    ||| u == 0x1680
    ||| 0x2000 <= u <= 0x200A
    ||| u == 0x2028
    ||| u == 0x2029
    ||| u == 0x202F
    ||| u == 0x205F
    ||| u == 0x3000
}

/// Whether `c` is whitespace.
pub fn char_is_whitespace(c: char) -> (b: bool)
    ensures
        b == is_whitespace(c),
{
    let u = c as u32;
    (0x09 <= u && u <= 0x0D) || u == 0x20 || u == 0x85 || u == 0xA0 || u == 0x1680 || (0x2000 <= u
        && u <= 0x200A) || u == 0x2028 || u == 0x2029 || u == 0x202F || u == 0x205F || u == 0x3000
}

/// `String::push` appends one character to the string.
pub assume_specification[ std::string::String::push ](s: &mut std::string::String, ch: char)
    ensures
        final(s)@ == old(s)@.push(ch),
;

/// `s` without its leading whitespace.
pub open spec fn trim_start(s: Seq<char>) -> Seq<char>
    decreases s.len(),
{
    if s.len() > 0 && is_whitespace(s[0]) {
        trim_start(s.drop_first())
    } else {
        s
    }
}

/// `s` without its trailing whitespace.
pub open spec fn trim_end(s: Seq<char>) -> Seq<char>
    decreases s.len(),
{
    if s.len() > 0 && is_whitespace(s.last()) {
        trim_end(s.drop_last())
    } else {
        s
    }
}

/// `s` without its leading and trailing whitespace.
pub open spec fn trim(s: Seq<char>) -> Seq<char> {
    trim_end(trim_start(s))
}

/// Dropping a run of whitespace at the front of a range is `trim_start`.
pub proof fn lemma_trim_start_range(s: Seq<char>, from: int, a: int, to: int)
    requires
        0 <= from <= a <= to <= s.len(),
        forall|j: int| from <= j < a ==> is_whitespace(s[j]),
        a < to ==> !is_whitespace(s[a]),
    ensures
        trim_start(s.subrange(from, to)) == s.subrange(a, to),
    decreases a - from,
{
    let r = s.subrange(from, to);
    if from < a {
        assert(r[0] == s[from]);
        assert(r.drop_first() =~= s.subrange(from + 1, to));
        lemma_trim_start_range(s, from + 1, a, to);
    } else if a < to {
        assert(r[0] == s[a]);
    }
}

/// Dropping a run of whitespace at the back of a range is `trim_end`.
pub proof fn lemma_trim_end_range(s: Seq<char>, from: int, b: int, to: int)
    requires
        0 <= from <= b <= to <= s.len(),
        forall|j: int| b <= j < to ==> is_whitespace(s[j]),
        from < b ==> !is_whitespace(s[b - 1]),
    ensures
        trim_end(s.subrange(from, to)) == s.subrange(from, b),
    decreases to - b,
{
    let r = s.subrange(from, to);
    if b < to {
        assert(r.last() == s[to - 1]);
        assert(r.drop_last() =~= s.subrange(from, to - 1));
        lemma_trim_end_range(s, from, b, to - 1);
    } else if from < b {
        assert(r.last() == s[b - 1]);
    }
}

/// The characters of `s`, in order.
pub fn chars_of(s: &str) -> (v: Vec<char>)
    ensures
        v@ == s@,
{
    let mut v: Vec<char> = Vec::new();
    for c in it: s.chars()
        invariant
            it.seq() == s@,
            v@ == s@.take(it.index() as int),
    {
        v.push(c);
    }
    v
}

/// The string made of the characters `chars[from..to]`.
pub fn string_of(chars: &[char], from: usize, to: usize) -> (s: String)
    requires
        from <= to <= chars@.len(),
    ensures
        s@ == chars@.subrange(from as int, to as int),
{
    let mut s = String::new();
    let mut i: usize = from;
    while i < to
        invariant
            from <= i <= to <= chars@.len(),
            s@ == chars@.subrange(from as int, i as int),
        decreases to - i,
    {
        s.push(chars[i]);
        i += 1;
    }
    s
}

/// Whether the characters of `pat` stand in `text` from position `at` on.
pub fn matches_at(text: &[char], pat: &str, at: usize) -> (r: bool)
    requires
        at <= text@.len(),
    ensures
        r == occurs_at(text@, pat@, at as int),
{
    let n = text.len();
    let mut j: usize = at;
    for c in it: pat.chars()
        invariant
            n == text@.len(),
            it.seq() == pat@,
            j == at + it.index(),
            j <= n,
            text@.subrange(at as int, j as int) == pat@.take(it.index() as int),
    {
        if j < n && text[j] == c {
            proof {
                assert(text@.subrange(at as int, j + 1) =~= text@.subrange(
                    at as int,
                    j as int,
                ).push(text@[j as int]));
                assert(pat@.take(it.index() + 1) =~= pat@.take(it.index() as int).push(
                    pat@[it.index() as int],
                ));
            }
            j += 1;
        } else {
            proof {
                if occurs_at(text@, pat@, at as int) {
                    let k = it.index() as int;
                    assert(text@.subrange(at as int, at + pat@.len())[k] == pat@[k]);
                }
            }
            return false;
        }
    }
    proof {
        assert(pat@.take(pat@.len() as int) =~= pat@);
    }
    true
}

/// Whether `text` and `s` hold the same characters.
pub fn equals_str(text: &[char], s: &str) -> (r: bool)
    ensures
        r == (text@ == s@),
{
    let n = text.len();
    let mut j: usize = 0;
    for c in it: s.chars()
        invariant
            n == text@.len(),
            it.seq() == s@,
            j == it.index(),
            j <= n,
            text@.take(j as int) == s@.take(j as int),
    {
        if j < n && text[j] == c {
            proof {
                assert(text@.take(j + 1) =~= text@.take(j as int).push(text@[j as int]));
                assert(s@.take(j + 1) =~= s@.take(j as int).push(s@[j as int]));
            }
            j += 1;
        } else {
            proof {
                if text@ == s@ {
                    assert(text@[j as int] == s@[j as int]);
                }
            }
            return false;
        }
    }
    proof {
        assert(s@.take(s@.len() as int) =~= s@);
        if j == n {
            assert(text@.take(n as int) =~= text@);
        }
    }
    j == n
}

/// Whether `pat` occurs somewhere in `text`.
pub fn contains_str(text: &[char], pat: &str) -> (r: bool)
    ensures
        r == contains(text@, pat@),
{
    let n = text.len();
    let mut at: usize = 0;
    while at < n
        invariant
            n == text@.len(),
            at <= n,
            forall|k: int| 0 <= k < at ==> !occurs_at(text@, pat@, k),
        decreases n - at,
    {
        if matches_at(text, pat, at) {
            return true;
        }
        at += 1;
    }
    matches_at(text, pat, n)
}

/// Whether `needle` is one of the strings in `items`.
pub fn any_equals(items: &Vec<String>, needle: &[char]) -> (r: bool)
    ensures
        r == exists|i: int| 0 <= i < items@.len() && #[trigger] items@[i]@ == needle@,
{
    let mut i: usize = 0;
    while i < items.len()
        invariant
            i <= items@.len(),
            forall|k: int| 0 <= k < i ==> #[trigger] items@[k]@ != needle@,
        decreases items@.len() - i,
    {
        if equals_str(needle, items[i].as_str()) {
            return true;
        }
        i += 1;
    }
    false
}

/// The position of the first `c` in `chars[from..to]`, or `to` where there is
/// none.
pub fn find_char(chars: &[char], from: usize, to: usize, c: char) -> (r: usize)
    requires
        from <= to <= chars@.len(),
    ensures
        from <= r <= to,
        r - from == first_index(chars@.subrange(from as int, to as int), c),
{
    let mut i: usize = from;
    while i < to && chars[i] != c
        invariant
            from <= i <= to <= chars@.len(),
            forall|j: int| from <= j < i ==> chars@[j] != c,
        decreases to - i,
    {
        i += 1;
    }
    proof {
        let r = chars@.subrange(from as int, to as int);
        assert forall|j: int| 0 <= j < i - from implies r[j] != c by {
            assert(r[j] == chars@[from + j]);
        }
        lemma_first_index_unique(r, c, i - from);
    }
    i
}

/// The bounds of `chars[from..to]` without its leading and trailing
/// whitespace.
pub fn trim_range(chars: &[char], from: usize, to: usize) -> (r: (usize, usize))
    requires
        from <= to <= chars@.len(),
    ensures
        from <= r.0 <= r.1 <= to,
        chars@.subrange(r.0 as int, r.1 as int) == trim(chars@.subrange(from as int, to as int)),
{
    let mut a: usize = from;
    while a < to && char_is_whitespace(chars[a])
        invariant
            from <= a <= to <= chars@.len(),
            forall|j: int| from <= j < a ==> is_whitespace(chars@[j]),
        decreases to - a,
    {
        a += 1;
    }
    let mut b: usize = to;
    while a < b && char_is_whitespace(chars[b - 1])
        invariant
            a <= b <= to <= chars@.len(),
            forall|j: int| b <= j < to ==> is_whitespace(chars@[j]),
        decreases b - a,
    {
        b -= 1;
    }
    proof {
        lemma_trim_start_range(chars@, from as int, a as int, to as int);
        lemma_trim_end_range(chars@, a as int, b as int, to as int);
    }
    (a, b)
}

} // verus!
