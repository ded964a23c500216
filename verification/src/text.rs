//! Character-sequence utilities: whitespace trimming, taking the last
//! `/`-separated path segment, and splitting at the first occurrence of a
//! separator character.

use vstd::prelude::*;
use vstd::string::StrSliceExecFns;

verus! {

/// The characters that count as whitespace when a value read from a
/// pseudo-file is trimmed (the Unicode `White_Space` set).
pub open spec fn is_space(c: char) -> bool {
    let u = c as u32;
    (9 <= u && u <= 13) || u == 32 || u == 0x85 || u == 0xA0 || u == 0x1680 || (0x2000 <= u
        && u <= 0x200A) || u == 0x2028 || u == 0x2029 || u == 0x202F || u == 0x205F || u == 0x3000
}

/// Executable test for [`is_space`].
pub fn is_space_char(c: char) -> (r: bool)
    ensures
        r == is_space(c),
{
    let u = c as u32;
    (9 <= u && u <= 13) || u == 32 || u == 0x85 || u == 0xA0 || u == 0x1680 || (0x2000 <= u
        && u <= 0x200A) || u == 0x2028 || u == 0x2029 || u == 0x202F || u == 0x205F || u == 0x3000
}

/// `s` with its leading whitespace removed.
pub open spec fn trim_front(s: Seq<char>) -> Seq<char>
    decreases s.len(),
{
    if s.len() > 0 && is_space(s[0]) {
        trim_front(s.drop_first())
    } else {
        s
    }
}

/// `s` with its trailing whitespace removed.
pub open spec fn trim_back(s: Seq<char>) -> Seq<char>
    decreases s.len(),
{
    if s.len() > 0 && is_space(s.last()) {
        trim_back(s.drop_last())
    } else {
        s
    }
}

/// `s` with both leading and trailing whitespace removed.
pub open spec fn spec_trim(s: Seq<char>) -> Seq<char> {
    trim_back(trim_front(s))
}

pub proof fn lemma_trim_front_skip(s: Seq<char>, a: int)
    requires
        0 <= a <= s.len(),
        forall|i: int| 0 <= i < a ==> is_space(s[i]),
        a == s.len() || !is_space(s[a]),
    ensures
        trim_front(s) =~= s.skip(a),
    decreases a,
{
    if a == 0 {
        assert(trim_front(s) =~= s.skip(0));
    } else {
        assert(is_space(s[0]));
        let t = s.drop_first();
        assert(forall|i: int| 0 <= i < a - 1 ==> s.skip(1)[i] == s[i + 1]);
        lemma_trim_front_skip(t, a - 1);
        assert(trim_front(s) == trim_front(t));
        assert(t.skip(a - 1) =~= s.skip(a));
    }
}

pub proof fn lemma_trim_back_take(s: Seq<char>, b: int)
    requires
        0 <= b <= s.len(),
        forall|i: int| b <= i < s.len() ==> is_space(s[i]),
        b == 0 || !is_space(s[b - 1]),
    ensures
        trim_back(s) =~= s.take(b),
    decreases s.len() - b,
{
    if b == s.len() {
        if s.len() > 0 && is_space(s.last()) {
            assert(!is_space(s[b - 1]));
            assert(false);
        }
        assert(trim_back(s) =~= s.take(b));
    } else {
        assert(is_space(s.last()));
        let t = s.drop_last();
        lemma_trim_back_take(t, b);
        assert(trim_back(s) == trim_back(t));
        assert(t.take(b) =~= s.take(b));
    }
}

/// Removes leading and trailing whitespace, as a pseudo-file's raw content is
/// cleaned before use.
pub fn trim_str(s: &str) -> (r: &str)
    ensures
        r@ == spec_trim(s@),
{
    let len = s.unicode_len();
    let mut a: usize = 0;
    while a < len && is_space_char(s.get_char(a))
        invariant
            0 <= a <= len,
            len == s@.len(),
            forall|i: int| 0 <= i < a ==> is_space(s@[i]),
        decreases len - a,
    {
        a += 1;
    }
    let mut b: usize = len;
    while b > a && is_space_char(s.get_char(b - 1))
        invariant
            a <= b <= len,
            len == s@.len(),
            forall|i: int| b <= i < len ==> is_space(s@[i]),
        decreases b,
    {
        b -= 1;
    }
    proof {
        lemma_trim_front_skip(s@, a as int);
        let t = s@.skip(a as int);
        assert(forall|i: int| b - a <= i < t.len() ==> is_space(#[trigger] t[i]));
        if b > a {
            assert(!is_space(s@[b - 1]));
            assert(t[b - a - 1] == s@[b - 1]);
        }
        lemma_trim_back_take(t, b - a);
        assert(t.take(b - a) =~= s@.subrange(a as int, b as int));
    }
    s.substring_char(a, b)
}

/// The suffix of `s` after its last `/`; the whole of `s` when it has none.
/// This is the final segment that `split('/')` would yield.
pub open spec fn last_segment(s: Seq<char>) -> Seq<char>
    decreases s.len(),
{
    if s.len() == 0 {
        s
    } else if s.last() == '/' {
        Seq::empty()
    } else {
        last_segment(s.drop_last()).push(s.last())
    }
}

pub proof fn lemma_last_segment_skip(s: Seq<char>, b: int)
    requires
        0 <= b <= s.len(),
        forall|i: int| b <= i < s.len() ==> s[i] != '/',
        b == 0 || s[b - 1] == '/',
    ensures
        last_segment(s) =~= s.skip(b),
    decreases s.len() - b,
{
    if b == s.len() {
        if s.len() > 0 && s.last() != '/' {
            assert(false);
        }
        assert(last_segment(s) =~= s.skip(b));
    } else {
        assert(s.last() != '/');
        let t = s.drop_last();
        lemma_last_segment_skip(t, b);
        assert(last_segment(s) =~= t.skip(b).push(s.last()));
        assert(t.skip(b).push(s.last()) =~= s.skip(b));
    }
}

/// The last `/`-separated segment of a path, used to turn a shell path such
/// as `/usr/bin/zsh` into the bare shell name `zsh`.
pub fn last_path_segment(s: &str) -> (r: &str)
    ensures
        r@ == last_segment(s@),
{
    let len = s.unicode_len();
    let mut b: usize = len;
    while b > 0 && s.get_char(b - 1) != '/'
        invariant
            0 <= b <= len,
            len == s@.len(),
            forall|i: int| b <= i < len ==> s@[i] != '/',
        decreases b,
    {
        b -= 1;
    }
    proof {
        lemma_last_segment_skip(s@, b as int);
        assert(s@.skip(b as int) =~= s@.subrange(b as int, len as int));
    }
    s.substring_char(b, len)
}

/// The part of `s` before the first occurrence of `c`; all of `s` when `c`
/// does not occur.
pub open spec fn before_char(s: Seq<char>, c: char) -> Seq<char>
    decreases s.len(),
{
    if s.len() == 0 {
        s
    } else if s[0] == c {
        Seq::empty()
    } else {
        seq![s[0]] + before_char(s.drop_first(), c)
    }
}

/// The part of `s` after the first occurrence of `c`; empty when `c` does
/// not occur.
pub open spec fn after_char(s: Seq<char>, c: char) -> Seq<char>
    decreases s.len(),
{
    if s.len() == 0 {
        s
    } else if s[0] == c {
        s.drop_first()
    } else {
        after_char(s.drop_first(), c)
    }
}

pub proof fn lemma_split_at_first(s: Seq<char>, c: char, k: int)
    requires
        0 <= k < s.len(),
        forall|i: int| 0 <= i < k ==> s[i] != c,
        s[k] == c,
    ensures
        before_char(s, c) =~= s.take(k),
        after_char(s, c) =~= s.skip(k + 1),
    decreases k,
{
    if k == 0 {
        assert(before_char(s, c) =~= s.take(0));
        assert(after_char(s, c) =~= s.skip(1));
    } else {
        let t = s.drop_first();
        assert(forall|i: int| 0 <= i < k - 1 ==> t[i] == s[i + 1]);
        lemma_split_at_first(t, c, k - 1);
        assert(before_char(s, c) =~= seq![s[0]] + t.take(k - 1));
        assert(seq![s[0]] + t.take(k - 1) =~= s.take(k));
        assert(t.skip(k) =~= s.skip(k + 1));
    }
}

pub proof fn lemma_no_char(s: Seq<char>, c: char)
    requires
        forall|i: int| 0 <= i < s.len() ==> s[i] != c,
    ensures
        before_char(s, c) =~= s,
        after_char(s, c) =~= Seq::<char>::empty(),
        !s.contains(c),
    decreases s.len(),
{
    if s.len() > 0 {
        let t = s.drop_first();
        lemma_no_char(t, c);
        assert(before_char(s, c) =~= seq![s[0]] + t);
        assert(seq![s[0]] + t =~= s);
    }
}

/// Finds the position of the first occurrence of `c` at or after `from`.
pub fn find_char(s: &str, c: char, from: usize) -> (r: Option<usize>)
    requires
        from <= s@.len(),
    ensures
        match r {
            Some(k) => from <= k < s@.len() && s@[k as int] == c && forall|i: int|
                from <= i < k ==> s@[i] != c,
            None => forall|i: int| from <= i < s@.len() ==> s@[i] != c,
        },
{
    let len = s.unicode_len();
    let mut k: usize = from;
    while k < len
        invariant
            from <= k <= len,
            len == s@.len(),
            forall|i: int| from <= i < k ==> s@[i] != c,
        decreases len - k,
    {
        if s.get_char(k) == c {
            return Some(k);
        }
        k += 1;
    }
    None
}

} // verus!
