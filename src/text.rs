//! Text handling for unit tokens: trimming surrounding white space, folding
//! case, and comparing character sequences.

use vstd::prelude::*;

verus! {

/// Whether `c` carries the Unicode `White_Space` property.
pub uninterp spec fn white_space(c: char) -> bool;

/// The lowercase form of `s`, by the Unicode `Lowercase` property.
pub uninterp spec fn lower_of(s: Seq<char>) -> Seq<char>;

/// Relies on `char::is_whitespace`: true exactly for the characters with the
/// Unicode `White_Space` property.
#[verifier::external_body]
fn is_white_space(c: char) -> (r: bool)
    ensures
        r == white_space(c),
{
    c.is_whitespace()
}

/// Relies on `str::to_lowercase`: the lowercase form depends on the
/// characters of `s` alone.
#[verifier::external_body]
fn lowercase(s: &str) -> (r: String)
    ensures
        r@ == lower_of(s@),
{
    s.to_lowercase()
}

/// `s` without its leading white space.
pub open spec fn trim_start(s: Seq<char>) -> Seq<char>
    decreases s.len(),
{
    if s.len() > 0 && white_space(s[0]) {
        trim_start(s.drop_first())
    } else {
        s
    }
}

/// `s` without its trailing white space.
pub open spec fn trim_end(s: Seq<char>) -> Seq<char>
    decreases s.len(),
{
    if s.len() > 0 && white_space(s.last()) {
        trim_end(s.drop_last())
    } else {
        s
    }
}

/// `s` without its surrounding white space.
pub open spec fn trimmed(s: Seq<char>) -> Seq<char> {
    trim_end(trim_start(s))
}

/// The key under which a unit token is looked up: the token trimmed of
/// surrounding white space, then folded to lower case.
pub open spec fn key_of(s: Seq<char>) -> Seq<char> {
    lower_of(trimmed(s))
}

/// Whether every character of `s` is white space.
pub open spec fn all_white_space(s: Seq<char>) -> bool {
    forall|i: int| 0 <= i < s.len() ==> white_space(#[trigger] s[i])
}

/// Leading white space is dropped by `trim_start`.
proof fn lemma_trim_start_skips(pre: Seq<char>, x: Seq<char>)
    requires
        all_white_space(pre),
    ensures
        trim_start(pre + x) == trim_start(x),
    decreases pre.len(),
{
    if pre.len() > 0 {
        assert((pre + x)[0] == pre[0]);
        assert((pre + x).drop_first() =~= pre.drop_first() + x);
        lemma_trim_start_skips(pre.drop_first(), x);
    } else {
        assert(pre + x =~= x);
    }
}

/// Trailing white space is dropped by `trim_end`.
proof fn lemma_trim_end_skips(x: Seq<char>, post: Seq<char>)
    requires
        all_white_space(post),
    ensures
        trim_end(x + post) == trim_end(x),
    decreases post.len(),
{
    if post.len() > 0 {
        assert((x + post).last() == post.last());
        assert((x + post).drop_last() =~= x + post.drop_last());
        lemma_trim_end_skips(x, post.drop_last());
    } else {
        assert(x + post =~= x);
    }
}

/// What `trim_start` does to a sequence followed by more characters.
proof fn lemma_trim_start_append(s: Seq<char>, y: Seq<char>)
    ensures
        trim_start(s).len() > 0 ==> trim_start(s + y) == trim_start(s) + y,
        trim_start(s).len() == 0 ==> trim_start(s + y) == trim_start(y),
    decreases s.len(),
{
    if s.len() == 0 {
        assert(s + y =~= y);
    } else {
        assert((s + y)[0] == s[0]);
        assert((s + y).drop_first() =~= s.drop_first() + y);
        lemma_trim_start_append(s.drop_first(), y);
    }
}

/// Surrounding a token with white space leaves its trimmed form unchanged.
pub proof fn lemma_trimmed_ignores_padding(pre: Seq<char>, s: Seq<char>, post: Seq<char>)
    requires
        all_white_space(pre),
        all_white_space(post),
    ensures
        trimmed(pre + s + post) == trimmed(s),
{
    assert(pre + s + post =~= pre + (s + post));
    lemma_trim_start_skips(pre, s + post);
    lemma_trim_start_append(s, post);
    if trim_start(s).len() > 0 {
        lemma_trim_end_skips(trim_start(s), post);
    } else {
        lemma_trim_start_skips(post, Seq::empty());
        assert(post + Seq::<char>::empty() =~= post);
    }
}

/// Removes leading and trailing white space from `s`.
pub fn trim(s: &str) -> (r: &str)
    ensures
        r@ == trimmed(s@),
{
    let n = s.unicode_len();
    let mut start: usize = 0;
    assert(s@.subrange(0, n as int) =~= s@);
    while start < n
        invariant_except_break
            start <= n,
            n == s@.len(),
            trim_start(s@) == trim_start(s@.subrange(start as int, n as int)),
        ensures
            start <= n,
            trim_start(s@) == s@.subrange(start as int, n as int),
        decreases n - start,
    {
        if is_white_space(s.get_char(start)) {
            assert(s@.subrange(start as int, n as int).drop_first() =~= s@.subrange(
                start + 1,
                n as int,
            ));
            start = start + 1;
        } else {
            break;
        }
    }
    let ghost head = s@.subrange(start as int, n as int);
    let mut end: usize = n;
    assert(s@.subrange(start as int, end as int) == head);
    while end > start
        invariant_except_break
            start <= end <= n,
            n == s@.len(),
            head == s@.subrange(start as int, n as int),
            trim_end(head) == trim_end(s@.subrange(start as int, end as int)),
        ensures
            start <= end <= n,
            trim_end(head) == s@.subrange(start as int, end as int),
        decreases end - start,
    {
        if is_white_space(s.get_char(end - 1)) {
            assert(s@.subrange(start as int, end as int).drop_last() =~= s@.subrange(
                start as int,
                end - 1,
            ));
            end = end - 1;
        } else {
            break;
        }
    }
    s.substring_char(start, end)
}

/// The lookup key of a unit token: trimmed, then lowercased.
pub fn unit_key(s: &str) -> (r: String)
    ensures
        r@ == key_of(s@),
{
    lowercase(trim(s))
}

/// Whether `a` and `b` hold the same characters.
pub fn same_text(a: &str, b: &str) -> (r: bool)
    ensures
        r == (a@ == b@),
{
    let n = a.unicode_len();
    if n != b.unicode_len() {
        return false;
    }
    let mut i: usize = 0;
    while i < n
        invariant
            i <= n,
            n == a@.len(),
            n == b@.len(),
            forall|j: int| 0 <= j < i ==> a@[j] == b@[j],
        decreases n - i,
    {
        if a.get_char(i) != b.get_char(i) {
            return false;
        }
        i = i + 1;
    }
    assert(a@ =~= b@);
    true
}

} // verus!
