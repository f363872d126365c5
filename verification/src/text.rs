//! Character-level helpers on `str` views: slash trimming and UTF-8 facts.

use vstd::prelude::*;
use vstd::string::*;
use vstd::utf8::*;

verus! {

/// `s` with every trailing `'/'` removed (what `str::trim_end_matches('/')` gives).
pub open spec fn trim_end_slashes(s: Seq<char>) -> Seq<char>
    decreases s.len(),
{
    if s.len() > 0 && s.last() == '/' {
        trim_end_slashes(s.drop_last())
    } else {
        s
    }
}

/// `s` with every leading `'/'` removed (what `str::trim_start_matches('/')` gives).
pub open spec fn trim_start_slashes(s: Seq<char>) -> Seq<char>
    decreases s.len(),
{
    if s.len() > 0 && s.first() == '/' {
        trim_start_slashes(s.drop_first())
    } else {
        s
    }
}

/// Appending slashes does not change what trimming trailing slashes gives.
pub proof fn lemma_trim_end_slashes_push(s: Seq<char>)
    ensures
        trim_end_slashes(s.push('/')) == trim_end_slashes(s),
{
    assert(s.push('/').drop_last() =~= s);
}

/// Prepending a slash does not change what trimming leading slashes gives.
pub proof fn lemma_trim_start_slashes_prepend(s: Seq<char>)
    ensures
        trim_start_slashes(seq!['/'] + s) == trim_start_slashes(s),
{
    assert((seq!['/'] + s).drop_first() =~= s);
}

/// Without a trailing slash, trimming changes nothing.
pub proof fn lemma_trim_end_no_slash(s: Seq<char>)
    requires
        s.len() == 0 || s.last() != '/',
    ensures
        trim_end_slashes(s) == s,
{
}

/// Without a leading slash, trimming changes nothing.
pub proof fn lemma_trim_start_no_slash(s: Seq<char>)
    requires
        s.len() == 0 || s.first() != '/',
    ensures
        trim_start_slashes(s) == s,
{
}

/// The view of `s` with its trailing slashes removed.
pub fn trim_end_slash_chars(s: &str) -> (r: &str)
    ensures
        r@ == trim_end_slashes(s@),
{
    let n = s.unicode_len();
    let mut end: usize = n;
    proof {
        assert(s@.subrange(0, end as int) =~= s@);
    }
    while end > 0 && s.get_char(end - 1) == '/'
        invariant
            n == s@.len(),
            end <= n,
            trim_end_slashes(s@.subrange(0, end as int)) == trim_end_slashes(s@),
        decreases end,
    {
        proof {
            assert(s@.subrange(0, end as int).drop_last() =~= s@.subrange(0, end - 1));
        }
        end = end - 1;
    }
    proof {
        lemma_trim_end_no_slash(s@.subrange(0, end as int));
    }
    s.substring_char(0, end)
}

/// The view of `s` with its leading slashes removed.
pub fn trim_start_slash_chars(s: &str) -> (r: &str)
    ensures
        r@ == trim_start_slashes(s@),
{
    let n = s.unicode_len();
    let mut start: usize = 0;
    proof {
        assert(s@.subrange(0, n as int) =~= s@);
    }
    while start < n && s.get_char(start) == '/'
        invariant
            n == s@.len(),
            start <= n,
            trim_start_slashes(s@.subrange(start as int, n as int)) == trim_start_slashes(s@),
        decreases n - start,
    {
        proof {
            assert(s@.subrange(start as int, n as int).drop_first() =~= s@.subrange(
                start + 1,
                n as int,
            ));
        }
        start = start + 1;
    }
    proof {
        lemma_trim_start_no_slash(s@.subrange(start as int, n as int));
    }
    s.substring_char(start, n)
}

/// UTF-8 encoding distributes over concatenation.
pub proof fn lemma_encode_utf8_concat(a: Seq<char>, b: Seq<char>)
    ensures
        encode_utf8(a + b) == encode_utf8(a) + encode_utf8(b),
    decreases a.len(),
{
    if a.len() == 0 {
        assert(a + b =~= b);
        assert(encode_utf8(a) =~= Seq::<u8>::empty());
        assert(encode_utf8(a) + encode_utf8(b) =~= encode_utf8(b));
    } else {
        assert((a + b).drop_first() =~= a.drop_first() + b);
        lemma_encode_utf8_concat(a.drop_first(), b);
        assert(encode_utf8(a + b) =~= encode_scalar(a[0] as u32) + encode_utf8(a.drop_first() + b));
        assert(encode_utf8(a) + encode_utf8(b) =~= encode_scalar(a[0] as u32) + (encode_utf8(
            a.drop_first(),
        ) + encode_utf8(b)));
    }
}

} // verus!
