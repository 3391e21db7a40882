use vstd::prelude::*;

verus! {

/// The extended-length prefix that some hosts put in front of a directory path.
pub open spec fn extended_prefix() -> Seq<char> {
    seq!['\\', '\\', '?', '\\']
}

/// Whether `s` begins with the extended-length prefix.
pub open spec fn has_extended_prefix(s: Seq<char>) -> bool {
    s.len() >= 4 && s.subrange(0, 4) == extended_prefix()
}

/// A path with every leading extended-length prefix taken off.
pub open spec fn cleaned(s: Seq<char>) -> Seq<char>
    decreases s.len(),
{
    if has_extended_prefix(s) {
        cleaned(s.subrange(4, s.len() as int))
    } else {
        s
    }
}

/// Whether the part of `s` from `from` on begins with the prefix.
fn starts_with_prefix_at(s: &str, from: usize) -> (r: bool)
    requires
        from <= s@.len(),
    ensures
        r == has_extended_prefix(s@.subrange(from as int, s@.len() as int)),
{
    let n = s.unicode_len();
    if n - from < 4 {
        return false;
    }
    let a = s.get_char(from);
    let b = s.get_char(from + 1);
    let c = s.get_char(from + 2);
    let d = s.get_char(from + 3);
    let r = a == '\\' && b == '\\' && c == '?' && d == '\\';
    proof {
        let t = s@.subrange(from as int, s@.len() as int);
        if r {
            assert(t.subrange(0, 4) =~= extended_prefix());
        } else {
            assert(t.subrange(0, 4)[0] == a);
            assert(t.subrange(0, 4)[1] == b);
            assert(t.subrange(0, 4)[2] == c);
            assert(t.subrange(0, 4)[3] == d);
            assert(extended_prefix()[2] == '?');
        }
    }
    r
}

/// Takes every leading extended-length prefix off a directory path, so that
/// the result can be used as a plain filesystem path.
pub fn clean_path(path: &str) -> (r: String)
    ensures
        r@ == cleaned(path@),
{
    let n = path.unicode_len();
    let mut from: usize = 0;
    assert(path@.subrange(0, n as int) =~= path@);
    while starts_with_prefix_at(path, from)
        invariant
            from <= n,
            n == path@.len(),
            cleaned(path@) == cleaned(path@.subrange(from as int, n as int)),
        decreases n - from,
    {
        let ghost t = path@.subrange(from as int, n as int);
        assert(path@.subrange(from + 4, n as int) =~= t.subrange(4, t.len() as int));
        from = from + 4;
    }
    String::from_str(path.substring_char(from, n))
}

/// A cleaned path no longer begins with the prefix.
proof fn lemma_cleaned_has_no_prefix(s: Seq<char>)
    ensures
        !has_extended_prefix(cleaned(s)),
    decreases s.len(),
{
    if has_extended_prefix(s) {
        lemma_cleaned_has_no_prefix(s.subrange(4, s.len() as int));
    }
}

/// Cleaning is idempotent: a cleaned path is left as it is by a second
/// cleaning, and so is any path that has no extended-length prefix.
pub proof fn lemma_clean_idempotent(s: Seq<char>)
    ensures
        cleaned(cleaned(s)) == cleaned(s),
        !has_extended_prefix(s) ==> cleaned(s) == s,
{
    lemma_cleaned_has_no_prefix(s);
}

/// Cleaning a path that carries the prefix once takes off exactly the
/// prefix and nothing else.
pub proof fn lemma_clean_strips_prefix(rest: Seq<char>)
    requires
        !has_extended_prefix(rest),
    ensures
        cleaned(extended_prefix() + rest) == rest,
{
    let s = extended_prefix() + rest;
    assert(s.subrange(0, 4) =~= extended_prefix());
    assert(s.subrange(4, s.len() as int) =~= rest);
    assert(has_extended_prefix(s));
    assert(cleaned(s) == cleaned(rest));
    assert(cleaned(rest) == rest);
}

} // verus!
