//! Searching and cutting text by characters.
use vstd::prelude::*;
use vstd::string::*;

verus! {

/// `p` occurs in `s` at position `i`.
pub open spec fn occurs_at(s: Seq<char>, p: Seq<char>, i: int) -> bool {
    0 <= i && i + p.len() <= s.len() && s.subrange(i, i + p.len()) == p
}

/// The first position at or after `from` where `p` occurs in `s`.
pub open spec fn find_from(s: Seq<char>, p: Seq<char>, from: int) -> Option<int>
    decreases s.len() + 1 - from,
{
    if from < 0 || from + p.len() > s.len() {
        None
    } else if occurs_at(s, p, from) {
        Some(from)
    } else {
        find_from(s, p, from + 1)
    }
}

/// Whether `p` occurs in `s` at `i`, comparing character by character.
pub fn matches_at(s: &str, p: &str, i: usize) -> (r: bool)
    requires
        i + p@.len() <= s@.len(),
    ensures
        r == occurs_at(s@, p@, i as int),
{
    let slen = s.unicode_len();
    let n = p.unicode_len();
    let mut k: usize = 0;
    while k < n
        invariant
            slen == s@.len(),
            n == p@.len(),
            i + n <= s@.len(),
            k <= n,
            forall|q: int| 0 <= q < k ==> s@[i + q] == p@[q],
        decreases n - k,
    {
        if s.get_char(i + k) != p.get_char(k) {
            proof {
                assert(s@.subrange(i as int, i + n)[k as int] != p@[k as int]);
            }
            return false;
        }
        k = k + 1;
    }
    proof {
        assert(s@.subrange(i as int, i + n) =~= p@);
    }
    true
}

/// The first position at or after `from` where `p` occurs in `s`.
pub fn find(s: &str, p: &str, from: usize) -> (r: Option<usize>)
    requires
        p@.len() > 0,
    ensures
        r matches Some(i) ==> find_from(s@, p@, from as int) == Some(i as int),
        r is None ==> find_from(s@, p@, from as int) is None,
{
    let len = s.unicode_len();
    let plen = p.unicode_len();
    if plen > len {
        proof {
            assert(find_from(s@, p@, from as int) is None);
        }
        return None;
    }
    let mut i: usize = from;
    while i <= len - plen
        invariant
            len == s@.len(),
            plen == p@.len(),
            0 < plen <= len,
            from <= i,
            find_from(s@, p@, from as int) == find_from(s@, p@, i as int),
        decreases len - i,
    {
        if matches_at(s, p, i) {
            return Some(i);
        }
        i = i + 1;
    }
    None
}

/// `s` begins with `p`.
pub open spec fn begins_with(s: Seq<char>, p: Seq<char>) -> bool {
    p.len() <= s.len() && s.subrange(0, p.len() as int) == p
}

pub fn starts_with_text(s: &str, p: &str) -> (r: bool)
    ensures
        r == begins_with(s@, p@),
{
    if p.unicode_len() <= s.unicode_len() {
        matches_at(s, p, 0)
    } else {
        false
    }
}

/// The text of `s` from character `from` to its end.
pub fn tail_from(s: &str, from: usize) -> (r: String)
    requires
        from <= s@.len(),
    ensures
        r@ == s@.subrange(from as int, s@.len() as int),
{
    let len = s.unicode_len();
    String::from_str(s.substring_char(from, len))
}

/// The text of `s` between characters `from` and `to`.
pub fn slice_of(s: &str, from: usize, to: usize) -> (r: String)
    requires
        from <= to <= s@.len(),
    ensures
        r@ == s@.subrange(from as int, to as int),
{
    String::from_str(s.substring_char(from, to))
}

/// The position just past the `n`-th `'/'` of `s` searched from `from`, if
/// there are that many.
pub open spec fn after_slashes(s: Seq<char>, from: int, n: nat) -> Option<int>
    decreases n,
{
    if n == 0 {
        Some(from)
    } else {
        match find_from(s, seq!['/'], from) {
            None => None,
            Some(i) => after_slashes(s, i + 1, (n - 1) as nat),
        }
    }
}

/// What follows the third `'/'` of `s` (an address's path without its
/// leading slash), or nothing when `s` has fewer than three.
pub open spec fn path_of(s: Seq<char>) -> Seq<char> {
    match after_slashes(s, 0, 3) {
        Some(i) => s.subrange(i, s.len() as int),
        None => Seq::empty(),
    }
}

/// A found position lies at or after the start of the search, and the
/// pattern fits in the text from there.
pub proof fn lemma_find_from_bounds(s: Seq<char>, p: Seq<char>, from: int)
    ensures
        find_from(s, p, from) matches Some(i) ==> 0 <= from <= i && i + p.len() <= s.len() && occurs_at(s, p, i),
    decreases s.len() + 1 - from,
{
    if from < 0 || from + p.len() > s.len() {
    } else if occurs_at(s, p, from) {
    } else {
        lemma_find_from_bounds(s, p, from + 1);
    }
}

/// The text after the third `'/'` of `url`, or the empty text when there are
/// fewer than three.
pub fn path_after_host(url: &str) -> (r: String)
    ensures
        r@ == path_of(url@),
{
    let len = url.unicode_len();
    let slash = "/";
    proof {
        reveal_strlit("/");
    }
    let mut pos: usize = 0;
    let mut k: usize = 0;
    while k < 3
        invariant
            slash@ == seq!['/'],
            len == url@.len(),
            k <= 3,
            pos <= url@.len(),
            after_slashes(url@, 0, 3) == after_slashes(url@, pos as int, (3 - k) as nat),
        decreases 3 - k,
    {
        match find(url, slash, pos) {
            Some(i) => {
                proof {
                    lemma_find_from_bounds(url@, seq!['/'], pos as int);
                }
                pos = i + 1;
            },
            None => {
                return String::new();
            },
        }
        k = k + 1;
    }
    tail_from(url, pos)
}

} // verus!
