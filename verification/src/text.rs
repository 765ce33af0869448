//! Searching byte strings: the control channel is ASCII text carried as bytes.

use vstd::prelude::*;

verus! {

/// `needle` stands in `hay` at offset `i`.
pub open spec fn occurs_at(hay: Seq<u8>, needle: Seq<u8>, i: int) -> bool {
    &&& 0 <= i
    &&& i + needle.len() <= hay.len()
    &&& hay.subrange(i, i + needle.len()) == needle
}

/// `needle` stands somewhere in `hay`.
pub open spec fn contains(hay: Seq<u8>, needle: Seq<u8>) -> bool {
    exists|i: int| occurs_at(hay, needle, i)
}

/// `i` is the first offset at which `needle` stands in `hay`.
pub open spec fn first_at(hay: Seq<u8>, needle: Seq<u8>, i: int) -> bool {
    &&& occurs_at(hay, needle, i)
    &&& forall|j: int| 0 <= j < i ==> !occurs_at(hay, needle, j)
}

/// Offset of the first occurrence of `needle` in `hay`.
pub open spec fn find_first(hay: Seq<u8>, needle: Seq<u8>) -> Option<int> {
    if contains(hay, needle) {
        Some(choose|i: int| first_at(hay, needle, i))
    } else {
        None
    }
}

/// The first occurrence is the one that `find_first` names.
pub proof fn lemma_find_first(hay: Seq<u8>, needle: Seq<u8>, i: int)
    requires
        first_at(hay, needle, i),
    ensures
        find_first(hay, needle) == Some(i),
{
    assert(contains(hay, needle));
    let j = choose|j: int| first_at(hay, needle, j);
    if j < i {
        assert(!occurs_at(hay, needle, j));
    }
    if i < j {
        assert(!occurs_at(hay, needle, i));
    }
}

/// `hay` begins with `prefix`.
pub open spec fn starts_with(hay: Seq<u8>, prefix: Seq<u8>) -> bool {
    occurs_at(hay, prefix, 0)
}

/// `hay` ends with `suffix`.
pub open spec fn ends_with(hay: Seq<u8>, suffix: Seq<u8>) -> bool {
    occurs_at(hay, suffix, hay.len() - suffix.len())
}

/// Offset of the first `byte` in `hay`, or the length of `hay` when there is none.
pub open spec fn index_of(hay: Seq<u8>, byte: u8) -> int
    decreases hay.len(),
{
    if hay.len() == 0 {
        0
    } else if hay[0] == byte {
        0
    } else {
        1 + index_of(hay.skip(1), byte)
    }
}

/// `index_of` stays within the sequence, points at `byte` when it is inside,
/// and nothing before it equals `byte`.
pub proof fn lemma_index_of(hay: Seq<u8>, byte: u8)
    ensures
        0 <= index_of(hay, byte) <= hay.len(),
        index_of(hay, byte) < hay.len() ==> hay[index_of(hay, byte)] == byte,
        forall|j: int| 0 <= j < index_of(hay, byte) ==> hay[j] != byte,
    decreases hay.len(),
{
    if hay.len() > 0 && hay[0] != byte {
        let rest = hay.skip(1);
        lemma_index_of(rest, byte);
        assert forall|j: int| 0 <= j < index_of(hay, byte) implies hay[j] != byte by {
            if j > 0 {
                assert(rest[j - 1] == hay[j]);
            }
        }
    }
}

/// Any offset before which `byte` does not occur, and which holds `byte` or is
/// the end, is `index_of`.
pub proof fn lemma_index_of_unique(hay: Seq<u8>, byte: u8, k: int)
    requires
        0 <= k <= hay.len(),
        forall|j: int| 0 <= j < k ==> hay[j] != byte,
        k < hay.len() ==> hay[k] == byte,
    ensures
        index_of(hay, byte) == k,
{
    lemma_index_of(hay, byte);
}

/// Whether `needle` stands in `hay` at offset `at`.
pub fn matches_at(hay: &[u8], needle: &[u8], at: usize) -> (r: bool)
    ensures
        r == occurs_at(hay@, needle@, at as int),
{
    if at > hay.len() || needle.len() > hay.len() - at {
        return false;
    }
    let mut k: usize = 0;
    while k < needle.len()
        invariant
            at + needle.len() <= hay.len(),
            k <= needle.len(),
            forall|j: int| 0 <= j < k ==> hay@[at + j] == needle@[j],
        decreases needle.len() - k,
    {
        if hay[at + k] != needle[k] {
            proof {
                let window = hay@.subrange(at as int, at + needle.len());
                assert(window[k as int] == hay@[at + k]);
            }
            return false;
        }
        k += 1;
    }
    assert(hay@.subrange(at as int, at + needle.len()) =~= needle@);
    true
}

/// Offset of the first occurrence of `needle` in `hay`.
pub fn find(hay: &[u8], needle: &[u8]) -> (r: Option<usize>)
    ensures
        match r {
            Some(i) => first_at(hay@, needle@, i as int) && find_first(hay@, needle@) == Some(
                i as int,
            ),
            None => !contains(hay@, needle@) && find_first(hay@, needle@).is_none(),
        },
{
    if needle.len() > hay.len() {
        return None;
    }
    let last: usize = hay.len() - needle.len();
    let mut i: usize = 0;
    loop
        invariant
            last == hay.len() - needle.len(),
            i <= last,
            forall|j: int| 0 <= j < i ==> !occurs_at(hay@, needle@, j),
        decreases last - i,
    {
        if matches_at(hay, needle, i) {
            proof {
                lemma_find_first(hay@, needle@, i as int);
            }
            return Some(i);
        }
        if i == last {
            return None;
        }
        i += 1;
    }
}

/// Whether `needle` stands somewhere in `hay`.
pub fn contains_bytes(hay: &[u8], needle: &[u8]) -> (r: bool)
    ensures
        r == contains(hay@, needle@),
{
    find(hay, needle).is_some()
}

/// Whether `hay` begins with `prefix`.
pub fn has_prefix(hay: &[u8], prefix: &[u8]) -> (r: bool)
    ensures
        r == starts_with(hay@, prefix@),
{
    matches_at(hay, prefix, 0)
}

/// Whether `hay` ends with `suffix`.
pub fn has_suffix(hay: &[u8], suffix: &[u8]) -> (r: bool)
    ensures
        r == ends_with(hay@, suffix@),
{
    if suffix.len() > hay.len() {
        return false;
    }
    matches_at(hay, suffix, hay.len() - suffix.len())
}

/// Offset of the first `byte` in `hay`.
pub fn position(hay: &[u8], byte: u8) -> (r: Option<usize>)
    ensures
        match r {
            Some(i) => i < hay@.len() && i == index_of(hay@, byte),
            None => index_of(hay@, byte) == hay@.len(),
        },
{
    let mut i: usize = 0;
    while i < hay.len()
        invariant
            i <= hay.len(),
            forall|j: int| 0 <= j < i ==> hay@[j] != byte,
        decreases hay.len() - i,
    {
        if hay[i] == byte {
            proof {
                lemma_index_of_unique(hay@, byte, i as int);
            }
            return Some(i);
        }
        i += 1;
    }
    proof {
        lemma_index_of_unique(hay@, byte, hay@.len() as int);
    }
    None
}

/// Whether two byte strings are the same.
pub fn same_bytes(a: &[u8], b: &[u8]) -> (r: bool)
    ensures
        r == (a@ == b@),
{
    if a.len() != b.len() {
        return false;
    }
    let r = matches_at(a, b, 0);
    assert(a@.subrange(0, a@.len() as int) =~= a@);
    r
}

} // verus!
