//! Byte-sequence helpers: copying, equality, and first-occurrence search.
//! The session registry is a byte file, and its contracts are stated over
//! `first_match_from`, the mathematical "first occurrence at or after" search
//! that `find_first` implements.

use vstd::prelude::*;

verus! {

/// `needle` occurs in `hay` at position `i`.
pub open spec fn match_at(hay: Seq<u8>, needle: Seq<u8>, i: int) -> bool {
    0 <= i && i + needle.len() <= hay.len() && hay.subrange(i, i + needle.len()) == needle
}

/// The first position `>= from` at which `needle` occurs in `hay`, if any.
pub open spec fn first_match_from(hay: Seq<u8>, needle: Seq<u8>, from: int) -> Option<int>
    decreases hay.len() + 1 - from,
{
    if from < 0 || from + needle.len() > hay.len() {
        None
    } else if hay.subrange(from, from + needle.len()) == needle {
        Some(from)
    } else {
        first_match_from(hay, needle, from + 1)
    }
}

/// `needle` occurs somewhere in `hay` at or after `from`.
pub open spec fn contains_from(hay: Seq<u8>, needle: Seq<u8>, from: int) -> bool {
    first_match_from(hay, needle, from) is Some
}

/// What `first_match_from` answers is exactly the first occurrence: a `None`
/// means no occurrence at or after `from`, and a `Some(i)` means an
/// occurrence at `i` and none between `from` and `i`.
pub proof fn lemma_first_match_from(hay: Seq<u8>, needle: Seq<u8>, from: int)
    requires
        0 <= from,
    ensures
        first_match_from(hay, needle, from) is None ==> forall|i: int|
            i >= from ==> !match_at(hay, needle, i),
        first_match_from(hay, needle, from) matches Some(i) ==> {
            &&& i >= from
            &&& match_at(hay, needle, i)
            &&& forall|j: int| from <= j < i ==> !match_at(hay, needle, j)
        },
    decreases hay.len() + 1 - from,
{
    if from + needle.len() > hay.len() {
    } else if hay.subrange(from, from + needle.len()) == needle {
    } else {
        lemma_first_match_from(hay, needle, from + 1);
    }
}

/// An occurrence at `i >= from` forces `first_match_from` to find something.
pub proof fn lemma_match_at_implies_found(hay: Seq<u8>, needle: Seq<u8>, from: int, i: int)
    requires
        0 <= from <= i,
        match_at(hay, needle, i),
    ensures
        contains_from(hay, needle, from),
    decreases i - from,
{
    if from == i {
    } else if hay.subrange(from, from + needle.len()) == needle {
    } else {
        lemma_match_at_implies_found(hay, needle, from + 1, i);
    }
}

/// An occurrence at `i` with no occurrence between `from` and `i` is exactly
/// what `first_match_from` finds.
pub proof fn lemma_first_match_at(hay: Seq<u8>, needle: Seq<u8>, from: int, i: int)
    requires
        0 <= from <= i,
        match_at(hay, needle, i),
        forall|j: int| from <= j < i ==> !match_at(hay, needle, j),
    ensures
        first_match_from(hay, needle, from) == Some(i),
    decreases i - from,
{
    if from == i {
    } else {
        assert(!match_at(hay, needle, from));
        assert(from + needle.len() <= hay.len());
        assert(hay.subrange(from, from + needle.len() as int) != needle);
        lemma_first_match_at(hay, needle, from + 1, i);
    }
}

/// Fresh copy of a byte vector.
pub fn copy_bytes(src: &Vec<u8>) -> (out: Vec<u8>)
    ensures
        out@ == src@,
{
    let mut out: Vec<u8> = Vec::new();
    let mut i: usize = 0;
    assert(out@ =~= src@.subrange(0, 0));
    while i < src.len()
        invariant
            i <= src@.len(),
            out@ == src@.subrange(0, i as int),
        decreases src@.len() - i,
    {
        out.push(src[i]);
        i = i + 1;
        assert(out@ =~= src@.subrange(0, i as int));
    }
    assert(out@ =~= src@);
    out
}

/// Appends `src` at the end of `out`.
pub fn append_bytes(out: &mut Vec<u8>, src: &Vec<u8>)
    ensures
        final(out)@ == old(out)@ + src@,
{
    let mut i: usize = 0;
    assert(out@ =~= old(out)@ + src@.subrange(0, 0));
    while i < src.len()
        invariant
            i <= src@.len(),
            out@ == old(out)@ + src@.subrange(0, i as int),
        decreases src@.len() - i,
    {
        out.push(src[i]);
        i = i + 1;
        assert(out@ =~= old(out)@ + src@.subrange(0, i as int));
    }
    assert(out@ =~= old(out)@ + src@);
}

/// Fresh copy of the byte range `[a, b)` of `src`.
pub fn copy_range(src: &Vec<u8>, a: usize, b: usize) -> (out: Vec<u8>)
    requires
        a <= b <= src@.len(),
    ensures
        out@ == src@.subrange(a as int, b as int),
{
    let mut out: Vec<u8> = Vec::new();
    let mut i: usize = a;
    assert(out@ =~= src@.subrange(a as int, a as int));
    while i < b
        invariant
            a <= i <= b <= src@.len(),
            out@ == src@.subrange(a as int, i as int),
        decreases b - i,
    {
        out.push(src[i]);
        i = i + 1;
        assert(out@ =~= src@.subrange(a as int, i as int));
    }
    out
}

/// Byte-for-byte equality.
pub fn bytes_eq(a: &Vec<u8>, b: &Vec<u8>) -> (r: bool)
    ensures
        r == (a@ == b@),
{
    if a.len() != b.len() {
        return false;
    }
    let mut i: usize = 0;
    while i < a.len()
        invariant
            a@.len() == b@.len(),
            i <= a@.len(),
            forall|k: int| 0 <= k < i ==> a@[k] == b@[k],
        decreases a@.len() - i,
    {
        if a[i] != b[i] {
            return false;
        }
        i = i + 1;
    }
    assert(a@ =~= b@);
    true
}

/// Finds the first occurrence of `needle` in `hay` at or after `from`.
pub fn find_first(hay: &Vec<u8>, needle: &Vec<u8>, from: usize) -> (r: Option<usize>)
    requires
        from <= hay@.len(),
        needle@.len() >= 1,
    ensures
        match r {
            Some(i) => first_match_from(hay@, needle@, from as int) == Some(i as int),
            None => first_match_from(hay@, needle@, from as int) is None,
        },
{
    let hlen = hay.len();
    let nlen = needle.len();
    if nlen > hlen {
        return None;
    }
    let last = hlen - nlen;
    let mut i: usize = from;
    while i <= last
        invariant
            from <= i,
            hlen == hay@.len(),
            nlen == needle@.len(),
            1 <= nlen <= hlen,
            last == hlen - nlen,
            first_match_from(hay@, needle@, from as int) == first_match_from(
                hay@,
                needle@,
                i as int,
            ),
        decreases last + 1 - i,
    {
        let mut j: usize = 0;
        let mut matched = true;
        while j < nlen
            invariant
                hlen == hay@.len(),
                nlen == needle@.len(),
                i + nlen <= hlen,
                j <= nlen,
                matched ==> forall|k: int| 0 <= k < j ==> hay@[i + k] == needle@[k],
                !matched ==> hay@.subrange(i as int, i + needle@.len()) != needle@,
            decreases nlen - j,
        {
            if hay[i + j] != needle[j] {
                assert(hay@.subrange(i as int, i + needle@.len())[j as int] == hay@[i + j]);
                matched = false;
                j = nlen;
            } else {
                j = j + 1;
            }
        }
        if matched {
            assert(hay@.subrange(i as int, i + needle@.len()) =~= needle@);
            return Some(i);
        }
        assert(first_match_from(hay@, needle@, i as int) == first_match_from(
            hay@,
            needle@,
            i + 1,
        ));
        i = i + 1;
    }
    assert(first_match_from(hay@, needle@, i as int) is None);
    None
}

} // verus!
