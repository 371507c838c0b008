//! Character-level string helpers with specifications over `Seq<char>`.

use vstd::prelude::*;

verus! {

/// Number of occurrences of `c` in `s`.
pub open spec fn count_char(s: Seq<char>, c: char) -> nat
    decreases s.len(),
{
    if s.len() == 0 {
        0
    } else {
        count_char(s.drop_last(), c) + if s.last() == c { 1nat } else { 0nat }
    }
}

/// The pieces of `s` between occurrences of `sep`, as `str::split(sep)` yields them:
/// always at least one piece, empty pieces included.
pub open spec fn split_char(s: Seq<char>, sep: char) -> Seq<Seq<char>>
    decreases s.len(),
{
    if s.len() == 0 {
        seq![Seq::<char>::empty()]
    } else {
        let pieces = split_char(s.drop_last(), sep);
        if s.last() == sep {
            pieces.push(Seq::<char>::empty())
        } else {
            pieces.update(pieces.len() - 1, pieces.last().push(s.last()))
        }
    }
}

/// Glue `pieces` back together with `sep` between consecutive pieces.
pub open spec fn join_char(pieces: Seq<Seq<char>>, sep: char) -> Seq<char>
    decreases pieces.len(),
{
    if pieces.len() == 0 {
        Seq::<char>::empty()
    } else if pieces.len() == 1 {
        pieces[0]
    } else {
        join_char(pieces.drop_last(), sep).push(sep) + pieces.last()
    }
}

/// `s` begins with `prefix`.
pub open spec fn has_prefix(s: Seq<char>, prefix: Seq<char>) -> bool {
    prefix.len() <= s.len() && s.subrange(0, prefix.len() as int) == prefix
}

/// `split_char` never yields an empty list of pieces, and yields one more piece
/// than there are separators.
pub proof fn lemma_split_len(s: Seq<char>, sep: char)
    ensures
        split_char(s, sep).len() == count_char(s, sep) + 1,
    decreases s.len(),
{
    if s.len() > 0 {
        lemma_split_len(s.drop_last(), sep);
    }
}

/// Splitting on `sep` and joining with `sep` gives back the original string.
pub proof fn lemma_join_split(s: Seq<char>, sep: char)
    ensures
        join_char(split_char(s, sep), sep) == s,
    decreases s.len(),
{
    if s.len() > 0 {
        let init = s.drop_last();
        lemma_join_split(init, sep);
        lemma_split_len(init, sep);
        let pieces = split_char(init, sep);
        if s.last() == sep {
            let np = pieces.push(Seq::<char>::empty());
            assert(np.drop_last() == pieces);
            assert(join_char(np, sep) == join_char(pieces, sep).push(sep) + Seq::<char>::empty());
            assert(s == init.push(sep));
        } else {
            let np = pieces.update(pieces.len() - 1, pieces.last().push(s.last()));
            if pieces.len() == 1 {
                assert(np[0] == pieces[0].push(s.last()));
                assert(s == init.push(s.last()));
            } else {
                assert(np.drop_last() == pieces.drop_last());
                assert(join_char(np, sep) == join_char(pieces.drop_last(), sep).push(sep)
                    + pieces.last().push(s.last()));
                assert(join_char(pieces, sep) == join_char(pieces.drop_last(), sep).push(sep)
                    + pieces.last());
                assert(s == init.push(s.last()));
                assert((join_char(pieces.drop_last(), sep).push(sep) + pieces.last()).push(s.last())
                    == join_char(pieces.drop_last(), sep).push(sep) + pieces.last().push(s.last()));
            }
        }
    }
}

/// Counting distributes over concatenation.
pub proof fn lemma_count_concat(a: Seq<char>, b: Seq<char>, c: char)
    ensures
        count_char(a + b, c) == count_char(a, c) + count_char(b, c),
    decreases b.len(),
{
    if b.len() > 0 {
        lemma_count_concat(a, b.drop_last(), c);
        assert((a + b).drop_last() == a + b.drop_last());
    }
}

/// A string free of the separator is a single piece.
pub proof fn lemma_split_no_sep(s: Seq<char>, sep: char)
    requires
        !s.contains(sep),
    ensures
        split_char(s, sep) == seq![s],
    decreases s.len(),
{
    if s.len() > 0 {
        assert(!s.drop_last().contains(sep)) by {
            if s.drop_last().contains(sep) {
                let k = choose|k: int| 0 <= k < s.drop_last().len() && s.drop_last()[k] == sep;
                assert(s[k] == sep);
            }
        }
        lemma_split_no_sep(s.drop_last(), sep);
        assert(s.last() != sep) by {
            assert(s[s.len() - 1] == s.last());
        }
        assert(s.drop_last().push(s.last()) == s);
    } else {
        assert(s == Seq::<char>::empty());
    }
}

/// A separator between `a` and `b` splits the pieces of `a` from those of `b`.
pub proof fn lemma_split_concat_sep(a: Seq<char>, b: Seq<char>, sep: char)
    ensures
        split_char(a.push(sep) + b, sep) == split_char(a, sep) + split_char(b, sep),
    decreases b.len(),
{
    if b.len() == 0 {
        assert(a.push(sep) + b == a.push(sep));
        assert(a.push(sep).drop_last() == a);
        assert(split_char(a, sep).push(Seq::<char>::empty()) == split_char(a, sep) + seq![
            Seq::<char>::empty(),
        ]);
    } else {
        let bi = b.drop_last();
        lemma_split_concat_sep(a, bi, sep);
        lemma_split_len(bi, sep);
        assert((a.push(sep) + b).drop_last() == a.push(sep) + bi);
        assert((a.push(sep) + b).last() == b.last());
        let x = split_char(a, sep);
        let y = split_char(bi, sep);
        if b.last() == sep {
            assert((x + y).push(Seq::<char>::empty()) == x + y.push(Seq::<char>::empty()));
        } else {
            assert((x + y).update((x + y).len() - 1, (x + y).last().push(b.last())) == x
                + y.update(y.len() - 1, y.last().push(b.last())));
        }
    }
}

/// The characters of `s`, in order.
pub fn chars_of(s: &str) -> (res: Vec<char>)
    ensures
        res@ == s@,
{
    broadcast use vstd::string::group_string_axioms;
    let mut res: Vec<char> = Vec::new();
    for c in it: s.chars()
        invariant
            it.seq() == s@,
            res@ == s@.take(it.index() as int),
    {
        proof {
            assert(s@.take(it.index() + 1) == s@.take(it.index() as int).push(c));
        }
        res.push(c);
    }
    assert(s@.take(s@.len() as int) == s@);
    res
}

/// Number of occurrences of `c` in `s`.
pub fn count_occurrences(s: &str, c: char) -> (res: usize)
    ensures
        res == count_char(s@, c),
{
    let cs = chars_of(s);
    let mut n: usize = 0;
    let mut i: usize = 0;
    while i < cs.len()
        invariant
            cs@ == s@,
            i <= cs.len(),
            n == count_char(s@.subrange(0, i as int), c),
            n <= i,
        decreases cs.len() - i,
    {
        assert(s@.subrange(0, i + 1).drop_last() == s@.subrange(0, i as int));
        if cs[i] == c {
            n = n + 1;
        }
        i = i + 1;
    }
    assert(s@.subrange(0, cs.len() as int) == s@);
    n
}

/// `s` contains the character `c`.
pub fn contains_char(s: &str, c: char) -> (res: bool)
    ensures
        res == s@.contains(c),
{
    let cs = chars_of(s);
    let mut i: usize = 0;
    while i < cs.len()
        invariant
            cs@ == s@,
            i <= cs.len(),
            forall|j: int| 0 <= j < i ==> s@[j] != c,
        decreases cs.len() - i,
    {
        if cs[i] == c {
            return true;
        }
        i = i + 1;
    }
    false
}

/// `s` begins with `prefix`.
pub fn starts_with(s: &str, prefix: &str) -> (res: bool)
    ensures
        res == has_prefix(s@, prefix@),
{
    let cs = chars_of(s);
    let ps = chars_of(prefix);
    if ps.len() > cs.len() {
        return false;
    }
    let mut i: usize = 0;
    while i < ps.len()
        invariant
            cs@ == s@,
            ps@ == prefix@,
            ps.len() <= cs.len(),
            i <= ps.len(),
            forall|j: int| 0 <= j < i ==> s@[j] == prefix@[j],
        decreases ps.len() - i,
    {
        if cs[i] != ps[i] {
            assert(s@.subrange(0, prefix@.len() as int)[i as int] != prefix@[i as int]);
            return false;
        }
        i = i + 1;
    }
    assert(s@.subrange(0, prefix@.len() as int) == prefix@);
    true
}

/// The pieces of `s` between occurrences of `sep`, like `s.split(sep)`.
pub fn split_on(s: &str, sep: char) -> (res: Vec<String>)
    ensures
        res@.len() == split_char(s@, sep).len(),
        forall|i: int| 0 <= i < res@.len() ==> #[trigger] res@[i]@ == split_char(s@, sep)[i],
{
    let cs = chars_of(s);
    let n = cs.len();
    let mut res: Vec<String> = Vec::new();
    let mut start: usize = 0;
    let mut i: usize = 0;
    while i < n
        invariant
            cs@ == s@,
            n == cs.len(),
            start <= i <= n,
            res@.len() + 1 == split_char(s@.subrange(0, i as int), sep).len(),
            forall|k: int|
                0 <= k < res@.len() ==> #[trigger] res@[k]@ == split_char(
                    s@.subrange(0, i as int),
                    sep,
                )[k],
            split_char(s@.subrange(0, i as int), sep).last() == s@.subrange(start as int, i as int),
        decreases n - i,
    {
        let ghost prefix = s@.subrange(0, i as int);
        assert(s@.subrange(0, i + 1).drop_last() == prefix);
        if cs[i] == sep {
            let piece = String::from_str(s.substring_char(start, i));
            res.push(piece);
            start = i + 1;
            assert(s@.subrange(start as int, i + 1) == Seq::<char>::empty());
        } else {
            assert(s@.subrange(start as int, i + 1) == s@.subrange(start as int, i as int).push(
                s@[i as int],
            ));
        }
        i = i + 1;
    }
    let piece = String::from_str(s.substring_char(start, n));
    res.push(piece);
    assert(s@.subrange(0, n as int) == s@);
    res
}

} // verus!
