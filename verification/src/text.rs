//! Small verified helpers on strings: views of string lists, concatenation,
//! and cutting a string at a separator.

use vstd::prelude::*;

verus! {

/// The character sequences of a list of strings, in order.
pub open spec fn views_of(strings: Seq<String>) -> Seq<Seq<char>> {
    strings.map_values(|s: String| s@)
}

/// `s` cut at every occurrence of `sep`. A string with `n` separators has
/// `n + 1` pieces; pieces between adjacent separators, or at either end, are
/// empty. The empty string has the one empty piece.
pub open spec fn split_on(s: Seq<char>, sep: char) -> Seq<Seq<char>>
    decreases s.len(),
{
    if s.len() == 0 {
        seq![Seq::<char>::empty()]
    } else {
        let before = split_on(s.drop_last(), sep);
        if s.last() == sep {
            before.push(Seq::<char>::empty())
        } else {
            before.drop_last().push(before.last().push(s.last()))
        }
    }
}

/// The pieces with `sep` between each two neighbours.
pub open spec fn join_with(pieces: Seq<Seq<char>>, sep: char) -> Seq<char>
    decreases pieces.len(),
{
    if pieces.len() == 0 {
        Seq::<char>::empty()
    } else if pieces.len() == 1 {
        pieces[0]
    } else {
        join_with(pieces.drop_last(), sep).push(sep) + pieces.last()
    }
}

/// A split loses nothing and cuts everywhere: there is at least one piece,
/// no piece holds the separator, and the pieces with the separator put back
/// between them are the string that was split.
pub proof fn law_split_rejoins(s: Seq<char>, sep: char)
    ensures
        split_on(s, sep).len() >= 1,
        forall|i: int, j: int|
            0 <= i < split_on(s, sep).len() && 0 <= j < split_on(s, sep)[i].len()
                ==> split_on(s, sep)[i][j] != sep,
        join_with(split_on(s, sep), sep) == s,
    decreases s.len(),
{
    if s.len() > 0 {
        let before = split_on(s.drop_last(), sep);
        let pieces = split_on(s, sep);
        law_split_rejoins(s.drop_last(), sep);
        assert(s =~= s.drop_last().push(s.last()));
        if s.last() == sep {
            assert(pieces.drop_last() =~= before);
            assert(join_with(pieces, sep) =~= s);
        } else if before.len() == 1 {
            assert(join_with(pieces, sep) =~= s);
        } else {
            assert(pieces.drop_last() =~= before.drop_last());
            assert(join_with(pieces, sep) =~= join_with(before, sep).push(s.last()));
        }
    }
}

/// Two strings, one after the other.
pub fn concat2(a: &str, b: &str) -> (joined: String)
    ensures
        joined@ == a@ + b@,
{
    let mut joined = a.to_owned();
    joined.append(b);
    joined
}

/// Four strings, one after the other.
pub fn concat4(a: &str, b: &str, c: &str, d: &str) -> (joined: String)
    ensures
        joined@ == a@ + b@ + c@ + d@,
{
    let mut joined = a.to_owned();
    joined.append(b);
    joined.append(c);
    joined.append(d);
    joined
}

/// Cuts `s` at every occurrence of `sep`.
pub fn split(s: &str, sep: char) -> (pieces: Vec<String>)
    ensures
        views_of(pieces@) == split_on(s@, sep),
{
    let n: usize = s.unicode_len();
    let mut pieces: Vec<String> = Vec::new();
    let mut start: usize = 0;
    let mut i: usize = 0;
    assert(s@.subrange(0, 0) =~= Seq::<char>::empty());
    assert(views_of(pieces@) =~= Seq::<Seq<char>>::empty());
    assert(split_on(s@.subrange(0, 0), sep) =~= views_of(pieces@).push(s@.subrange(0, 0)));
    while i < n
        invariant
            n == s@.len(),
            start <= i <= n,
            split_on(s@.subrange(0, i as int), sep) == views_of(pieces@).push(
                s@.subrange(start as int, i as int),
            ),
        decreases n - i,
    {
        let c = s.get_char(i);
        let ghost done = views_of(pieces@);
        let ghost prefix = s@.subrange(0, i + 1);
        proof {
            assert(prefix.drop_last() =~= s@.subrange(0, i as int));
            assert(prefix.last() == c);
        }
        if c == sep {
            let piece = s.substring_char(start, i).to_owned();
            pieces.push(piece);
            start = i + 1;
            proof {
                assert(views_of(pieces@) =~= done.push(piece@));
                assert(s@.subrange(start as int, i + 1) =~= Seq::<char>::empty());
            }
        } else {
            proof {
                let before = done.push(s@.subrange(start as int, i as int));
                assert(before.drop_last() =~= done);
                assert(before.last().push(c) =~= s@.subrange(start as int, i + 1));
            }
        }
        i = i + 1;
    }
    let piece = s.substring_char(start, n).to_owned();
    let ghost done = views_of(pieces@);
    pieces.push(piece);
    proof {
        assert(s@.subrange(0, n as int) =~= s@);
        assert(views_of(pieces@) =~= done.push(piece@));
    }
    pieces
}

} // verus!
