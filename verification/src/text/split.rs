//! Splitting text at a separator character and into lines.

use vstd::prelude::*;

verus! {

/// The pieces of `s` between occurrences of `sep`. Every separator ends
/// one piece and starts the next, so there is always at least one piece.
pub open spec fn split_spec(s: Seq<char>, sep: char) -> Seq<Seq<char>>
    decreases s.len(),
{
    if s.len() == 0 {
        seq![Seq::<char>::empty()]
    } else {
        let before = split_spec(s.drop_last(), sep);
        if s.last() == sep {
            before.push(Seq::<char>::empty())
        } else {
            before.drop_last().push(before.last().push(s.last()))
        }
    }
}

/// The pieces put together again with `sep` between them.
pub open spec fn join_spec(pieces: Seq<Seq<char>>, sep: char) -> Seq<char>
    decreases pieces.len(),
{
    if pieces.len() == 0 {
        Seq::empty()
    } else if pieces.len() == 1 {
        pieces[0]
    } else {
        join_spec(pieces.drop_last(), sep).push(sep) + pieces.last()
    }
}

/// Splitting loses nothing and cuts at every separator: there is at
/// least one piece, no piece holds the separator, and the pieces joined
/// by the separator are the text.
pub proof fn law_split(s: Seq<char>, sep: char)
    ensures
        split_spec(s, sep).len() >= 1,
        forall|i: int, k: int|
            0 <= i < split_spec(s, sep).len() && 0 <= k < split_spec(s, sep)[i].len()
                ==> #[trigger] split_spec(s, sep)[i][k] != sep,
        join_spec(split_spec(s, sep), sep) == s,
    decreases s.len(),
{
    if s.len() > 0 {
        law_split(s.drop_last(), sep);
        let before = split_spec(s.drop_last(), sep);
        let after = split_spec(s, sep);
        let c = s.last();
        if c == sep {
            assert(after.drop_last() == before);
            assert(after.last() == Seq::<char>::empty());
            assert(join_spec(after, sep) == join_spec(before, sep).push(sep) + Seq::<char>::empty());
            assert(s == s.drop_last().push(sep));
            assert forall|i: int, k: int| 0 <= i < after.len() && 0 <= k < after[i].len() implies
                #[trigger] after[i][k] != sep by {
                assert(after[i] == before[i]);
            }
        } else {
            let grown = before.last().push(c);
            assert(after == before.drop_last().push(grown));
            assert forall|i: int, k: int| 0 <= i < after.len() && 0 <= k < after[i].len() implies
                #[trigger] after[i][k] != sep by {
                if i < after.len() - 1 {
                    assert(after[i] == before[i]);
                } else if k < before.last().len() {
                    assert(after[i][k] == before.last()[k]);
                }
            }
            assert(s == s.drop_last().push(c));
            if before.len() == 1 {
                assert(join_spec(after, sep) == grown);
                assert(join_spec(before, sep) == before[0]);
            } else {
                assert(after.drop_last() == before.drop_last());
                assert(join_spec(after, sep) == join_spec(before.drop_last(), sep).push(sep)
                    + grown);
                assert(join_spec(before, sep) == join_spec(before.drop_last(), sep).push(sep)
                    + before.last());
                assert(join_spec(before.drop_last(), sep).push(sep) + grown == (join_spec(
                    before.drop_last(),
                    sep,
                ).push(sep) + before.last()).push(c));
            }
        }
    }
}

/// `line` without one trailing carriage return.
pub open spec fn strip_cr_spec(line: Seq<char>) -> Seq<char> {
    if line.len() > 0 && line.last() == '\r' {
        line.drop_last()
    } else {
        line
    }
}

/// The lines of `s`. A line ends at a line feed, or at a carriage return
/// directly followed by one; the last line needs no terminator, and an
/// empty last line is not a line.
pub open spec fn lines_spec(s: Seq<char>) -> Seq<Seq<char>> {
    let parts = split_spec(s, '\n');
    let count = if parts.last().len() == 0 {
        parts.len() - 1
    } else {
        parts.len() as int
    };
    Seq::new(
        count as nat,
        |i: int|
            if i < parts.len() - 1 {
                strip_cr_spec(parts[i])
            } else {
                parts[i]
            },
    )
}

/// The first of the lines for which `wanted` holds.
pub open spec fn first_where(lines: Seq<Seq<char>>, wanted: spec_fn(Seq<char>) -> bool) -> Option<
    Seq<char>,
>
    decreases lines.len(),
{
    if lines.len() == 0 {
        None
    } else {
        match first_where(lines.drop_last(), wanted) {
            Some(line) => Some(line),
            None => if wanted(lines.last()) {
                Some(lines.last())
            } else {
                None
            },
        }
    }
}

/// Once a line is found among the first lines, the lines after them do
/// not matter.
pub proof fn lemma_first_where_extends(
    lines: Seq<Seq<char>>,
    wanted: spec_fn(Seq<char>) -> bool,
    i: int,
)
    requires
        0 <= i < lines.len(),
        first_where(lines.take(i + 1), wanted) == Some(lines[i]),
    ensures
        first_where(lines, wanted) == Some(lines[i]),
    decreases lines.len(),
{
    if i + 1 == lines.len() {
        assert(lines.take(i + 1) == lines);
    } else {
        assert(lines.drop_last().take(i + 1) == lines.take(i + 1));
        lemma_first_where_extends(lines.drop_last(), wanted, i);
    }
}

/// The views of a vector of character vectors.
pub open spec fn views(pieces: Seq<Vec<char>>) -> Seq<Seq<char>> {
    pieces.map_values(|piece: Vec<char>| piece@)
}

/// The pieces of `v` between occurrences of `sep`.
pub fn split(v: &Vec<char>, sep: char) -> (pieces: Vec<Vec<char>>)
    ensures
        views(pieces@) == split_spec(v@, sep),
        pieces.len() >= 1,
{
    let mut pieces: Vec<Vec<char>> = Vec::new();
    let mut current: Vec<char> = Vec::new();
    let mut i: usize = 0;
    assert(v@.take(0) == Seq::<char>::empty());
    assert(views(pieces@).push(current@) == seq![Seq::<char>::empty()]);
    while i < v.len()
        invariant
            i <= v.len(),
            views(pieces@).push(current@) == split_spec(v@.take(i as int), sep),
        decreases v.len() - i,
    {
        let c = v[i];
        proof {
            let next = v@.take(i + 1);
            assert(next.drop_last() == v@.take(i as int));
            assert(next.last() == c);
        }
        if c == sep {
            let ghost before = views(pieces@).push(current@);
            pieces.push(current);
            current = Vec::new();
            assert(views(pieces@) == before);
        } else {
            let ghost before = views(pieces@).push(current@);
            current.push(c);
            assert(before.drop_last() == views(pieces@));
            assert(views(pieces@).push(current@) == before.drop_last().push(
                before.last().push(c),
            ));
        }
        i += 1;
    }
    assert(v@.take(v.len() as int) == v@);
    let ghost before = views(pieces@).push(current@);
    pieces.push(current);
    assert(views(pieces@) == before);
    pieces
}

/// `line` without one trailing carriage return.
pub fn strip_cr(line: Vec<char>) -> (stripped: Vec<char>)
    ensures
        stripped@ == strip_cr_spec(line@),
{
    let mut line = line;
    if line.len() > 0 && line[line.len() - 1] == '\r' {
        line.pop();
    }
    line
}

/// The lines of `v`.
pub fn lines(v: &Vec<char>) -> (result: Vec<Vec<char>>)
    ensures
        views(result@) == lines_spec(v@),
{
    let mut parts = split(v, '\n');
    let ghost all = views(parts@);
    let total: usize = parts.len();
    let last_empty: bool = parts[total - 1].len() == 0;
    let count: usize = if last_empty {
        total - 1
    } else {
        total
    };
    let mut result: Vec<Vec<char>> = Vec::new();
    let mut i: usize = 0;
    while i < count
        invariant
            i <= count <= total,
            total == parts.len(),
            total >= 1,
            all == split_spec(v@, '\n'),
            all.len() == total,
            forall|k: int| i <= k < total ==> (#[trigger] parts@[k])@ == all[k],
            result.len() == i,
            forall|k: int| 0 <= k < i ==> (#[trigger] result@[k])@ == lines_spec(v@)[k],
            count == lines_spec(v@).len(),
        decreases count - i,
    {
        let mut piece: Vec<char> = Vec::new();
        std::mem::swap(&mut piece, &mut parts[i]);
        let line = if i < total - 1 {
            strip_cr(piece)
        } else {
            piece
        };
        result.push(line);
        i += 1;
    }
    assert(views(result@) =~= lines_spec(v@));
    result
}

} // verus!
