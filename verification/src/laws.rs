//! Laws of the rendering, stated over the functions that the contracts of
//! [`crate::emit`] and [`crate::run`] speak of.

use vstd::prelude::*;
use vstd::seq_lib::lemma_flatten_concat;
use crate::emit::{
    lemma_nonblank_count_push, nonblank_count, numbered, output_line, output_lines, source_output,
};
use crate::number::number_field;
use crate::run::{reached, run_stdout, stdout_pieces, SourceRead};

verus! {

/// Each line of `lines` followed by one newline.
pub open spec fn terminated(lines: Seq<Seq<char>>) -> Seq<Seq<char>> {
    lines.map_values(|line: Seq<char>| line + seq!['\n'])
}

/// Without numbering a source passes through: its output is its lines in
/// order, each followed by a single newline, and nothing else.
pub proof fn law_plain_passthrough(lines: Seq<Seq<char>>)
    ensures
        source_output(false, false, lines) == terminated(lines).flatten(),
{
    assert(output_lines(false, false, lines) =~= terminated(lines));
}

/// Without numbering a run passes through: every source that gets its
/// turn contributes its lines, each followed by a single newline, and the
/// contributions stand in the order of the sources.
pub proof fn law_plain_run_passthrough(reads: Seq<SourceRead>)
    ensures
        run_stdout(false, false, reads) == Seq::new(
            reads.len(),
            |i: int|
                if reached(reads, i) {
                    terminated(reads[i].lines()).flatten()
                } else {
                    Seq::empty()
                },
        ).flatten(),
{
    assert forall|i: int| 0 <= i < reads.len() implies source_output(false, false, reads[i].lines())
        == terminated(reads[i].lines()).flatten() by {
        law_plain_passthrough(reads[i].lines());
    }
    assert(stdout_pieces(false, false, reads) =~= Seq::new(
        reads.len(),
        |i: int|
            if reached(reads, i) {
                terminated(reads[i].lines()).flatten()
            } else {
                Seq::empty()
            },
    ));
}

/// When all lines are numbered, a source of N lines gives N pieces of
/// output, and piece `i` is the number `i + 1` in its field, a tab, line
/// `i` and a newline, whether or not the line is empty.
pub proof fn law_number_all(nonblank: bool, lines: Seq<Seq<char>>, i: int)
    requires
        0 <= i < lines.len(),
    ensures
        output_lines(true, nonblank, lines).len() == lines.len(),
        output_lines(true, nonblank, lines)[i] == number_field((i + 1) as nat) + seq!['\t'] + lines[i]
            + seq!['\n'],
        source_output(true, nonblank, lines) == output_lines(true, nonblank, lines).flatten(),
{
}

/// The count of non-empty lines among the first `a` lines is at most the
/// count among the first `b`, for `a <= b`.
pub proof fn lemma_nonblank_count_monotone(lines: Seq<Seq<char>>, a: int, b: int)
    requires
        0 <= a <= b <= lines.len(),
    ensures
        nonblank_count(lines.take(a)) <= nonblank_count(lines.take(b)),
    decreases b - a,
{
    if a < b {
        lemma_nonblank_count_monotone(lines, a, b - 1);
        assert(lines.take(b) =~= lines.take(b - 1).push(lines[b - 1]));
        lemma_nonblank_count_push(lines.take(b - 1), lines[b - 1]);
    }
}

/// When only non-empty lines are numbered, an empty line gives a bare
/// newline, and a non-empty line is numbered by one more than the count
/// of non-empty lines before it in its source: the first gets 1.
pub proof fn law_number_nonblank(lines: Seq<Seq<char>>, i: int)
    requires
        0 <= i < lines.len(),
    ensures
        lines[i].len() == 0 ==> output_line(false, true, lines, i) == seq!['\n'],
        lines[i].len() > 0 ==> output_line(false, true, lines, i) == numbered(
            nonblank_count(lines.take(i)) + 1,
            lines[i],
        ),
        nonblank_count(Seq::<Seq<char>>::empty()) == 0,
{
    assert(lines.take(i + 1) =~= lines.take(i).push(lines[i]));
    lemma_nonblank_count_push(lines.take(i), lines[i]);
    reveal(Seq::filter);
}

/// When only non-empty lines are numbered, the numbers rise strictly from
/// one non-empty line of a source to any later one, and by exactly one
/// where only empty lines lie between the two.
pub proof fn law_nonblank_numbers_increase(lines: Seq<Seq<char>>, i: int, j: int)
    requires
        0 <= i < j < lines.len(),
        lines[i].len() > 0,
        lines[j].len() > 0,
    ensures
        nonblank_count(lines.take(i + 1)) < nonblank_count(lines.take(j + 1)),
        (forall|k: int| i < k < j ==> (#[trigger] lines[k]).len() == 0) ==> nonblank_count(
            lines.take(j + 1),
        ) == nonblank_count(lines.take(i + 1)) + 1,
{
    lemma_nonblank_count_monotone(lines, i + 1, j);
    assert(lines.take(j + 1) =~= lines.take(j).push(lines[j]));
    lemma_nonblank_count_push(lines.take(j), lines[j]);
    if forall|k: int| i < k < j ==> (#[trigger] lines[k]).len() == 0 {
        lemma_blank_stretch(lines, i + 1, j);
    }
}

/// A stretch of empty lines leaves the count of non-empty lines as it is.
pub proof fn lemma_blank_stretch(lines: Seq<Seq<char>>, a: int, b: int)
    requires
        0 <= a <= b <= lines.len(),
        forall|k: int| a <= k < b ==> (#[trigger] lines[k]).len() == 0,
    ensures
        nonblank_count(lines.take(a)) == nonblank_count(lines.take(b)),
    decreases b - a,
{
    if a < b {
        lemma_blank_stretch(lines, a, b - 1);
        assert(lines.take(b) =~= lines.take(b - 1).push(lines[b - 1]));
        lemma_nonblank_count_push(lines.take(b - 1), lines[b - 1]);
    }
}

/// Numbering starts afresh with every source: what a source contributes
/// depends on its own lines alone, so the output of a run over two lists
/// of sources, the first of which is read without failure, is the output
/// of the first list followed by the output of the second.
pub proof fn law_numbering_restarts(
    all: bool,
    nonblank: bool,
    first: Seq<SourceRead>,
    second: Seq<SourceRead>,
)
    requires
        forall|k: int| 0 <= k < first.len() ==> !(#[trigger] first[k]).fatal(),
    ensures
        forall|i: int|
            0 <= i < first.len() ==> (#[trigger] stdout_pieces(all, nonblank, first + second)[i])
                == source_output(all, nonblank, first[i].lines()),
        run_stdout(all, nonblank, first + second) == run_stdout(all, nonblank, first) + run_stdout(
            all,
            nonblank,
            second,
        ),
{
    let both = first + second;
    assert forall|i: int| 0 <= i < first.len() implies reached(both, i) && reached(first, i) by {
        assert forall|k: int| 0 <= k < i implies !(#[trigger] both[k]).fatal() by {
            assert(both[k] == first[k]);
        }
    }
    assert forall|i: int| 0 <= i < second.len() implies reached(both, first.len() + i) == reached(
        second,
        i,
    ) by {
        if reached(second, i) {
            assert forall|k: int| 0 <= k < first.len() + i implies !(#[trigger] both[k]).fatal() by {
                if k < first.len() {
                    assert(both[k] == first[k]);
                } else {
                    assert(both[k] == second[k - first.len()]);
                }
            }
        } else {
            let k = choose|k: int| 0 <= k < i && k < second.len() && (#[trigger] second[k]).fatal();
            assert(both[first.len() + k] == second[k]);
        }
    }
    assert(stdout_pieces(all, nonblank, both) =~= stdout_pieces(all, nonblank, first)
        + stdout_pieces(all, nonblank, second));
    lemma_flatten_concat(stdout_pieces(all, nonblank, first), stdout_pieces(all, nonblank, second));
}

} // verus!
