//! The text that one source contributes to the output.
//!
//! A source is a finite sequence of lines, each without its terminator.
//! Every line becomes one piece of output that ends in a newline; with
//! numbering on, the piece starts with the line's number in a field of six
//! characters and a tab.  Numbers count within one source only.

use vstd::prelude::*;
use vstd::string::*;
use crate::config::{texts, Config};
use crate::number::{number_field, number_field_string};

verus! {

/// The lines of `lines` that are not empty, in order.
pub open spec fn nonblank_lines(lines: Seq<Seq<char>>) -> Seq<Seq<char>> {
    lines.filter(|line: Seq<char>| line.len() > 0)
}

/// How many lines of `lines` are not empty.
pub open spec fn nonblank_count(lines: Seq<Seq<char>>) -> nat {
    nonblank_lines(lines).len()
}

/// A line behind its number: the number field, a tab, the line, a newline.
pub open spec fn numbered(n: nat, line: Seq<char>) -> Seq<char> {
    number_field(n) + seq!['\t'] + line + seq!['\n']
}

/// A line as it is, followed by a newline.
pub open spec fn verbatim(line: Seq<char>) -> Seq<char> {
    line + seq!['\n']
}

/// The output for one line, given its 1-based position among all lines of
/// its source (`ordinal`) and the number of non-empty lines up to and
/// including it (`nonblank_ordinal`).
///
/// `all` numbers every line by `ordinal`.  Otherwise `nonblank` numbers a
/// non-empty line by `nonblank_ordinal` and turns an empty line into a bare
/// newline.  With neither, the line passes through.
pub open spec fn line_text(
    all: bool,
    nonblank: bool,
    ordinal: nat,
    nonblank_ordinal: nat,
    line: Seq<char>,
) -> Seq<char> {
    if all {
        numbered(ordinal, line)
    } else if nonblank {
        if line.len() > 0 {
            numbered(nonblank_ordinal, line)
        } else {
            seq!['\n']
        }
    } else {
        verbatim(line)
    }
}

/// The output for line `i` (0-based) of the source `lines`.
pub open spec fn output_line(all: bool, nonblank: bool, lines: Seq<Seq<char>>, i: int) -> Seq<char>
    recommends
        0 <= i < lines.len(),
{
    line_text(all, nonblank, (i + 1) as nat, nonblank_count(lines.take(i + 1)), lines[i])
}

/// The output for each line of the source `lines`, in order.
pub open spec fn output_lines(all: bool, nonblank: bool, lines: Seq<Seq<char>>) -> Seq<Seq<char>> {
    Seq::new(lines.len(), |i: int| output_line(all, nonblank, lines, i))
}

/// Everything the source `lines` contributes to the output.
pub open spec fn source_output(all: bool, nonblank: bool, lines: Seq<Seq<char>>) -> Seq<char> {
    output_lines(all, nonblank, lines).flatten()
}

/// One more line raises the count of non-empty lines by one if it is not
/// empty, and leaves it otherwise.
pub proof fn lemma_nonblank_count_push(lines: Seq<Seq<char>>, line: Seq<char>)
    ensures
        nonblank_count(lines.push(line)) == nonblank_count(lines) + if line.len() > 0 {
            1nat
        } else {
            0nat
        },
{
    reveal(Seq::filter);
    assert(lines.push(line).drop_last() =~= lines);
    assert(lines.push(line).last() == line);
}

/// The output of the lines already there does not change when a line
/// follows them.
pub proof fn lemma_output_lines_push(all: bool, nonblank: bool, lines: Seq<Seq<char>>, line: Seq<char>)
    ensures
        output_lines(all, nonblank, lines.push(line)) == output_lines(all, nonblank, lines).push(
            output_line(all, nonblank, lines.push(line), lines.len() as int),
        ),
{
    let longer = lines.push(line);
    assert forall|i: int| 0 <= i < lines.len() implies output_line(all, nonblank, longer, i)
        == output_line(all, nonblank, lines, i) by {
        assert(longer.take(i + 1) =~= lines.take(i + 1));
    }
    assert(output_lines(all, nonblank, longer) =~= output_lines(all, nonblank, lines).push(
        output_line(all, nonblank, longer, lines.len() as int),
    ));
}

/// The position within one source: how many lines went by, and how many
/// of them were not empty.  A fresh counter belongs to each source.
#[derive(Clone, Copy)]
pub struct LineCounter {
    seen: usize,
    nonblank: usize,
    history: Ghost<Seq<Seq<char>>>,
}

impl LineCounter {
    /// The lines that went by, in order.
    pub closed spec fn lines(&self) -> Seq<Seq<char>> {
        self.history@
    }

    /// The two counts agree with the lines that went by.
    #[verifier::type_invariant]
    spec fn counts_agree(&self) -> bool {
        &&& self.seen == self.history@.len()
        &&& self.nonblank == nonblank_count(self.history@)
    }

    /// The counter at the start of a source.
    pub fn new() -> (counter: LineCounter)
        ensures
            counter.lines() == Seq::<Seq<char>>::empty(),
    {
        proof {
            reveal(Seq::filter);
        }
        LineCounter { seen: 0, nonblank: 0, history: Ghost(Seq::empty()) }
    }

    /// How many lines went by.
    pub fn lines_seen(&self) -> (count: usize)
        ensures
            count == self.lines().len(),
    {
        proof {
            use_type_invariant(self);
        }
        self.seen
    }

    /// How many non-empty lines went by.
    pub fn nonblank_seen(&self) -> (count: usize)
        ensures
            count == nonblank_count(self.lines()),
    {
        proof {
            use_type_invariant(self);
        }
        self.nonblank
    }

    /// Takes the next line of the source and returns its output.
    pub fn emit(&mut self, config: &Config, line: &str) -> (out: String)
        requires
            old(self).lines().len() < usize::MAX,
        ensures
            final(self).lines() == old(self).lines().push(line@),
            out@ == output_line(
                config.numbers_all(),
                config.numbers_nonblank(),
                final(self).lines(),
                old(self).lines().len() as int,
            ),
    {
        let ghost before = self.history@;
        proof {
            use_type_invariant(&*self);
            lemma_nonblank_count_push(before, line@);
            before.lemma_filter_len(|l: Seq<char>| l.len() > 0);
            assert(before.push(line@).take(before.len() as int + 1) =~= before.push(line@));
            reveal_strlit("\t");
            reveal_strlit("\n");
        }
        let blank = line.is_empty();
        let seen: usize = self.seen + 1;
        let nonblank: usize = if blank {
            self.nonblank
        } else {
            self.nonblank + 1
        };
        *self = LineCounter { seen, nonblank, history: Ghost(before.push(line@)) };
        let mut out = String::new();
        if config.number_lines() {
            out = number_field_string(seen);
            out.append("\t");
            out.append(line);
        } else if config.number_nonblank_lines() && !blank {
            out = number_field_string(nonblank);
            out.append("\t");
            out.append(line);
        } else if !config.number_nonblank_lines() {
            out.append(line);
        }
        out.append("\n");
        assert(out@ =~= output_line(
            config.numbers_all(),
            config.numbers_nonblank(),
            before.push(line@),
            before.len() as int,
        ));
        out
    }
}

/// The output for a whole source, given its lines in order.
pub fn render_source(config: &Config, lines: &Vec<String>) -> (out: String)
    ensures
        out@ == source_output(config.numbers_all(), config.numbers_nonblank(), texts(lines@)),
{
    let ghost all = config.numbers_all();
    let ghost nonblank = config.numbers_nonblank();
    let mut out = String::new();
    let mut counter = LineCounter::new();
    let mut i: usize = 0;
    while i < lines.len()
        invariant
            i <= lines.len(),
            all == config.numbers_all(),
            nonblank == config.numbers_nonblank(),
            counter.lines() == texts(lines@).take(i as int),
            out@ == source_output(all, nonblank, texts(lines@).take(i as int)),
        decreases lines.len() - i,
    {
        let ghost done = texts(lines@).take(i as int);
        let piece = counter.emit(config, lines[i].as_str());
        out.append(piece.as_str());
        proof {
            assert(texts(lines@).take(i + 1) =~= done.push(lines@[i as int]@));
            lemma_output_lines_push(all, nonblank, done, lines@[i as int]@);
            output_lines(all, nonblank, done).lemma_flatten_push(piece@);
        }
        i = i + 1;
    }
    assert(texts(lines@).take(lines.len() as int) =~= texts(lines@));
    out
}

} // verus!
