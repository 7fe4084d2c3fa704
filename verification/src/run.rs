//! A whole run: every source of a configuration, one after the other.
//!
//! Opening and reading happen outside this crate.  What came of them is
//! handed in as one [`SourceRead`] per source; [`run`] takes a
//! [`Session`] through them and says what goes to standard output, what
//! goes to standard error, and how the run ends.

use vstd::prelude::*;
use vstd::string::*;
use crate::config::{texts, Config};
use crate::emit::{lemma_output_lines_push, output_lines, source_output};
use crate::session::{open_failure_line, Action, Event, Phase, Session, SessionView};

verus! {

/// What came of opening and reading one source.
#[derive(Debug)]
pub enum SourceRead {
    /// The source could not be opened; `detail` says why.
    OpenFailed { detail: String },
    /// The source was read to its end.
    Complete { lines: Vec<String> },
    /// Reading failed after `lines` had been read; `detail` says why.
    Interrupted { lines: Vec<String>, detail: String },
}

/// What a run wrote and how it ended.
#[derive(Debug)]
pub struct RunOutput {
    /// Everything written to standard output.
    pub stdout: String,
    /// Everything written to standard error.
    pub stderr: String,
    /// `Err` with the detail of the read failure that ended the run early.
    pub result: Result<(), String>,
}

impl SourceRead {
    /// The lines that were read from the source.
    pub open spec fn lines(&self) -> Seq<Seq<char>> {
        match self {
            SourceRead::OpenFailed { .. } => Seq::empty(),
            SourceRead::Complete { lines } => texts(lines@),
            SourceRead::Interrupted { lines, .. } => texts(lines@),
        }
    }

    /// Whether reading the source failed, which ends the run.
    pub open spec fn fatal(&self) -> bool {
        self is Interrupted
    }

    /// The diagnostic that the source, named `identifier`, gives rise to.
    pub open spec fn diagnostic(&self, identifier: Seq<char>) -> Seq<char> {
        match self {
            SourceRead::OpenFailed { detail } => open_failure_line(identifier, detail@),
            _ => Seq::empty(),
        }
    }
}

/// Source `i` gets its turn: no source before it failed while being read.
pub open spec fn reached(reads: Seq<SourceRead>, i: int) -> bool {
    forall|k: int| 0 <= k < i && k < reads.len() ==> !(#[trigger] reads[k]).fatal()
}

/// What each source contributes to standard output: its rendered lines if
/// it gets its turn, nothing otherwise.
pub open spec fn stdout_pieces(all: bool, nonblank: bool, reads: Seq<SourceRead>) -> Seq<Seq<char>> {
    Seq::new(
        reads.len(),
        |i: int|
            if reached(reads, i) {
                source_output(all, nonblank, reads[i].lines())
            } else {
                Seq::empty()
            },
    )
}

/// What each source contributes to standard error: a diagnostic if it gets
/// its turn and could not be opened, nothing otherwise.
pub open spec fn stderr_pieces(identifiers: Seq<Seq<char>>, reads: Seq<SourceRead>) -> Seq<Seq<char>>
    recommends
        identifiers.len() == reads.len(),
{
    Seq::new(
        reads.len(),
        |i: int|
            if reached(reads, i) {
                reads[i].diagnostic(identifiers[i])
            } else {
                Seq::empty()
            },
    )
}

/// Standard output of a run.
pub open spec fn run_stdout(all: bool, nonblank: bool, reads: Seq<SourceRead>) -> Seq<char> {
    stdout_pieces(all, nonblank, reads).flatten()
}

/// Standard error of a run.
pub open spec fn run_stderr(identifiers: Seq<Seq<char>>, reads: Seq<SourceRead>) -> Seq<char> {
    stderr_pieces(identifiers, reads).flatten()
}

/// Empty pieces at the end of a sequence add nothing to what it flattens
/// to.
pub proof fn lemma_flatten_empty_tail(pieces: Seq<Seq<char>>, kept: int)
    requires
        0 <= kept <= pieces.len(),
        forall|k: int| kept <= k < pieces.len() ==> (#[trigger] pieces[k]).len() == 0,
    ensures
        pieces.flatten() == pieces.take(kept).flatten(),
    decreases pieces.len() - kept,
{
    if kept == pieces.len() {
        assert(pieces.take(kept) =~= pieces);
    } else {
        let shorter = pieces.drop_last();
        lemma_flatten_empty_tail(shorter, kept);
        assert(shorter.take(kept) =~= pieces.take(kept));
        assert(pieces =~= shorter.push(pieces.last()));
        shorter.lemma_flatten_push(pieces.last());
        assert(shorter.flatten() + pieces.last() =~= shorter.flatten());
    }
}

/// Reports `lines` to a session whose source was just opened, one by one,
/// and appends what the session answers to `stdout`.
fn drain(session: &mut Session<'_>, lines: &Vec<String>, stdout: &mut String)
    requires
        old(session)@.phase == Phase::Draining,
        old(session)@.lines == Seq::<Seq<char>>::empty(),
    ensures
        final(session).config() == old(session).config(),
        final(session)@ == (SessionView { lines: texts(lines@), ..old(session)@ }),
        final(stdout)@ == old(stdout)@ + source_output(
            old(session).config().numbers_all(),
            old(session).config().numbers_nonblank(),
            texts(lines@),
        ),
{
    let ghost all = session.config().numbers_all();
    let ghost nonblank = session.config().numbers_nonblank();
    let ghost start = session@;
    let ghost config = session.config();
    let ghost before = stdout@;
    let mut j: usize = 0;
    assert(texts(lines@).take(0) =~= Seq::<Seq<char>>::empty());
    assert(before + source_output(all, nonblank, Seq::<Seq<char>>::empty()) =~= before);
    while j < lines.len()
        invariant
            j <= lines.len(),
            session.config() == config,
            all == config.numbers_all(),
            nonblank == config.numbers_nonblank(),
            start.phase == Phase::Draining,
            session@ == (SessionView { lines: texts(lines@).take(j as int), ..start }),
            stdout@ == before + source_output(all, nonblank, texts(lines@).take(j as int)),
        decreases lines.len() - j,
    {
        let ghost done = texts(lines@).take(j as int);
        let written = session.step(Event::Line { text: lines[j].as_str() });
        stdout.append(written.stdout.as_str());
        proof {
            assert(texts(lines@).take(j + 1) =~= done.push(lines@[j as int]@));
            lemma_output_lines_push(all, nonblank, done, lines@[j as int]@);
            output_lines(all, nonblank, done).lemma_flatten_push(written.stdout@);
            assert(stdout@ =~= before + source_output(all, nonblank, texts(lines@).take(j + 1)));
        }
        j = j + 1;
    }
    assert(texts(lines@).take(lines.len() as int) =~= texts(lines@));
}

/// Runs over the sources of `config` in order, `reads[i]` being what came
/// of opening and reading source `i`.
///
/// A source that could not be opened leaves a diagnostic on standard error
/// and nothing on standard output, and the run goes on.  A source whose
/// reading failed still shows the lines read before the failure; the run
/// ends there with the failure's detail, and later sources do not get
/// their turn.  Line numbers start afresh with every source.
pub fn run(config: &Config, reads: &Vec<SourceRead>) -> (out: RunOutput)
    requires
        reads.len() == config.sources().len(),
    ensures
        out.stdout@ == run_stdout(config.numbers_all(), config.numbers_nonblank(), reads@),
        out.stderr@ == run_stderr(config.sources(), reads@),
        out.result is Err <==> exists|i: int| 0 <= i < reads.len() && (#[trigger] reads[i]).fatal(),
        forall|i: int|
            0 <= i < reads.len() && reached(reads@, i) && (#[trigger] reads[i]).fatal() ==> (
            out.result matches Err(detail) && detail@ == reads[i]->Interrupted_detail@),
{
    let ghost all = config.numbers_all();
    let ghost nonblank = config.numbers_nonblank();
    let ghost outs = stdout_pieces(all, nonblank, reads@);
    let ghost errs = stderr_pieces(config.sources(), reads@);
    let mut session = Session::new(config);
    let mut stdout = String::new();
    let mut stderr = String::new();
    let mut live = true;
    let mut i: usize = 0;
    while i < reads.len() && live
        invariant
            i <= reads.len(),
            reads.len() == config.sources().len(),
            all == config.numbers_all(),
            nonblank == config.numbers_nonblank(),
            outs == stdout_pieces(all, nonblank, reads@),
            errs == stderr_pieces(config.sources(), reads@),
            session.config() == config,
            stdout@ == outs.take(i as int).flatten(),
            stderr@ == errs.take(i as int).flatten(),
            live ==> reached(reads@, i as int) && session@ == (SessionView {
                position: i as nat,
                phase: Phase::Between,
                lines: Seq::empty(),
                failure: Seq::empty(),
            }),
            !live ==> i > 0 && reached(reads@, i - 1) && reads[i - 1].fatal() && session@.phase
                == Phase::Aborted && session@.failure == reads[i - 1]->Interrupted_detail@,
        decreases reads.len() - i,
    {
        proof {
            assert(outs.take(i + 1) =~= outs.take(i as int).push(outs[i as int]));
            assert(errs.take(i + 1) =~= errs.take(i as int).push(errs[i as int]));
            outs.take(i as int).lemma_flatten_push(outs[i as int]);
            errs.take(i as int).lemma_flatten_push(errs[i as int]);
            assert(source_output(all, nonblank, Seq::<Seq<char>>::empty()) =~= Seq::<char>::empty());
        }
        match &reads[i] {
            SourceRead::OpenFailed { detail } => {
                let written = session.step(Event::OpenFailed { detail: detail.as_str() });
                stderr.append(written.stderr.as_str());
            },
            SourceRead::Complete { lines } => {
                let _ = session.step(Event::Opened);
                drain(&mut session, lines, &mut stdout);
                let _ = session.step(Event::EndOfSource);
            },
            SourceRead::Interrupted { lines, detail } => {
                let _ = session.step(Event::Opened);
                drain(&mut session, lines, &mut stdout);
                let _ = session.step(Event::ReadFailed { detail: detail.as_str() });
                live = false;
            },
        }
        i = i + 1;
    }
    proof {
        if live {
            assert(outs.take(i as int) =~= outs);
            assert(errs.take(i as int) =~= errs);
        } else {
            assert forall|k: int| i <= k < reads.len() implies !reached(reads@, k) by {
                assert(reads@[i - 1].fatal());
            }
            lemma_flatten_empty_tail(outs, i as int);
            lemma_flatten_empty_tail(errs, i as int);
            assert forall|k: int|
                0 <= k < reads.len() && reached(reads@, k) && (#[trigger] reads[k]).fatal() implies k
                == i - 1 by {
                if k < i - 1 {
                    assert(!reads@[k].fatal());
                }
            }
        }
    }
    let result = match session.next_action() {
        Action::Finish { result } => result,
        _ => Ok(()),
    };
    RunOutput { stdout, stderr, result }
}

} // verus!
