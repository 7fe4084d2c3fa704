//! From command-line tokens to a configuration.
//!
//! The command line is `catr [-n | -b] [FILES]...`; its grammar is clap's.
//! This module hands the tokens to clap, takes the matched values back as
//! plain data, and builds the [`Config`] from them.

use vstd::prelude::*;
use vstd::string::*;
use clap::{App, Arg};
use crate::config::{texts, Config};

verus! {

/// The values that a successful parse matched.
#[derive(Debug)]
pub struct Matches {
    /// The values of the positional argument `FILES`, if it is present.
    pub files: Option<Vec<String>>,
    /// Whether `-n` / `--number` is present.
    pub number_lines: bool,
    /// Whether `-b` / `--number-nonblank` is present.
    pub number_nonblank_lines: bool,
}

/// A command line that the parser did not accept, or that asked for the
/// help or version text.
#[derive(Debug)]
pub struct Refusal {
    /// The text to show the user.
    pub message: String,
    /// Whether the text belongs on standard error and the process fails;
    /// otherwise it belongs on standard output and the process succeeds.
    pub use_stderr: bool,
}

/// Why no configuration came out of the command line.
#[derive(Debug)]
pub enum ArgsError {
    /// The parser refused the tokens, or showed help or version.
    Rejected { message: String, use_stderr: bool },
    /// Both numbering flags were matched at once.
    ConflictingFlags,
}

impl Matches {
    /// The matched values as plain data: files, `-n`, `-b`.
    pub open spec fn view(&self) -> (Option<Seq<Seq<char>>>, bool, bool) {
        (
            match self.files {
                Some(files) => Some(texts(files@)),
                None => None,
            },
            self.number_lines,
            self.number_nonblank_lines,
        )
    }
}

/// What clap matches in `tokens`, the first of which is the program's
/// name: `None` where it refuses them, else the values of `FILES` and the
/// presence of `-n` and of `-b`.
pub uninterp spec fn cli_matches(tokens: Seq<Seq<char>>) -> Option<(Option<Seq<Seq<char>>>, bool, bool)>;

/// The single source that stands for standard input.
pub open spec fn stdin_only() -> Seq<Seq<char>> {
    seq!["-"@]
}

/// The sources of a run: the matched files, or standard input alone where
/// there are none.
pub open spec fn sources_or_stdin(files: Option<Seq<Seq<char>>>) -> Seq<Seq<char>> {
    match files {
        Some(files) if files.len() > 0 => files,
        _ => stdin_only(),
    }
}

/// Parses `tokens` with clap: builds the command line's definition with
/// `clap::App` and `clap::Arg`, runs `App::get_matches_from_safe` on the
/// tokens, and reads the result with `ArgMatches::values_of_lossy` and
/// `ArgMatches::is_present`, or the refusal from `clap::Error`.
///
/// Trusted, not proved: the parse succeeds exactly where `cli_matches` is
/// `Some`, and the matched values are the ones it names.  Nothing is
/// claimed of a refusal's text, which varies with the terminal.
#[verifier::external_body]
fn parse_tokens(tokens: &Vec<String>) -> (parsed: Result<Matches, Refusal>)
    ensures
        parsed is Ok <==> cli_matches(texts(tokens@)) is Some,
        parsed matches Ok(matches) ==> cli_matches(texts(tokens@)) == Some(matches@),
{
    let parsed = App::new("catr").version("0.1.0").author("Ken youens-Clark <kyclark@gmail.com>").about("Rust cat")
        .arg(Arg::with_name("files").value_name("FILES").help("Input files").multiple(true)
            .default_value("-"))
        .arg(Arg::with_name("number_lines").short("n").long("number").help("number all output lines")
            .takes_value(false).conflicts_with("number_nonblank_lines"))
        .arg(Arg::with_name("number_nonblank_lines").short("b").long("number-nonblank")
            .help("number nonempty output lines").takes_value(false))
        .get_matches_from_safe(tokens);
    match parsed {
        Ok(m) => Ok(Matches { files: m.values_of_lossy("files"), number_lines: m.is_present("number_lines"),
            number_nonblank_lines: m.is_present("number_nonblank_lines") }),
        Err(e) => Err(Refusal { use_stderr: e.use_stderr(), message: e.message }),
    }
}

/// The configuration that a parse's outcome stands for.
///
/// A refusal is passed on.  Matches with both numbering flags are an
/// error.  Otherwise the configuration holds the matched files, or `-`
/// alone where none were matched, and the two flags.
pub fn resolve(parsed: Result<Matches, Refusal>) -> (resolved: Result<Config, ArgsError>)
    ensures
        match parsed {
            Err(refusal) => resolved == Err::<Config, ArgsError>(
                ArgsError::Rejected { message: refusal.message, use_stderr: refusal.use_stderr },
            ),
            Ok(matches) => if matches.number_lines && matches.number_nonblank_lines {
                resolved == Err::<Config, ArgsError>(ArgsError::ConflictingFlags)
            } else {
                &&& resolved matches Ok(config)
                &&& config.sources() == sources_or_stdin(matches@.0)
                &&& config.numbers_all() == matches.number_lines
                &&& config.numbers_nonblank() == matches.number_nonblank_lines
            },
        },
{
    match parsed {
        Err(refusal) => Err(
            ArgsError::Rejected { message: refusal.message, use_stderr: refusal.use_stderr },
        ),
        Ok(matches) => {
            if matches.number_lines && matches.number_nonblank_lines {
                return Err(ArgsError::ConflictingFlags);
            }
            let files = match matches.files {
                Some(files) if files.len() > 0 => files,
                _ => {
                    let mut only: Vec<String> = Vec::new();
                    only.push(String::from_str("-"));
                    assert(texts(only@) =~= stdin_only());
                    only
                },
            };
            Ok(Config::new(files, matches.number_lines, matches.number_nonblank_lines))
        },
    }
}

/// Resolves command-line tokens, the first of which is the program's name,
/// into a configuration.
///
/// A configuration comes out exactly where clap accepts the tokens and
/// did not match both numbering flags.  It has at least one source, at
/// most one flag set, and holds what clap matched.
pub fn get_args(tokens: &Vec<String>) -> (resolved: Result<Config, ArgsError>)
    ensures
        match cli_matches(texts(tokens@)) {
            None => resolved matches Err(ArgsError::Rejected { .. }),
            Some(matched) => if matched.1 && matched.2 {
                resolved == Err::<Config, ArgsError>(ArgsError::ConflictingFlags)
            } else {
                &&& resolved matches Ok(config)
                &&& config.sources() == sources_or_stdin(matched.0)
                &&& config.numbers_all() == matched.1
                &&& config.numbers_nonblank() == matched.2
            },
        },
        resolved matches Ok(config) ==> config.exclusive() && config.sources().len() > 0,
{
    resolve(parse_tokens(tokens))
}

} // verus!
