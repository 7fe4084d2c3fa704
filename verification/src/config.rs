//! The configuration record of one invocation.

use vstd::prelude::*;

verus! {

/// The texts held by a sequence of strings.
pub open spec fn texts(items: Seq<String>) -> Seq<Seq<char>> {
    Seq::new(items.len(), |i: int| items[i]@)
}

/// What to concatenate and how to number it.
///
/// `files` is the ordered list of source identifiers; `-` stands for
/// standard input, anything else is a path.  The two flags select the
/// numbering policy.  A configuration that came out of [`crate::args::get_args`]
/// has at most one of them set, see [`Config::exclusive`]; the renderer
/// itself accepts any combination and lets `number_lines` win.
#[derive(Debug)]
pub struct Config {
    files: Vec<String>,
    number_lines: bool,
    number_nonblank_lines: bool,
}

impl Config {
    /// The source identifiers, in order.
    pub closed spec fn sources(&self) -> Seq<Seq<char>> {
        texts(self.files@)
    }

    /// Whether every line is numbered.
    pub closed spec fn numbers_all(&self) -> bool {
        self.number_lines
    }

    /// Whether only non-empty lines are numbered.
    pub closed spec fn numbers_nonblank(&self) -> bool {
        self.number_nonblank_lines
    }

    /// At most one of the two numbering flags is set.
    pub open spec fn exclusive(&self) -> bool {
        !(self.numbers_all() && self.numbers_nonblank())
    }

    /// A configuration over the given sources and flags.
    pub fn new(files: Vec<String>, number_lines: bool, number_nonblank_lines: bool) -> (config: Config)
        ensures
            config.sources() == texts(files@),
            config.numbers_all() == number_lines,
            config.numbers_nonblank() == number_nonblank_lines,
    {
        Config { files, number_lines, number_nonblank_lines }
    }

    /// The source identifiers, in order.
    pub fn files(&self) -> (files: &Vec<String>)
        ensures
            texts(files@) == self.sources(),
    {
        &self.files
    }

    /// Whether every line is numbered.
    pub fn number_lines(&self) -> (flag: bool)
        ensures
            flag == self.numbers_all(),
    {
        self.number_lines
    }

    /// Whether only non-empty lines are numbered.
    pub fn number_nonblank_lines(&self) -> (flag: bool)
        ensures
            flag == self.numbers_nonblank(),
    {
        self.number_nonblank_lines
    }
}

} // verus!
