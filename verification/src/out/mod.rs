//! Where the collected records go.

use crate::text::{
    all_ascii, ascii_lowered, decimal, decimal_text, join2, lowercase_of, same_text, to_lowercase,
};
use vstd::prelude::*;

pub mod delivery;

verus! {

/// The sink of a run.
#[derive(Clone, Copy, Debug, PartialEq, Eq, Structural)]
pub enum OutMode {
    /// The records are written out for inspection.
    Stdout,
    /// The records are posted to an endpoint in batches.
    Http,
}

/// The sink that a word in lower case names. Any word but `http` names the
/// console.
pub open spec fn mode_of_word(word: Seq<char>) -> OutMode {
    if word == "http"@ {
        OutMode::Http
    } else {
        OutMode::Stdout
    }
}

/// The line that reports how many records were found.
pub open spec fn summary_text(count: nat) -> Seq<char> {
    "discovered assets = "@ + decimal_text(count)
}

impl OutMode {
    /// The sink that a word in lower case names.
    pub fn from_lowered(word: &str) -> (m: OutMode)
        ensures
            m == mode_of_word(word@),
    {
        if same_text(word, "http") {
            OutMode::Http
        } else {
            OutMode::Stdout
        }
    }

    /// The sink that a word names, whatever the case of its letters.
    pub fn parse(s: &str) -> (m: OutMode)
        ensures
            m == mode_of_word(lowercase_of(s@)),
            all_ascii(s@) ==> m == mode_of_word(ascii_lowered(s@)),
    {
        let word = to_lowercase(s);
        OutMode::from_lowered(word.as_str())
    }
}

/// The line that reports how many records were found.
pub fn summary_line(count: usize) -> (line: String)
    ensures
        line@ == summary_text(count as nat),
{
    let digits = decimal(count as u64);
    join2("discovered assets = ", digits.as_str())
}

} // verus!
