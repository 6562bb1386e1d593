//! Predefined text snippets including cursor positioning information.

use crate::strutil::{find_str, replace_all, replace_seq, spec_find, str_eq};
use vstd::prelude::*;

verus! {

/// Text snippet with cursor positioning information.
#[derive(Debug, Clone)]
pub struct Snippet {
    /// The text content.
    pub text: String,
    /// Position where cursor should be placed.
    pub cursor_offset: usize,
}

impl PartialEq for Snippet {
    fn eq(&self, other: &Self) -> (r: bool) {
        str_eq(self.text.as_str(), other.text.as_str()) && self.cursor_offset
            == other.cursor_offset
    }
}

impl vstd::std_specs::cmp::PartialEqSpecImpl for Snippet {
    open spec fn obeys_eq_spec() -> bool {
        true
    }

    open spec fn eq_spec(&self, other: &Self) -> bool {
        self.text@ == other.text@ && self.cursor_offset == other.cursor_offset
    }
}

impl Snippet {
    /// Creates a new Snippet with given text and cursor offset.
    pub fn new(text: String, cursor_offset: usize) -> (r: Snippet)
        ensures
            r.text == text,
            r.cursor_offset == cursor_offset,
    {
        Snippet { text, cursor_offset }
    }

    /// Parses a string into a Snippet, removing the `||` marker and placing
    /// the cursor where the first marker stood, or at the end without one.
    pub fn parse(s: &str) -> (r: Snippet)
        ensures
            r.text@ == replace_seq(s@, "||"@, ""@),
            match spec_find(s@, "||"@) {
                Some(i) => r.cursor_offset == i,
                None => r.cursor_offset == s@.len(),
            },
    {
        proof {
            reveal_strlit("||");
        }
        let text = replace_all(s, "||", "");
        let cursor_offset = match find_str(s, "||") {
            Some(i) => i,
            None => s.unicode_len(),
        };
        Snippet { text, cursor_offset }
    }
}

} // verus!
