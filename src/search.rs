//! Free-text search over agents, pages and contents.

use vstd::prelude::*;
use vstd::string::*;
use crate::models::{Agent, Content, Page};

verus! {

/// Which pages to list: all, or those of one section.
#[derive(Debug, Clone)]
pub struct PageQuery {
    pub section_name: Option<String>,
}

/// The text searched for.
#[derive(Debug, Clone)]
pub struct SearchQuery {
    pub q: String,
}

/// What a search over all record kinds found.
#[derive(Debug, Clone)]
pub struct SearchResults {
    pub agents: Vec<Agent>,
    pub pages: Vec<Page>,
    pub contents: Vec<Content>,
}

impl SearchQuery {
    /// The SQL `LIKE` pattern that matches any text containing the query:
    /// the query between two `%`.
    pub fn like_pattern(&self) -> (r: String)
        ensures
            r@ == seq!['%'] + self.q@ + seq!['%'],
    {
        proof {
            reveal_strlit("%");
        }
        let mut pattern = String::from_str("%");
        pattern.append(self.q.as_str());
        pattern.append("%");
        pattern
    }
}

} // verus!
