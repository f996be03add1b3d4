use vstd::prelude::*;

verus! {

/// A single match found while scanning.
#[derive(Debug, Clone)]
pub struct Match {
    pub file_path: String,
    pub line_number: Option<usize>,
    pub matched_text: String,
    pub archive_entry: Option<String>,
}

/// What a search found.
#[derive(Debug)]
pub struct SearchReport {
    pub matches: Vec<Match>,
    pub files_scanned: usize,
    pub files_skipped: usize,
    pub errors: Vec<String>,
}

/// A project found by name, with its match score.
#[derive(Debug)]
pub struct SearchResult {
    pub path: String,
    pub score: i64,
}

impl SearchReport {
    /// A report of a search that found nothing yet.
    pub fn new() -> (r: Self)
        ensures
            r.matches@.len() == 0,
            r.files_scanned == 0,
            r.files_skipped == 0,
            r.errors@.len() == 0,
    {
        SearchReport { matches: Vec::new(), files_scanned: 0, files_skipped: 0, errors: Vec::new() }
    }
}

} // verus!
