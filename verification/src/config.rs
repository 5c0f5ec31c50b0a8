use vstd::prelude::*;

verus! {

/// How a page is tied to its discussion thread, and how to reach GitHub.
pub struct KommentConfig {
    /// The repository that stores the discussions, as `owner/name`.
    pub repo: String,
    pub repo_id: Option<String>,
    pub category: Option<String>,
    pub category_id: Option<String>,
    /// `"number"` finds the discussion by its number; anything else searches for `term`.
    pub mapping: String,
    /// The discussion number or the search term, depending on `mapping`.
    pub term: String,
    /// The signed-in viewer's access token, if any.
    pub token: Option<String>,
    /// Where GraphQL requests go; GitHub's own endpoint when absent.
    pub api_url: Option<String>,
}

} // verus!
