use vstd::prelude::*;

verus! {

/// The body of a GraphQL reply that loads a discussion.
pub struct DiscussionResponse {
    pub data: Option<DiscussionData>,
    pub errors: Option<Vec<GithubError>>,
}

/// One error reported by the GraphQL API.
pub struct GithubError {
    pub message: String,
}

/// What a discussion query returns: a discussion found by number (`repository`)
/// or by search (`search`), and the signed-in viewer.
pub struct DiscussionData {
    pub repository: Option<RepositoryData>,
    pub search: Option<SearchData>,
    pub viewer: Option<ViewerData>,
}

/// The signed-in user.
pub struct ViewerData {
    pub login: String,
}

/// The results of a discussion search.
pub struct SearchData {
    pub edges: Vec<SearchEdge>,
}

/// One search result.
pub struct SearchEdge {
    pub node: Option<Discussion>,
}

/// A repository, with the discussion asked for by number.
pub struct RepositoryData {
    pub discussion: Option<Discussion>,
}

/// A discussion thread with its comments.
pub struct Discussion {
    pub id: String,
    pub title: String,
    pub body_html: String,
    pub comments: CommentsConnection,
}

/// The comments of a discussion.
pub struct CommentsConnection {
    pub nodes: Vec<Comment>,
}

/// One comment: its id, author, rendered and raw body, and creation time.
pub struct Comment {
    pub id: String,
    pub author: Author,
    pub body_html: String,
    pub body: String,
    pub created_at: String,
}

/// The author of a comment.
pub struct Author {
    pub login: String,
    pub avatar_url: String,
}

} // verus!
