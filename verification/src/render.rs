use vstd::prelude::*;

use crate::config::KommentConfig;
use crate::error::KommentError;
use crate::models::{Comment, Discussion, DiscussionData, DiscussionResponse};
use crate::templates::{
    comment_actions_text, comment_text, discussion_header_text, editor_text, write_comment,
    write_comment_actions, write_discussion_header, write_editor,
};
use crate::text::{lemma_replace_char_leaves_none, opt_chars, replace_all, replace_char};

verus! {

pub const CLOSE_DIV: &'static str = "</div>";

/// How a double quote is written inside the raw-body text area.
pub const QUOTE_ENTITY: &'static str = "&quot;";

/// The editor's style when no comment stands above it.
pub const BORDERLESS_EDITOR_STYLE: &'static str = "border-top: none; padding-top: 0; margin-top: 0;";

/// The login of the signed-in viewer, if the reply names one.
pub open spec fn viewer_login(data: DiscussionData) -> Option<Seq<char>> {
    match data.viewer {
        Some(viewer) => Some(viewer.login@),
        None => None,
    }
}

/// The discussion a reply holds: the one found by number when the reply has a
/// repository, else the first search result, if any.
pub open spec fn chosen_discussion(data: DiscussionData) -> Option<Discussion> {
    match data.repository {
        Some(repository) => repository.discussion,
        None => match data.search {
            Some(search) => if search.edges@.len() > 0 {
                search.edges@[0].node
            } else {
                None
            },
            None => None,
        },
    }
}

/// The discussion and viewer of a reply's `data`, or why there is none.
pub open spec fn selection_from_data(data: Option<DiscussionData>) -> Result<
    (Discussion, Option<Seq<char>>),
    KommentError,
> {
    match data {
        None => Err(KommentError::NoData),
        Some(data) => match chosen_discussion(data) {
            Some(discussion) => Ok((discussion, viewer_login(data))),
            None => Err(KommentError::DiscussionNotFound),
        },
    }
}

/// The discussion and viewer that a reply gives, or why it gives none: a
/// reported GraphQL error comes first, then a missing `data`, then a missing
/// discussion.
pub open spec fn selection(response: DiscussionResponse) -> Result<
    (Discussion, Option<Seq<char>>),
    KommentError,
> {
    match response.errors {
        Some(errors) => if errors@.len() > 0 {
            Err(KommentError::Api(errors@[0].message))
        } else {
            selection_from_data(response.data)
        },
        None => selection_from_data(response.data),
    }
}

/// Takes the discussion and the viewer's login out of a reply.
pub fn select_discussion(response: DiscussionResponse) -> (r: Result<
    (Discussion, Option<String>),
    KommentError,
>)
    ensures
        match r {
            Ok((discussion, viewer)) => selection(response) == Ok::<
                (Discussion, Option<Seq<char>>),
                KommentError,
            >((discussion, opt_chars(viewer))),
            Err(e) => selection(response) == Err::<(Discussion, Option<Seq<char>>), KommentError>(
                e,
            ),
        },
{
    let DiscussionResponse { data, errors } = response;
    if let Some(mut errors) = errors {
        if errors.len() > 0 {
            let first = errors.remove(0);
            return Err(KommentError::Api(first.message));
        }
    }
    let data = match data {
        Some(data) => data,
        None => return Err(KommentError::NoData),
    };
    let ghost whole = data;
    let DiscussionData { repository, search, viewer } = data;
    let login = match viewer {
        Some(viewer) => Some(viewer.login),
        None => None,
    };
    let discussion = match repository {
        Some(repository) => repository.discussion,
        None => match search {
            Some(search) => {
                let mut edges = search.edges;
                if edges.len() > 0 {
                    edges.remove(0).node
                } else {
                    None
                }
            },
            None => None,
        },
    };
    assert(discussion == chosen_discussion(whole));
    match discussion {
        Some(discussion) => Ok((discussion, login)),
        None => Err(KommentError::DiscussionNotFound),
    }
}

/// Whether the viewer wrote `comment`.
pub open spec fn is_author(comment: Comment, viewer: Option<Seq<char>>) -> bool {
    viewer == Some(comment.author.login@)
}

/// One comment as rendered for `viewer`: the edit and delete controls appear on
/// the viewer's own comments only, and the raw body has its quotes written as
/// `&quot;`.
pub open spec fn comment_html(comment: Comment, viewer: Option<Seq<char>>) -> Seq<char> {
    comment_text(
        comment.id@,
        comment.author.avatar_url@,
        comment.author.login@,
        comment.created_at@,
        if is_author(comment, viewer) {
            comment_actions_text(comment.id@)
        } else {
            Seq::empty()
        },
        comment.body_html@,
        replace_char(comment.body@, '"', QUOTE_ENTITY@),
    )
}

/// The raw body placed in a comment's text area holds no double quote.
pub proof fn lemma_raw_body_has_no_quote(body: Seq<char>)
    ensures
        !replace_char(body, '"', QUOTE_ENTITY@).contains('"'),
{
    reveal_strlit("&quot;");
    assert(!QUOTE_ENTITY@.contains('"')) by {
        assert(QUOTE_ENTITY@ =~= seq!['&', 'q', 'u', 'o', 't', ';']);
    }
    lemma_replace_char_leaves_none(body, '"', QUOTE_ENTITY@);
}

/// The comments rendered one after another, in order.
pub open spec fn comments_html(comments: Seq<Comment>, viewer: Option<Seq<char>>) -> Seq<char>
    decreases comments.len(),
{
    if comments.len() == 0 {
        Seq::empty()
    } else {
        comments_html(comments.drop_last(), viewer) + comment_html(comments.last(), viewer)
    }
}

/// The editor's style: without the top border when no comment precedes it.
pub open spec fn editor_style(has_comments: bool) -> Seq<char> {
    if has_comments {
        Seq::empty()
    } else {
        BORDERLESS_EDITOR_STYLE@
    }
}

/// A whole rendered discussion: its header, its comments, and for a signed-in
/// viewer the editor for a new comment.
pub open spec fn discussion_html_text(
    signed_in: bool,
    discussion: Discussion,
    viewer: Option<Seq<char>>,
) -> Seq<char> {
    discussion_header_text(discussion.title@, discussion.body_html@) + comments_html(
        discussion.comments.nodes@,
        viewer,
    ) + CLOSE_DIV@ + if signed_in {
        editor_text(editor_style(discussion.comments.nodes@.len() > 0))
    } else {
        Seq::empty()
    } + CLOSE_DIV@
}

/// The rendered comments, one block per comment, in the comments' order.
proof fn lemma_comments_html_blocks(comments: Seq<Comment>, viewer: Option<Seq<char>>)
    ensures
        comments_html(comments, viewer) == comments.map_values(
            |c: Comment| comment_html(c, viewer),
        ).flatten(),
    decreases comments.len(),
{
    let blocks = comments.map_values(|c: Comment| comment_html(c, viewer));
    blocks.lemma_flatten_and_flatten_alt_are_equivalent();
    if comments.len() > 0 {
        lemma_comments_html_blocks(comments.drop_last(), viewer);
        let rest = comments.drop_last().map_values(|c: Comment| comment_html(c, viewer));
        assert(blocks.drop_last() =~= rest);
        rest.lemma_flatten_and_flatten_alt_are_equivalent();
    }
}

/// A rendered discussion holds, right after its header, one block for every
/// comment of the discussion, each the comment as rendered for the viewer, in the
/// comments' order, and then the closing of the comment list.
pub proof fn lemma_every_comment_rendered_in_order(
    signed_in: bool,
    discussion: Discussion,
    viewer: Option<Seq<char>>,
)
    ensures
        ({
            let html = discussion_html_text(signed_in, discussion, viewer);
            let header = discussion_header_text(discussion.title@, discussion.body_html@);
            let blocks = discussion.comments.nodes@.map_values(
                |c: Comment| comment_html(c, viewer),
            );
            &&& blocks.len() == discussion.comments.nodes@.len()
            &&& forall|k: int|
                0 <= k < blocks.len() ==> #[trigger] blocks[k] == comment_html(
                    discussion.comments.nodes@[k],
                    viewer,
                )
            &&& html.take((header + blocks.flatten()).len() as int) == header + blocks.flatten()
            &&& html.subrange(
                (header + blocks.flatten()).len() as int,
                (header + blocks.flatten()).len() + CLOSE_DIV@.len() as int,
            ) == CLOSE_DIV@
        }),
{
    let html = discussion_html_text(signed_in, discussion, viewer);
    let header = discussion_header_text(discussion.title@, discussion.body_html@);
    let blocks = discussion.comments.nodes@.map_values(|c: Comment| comment_html(c, viewer));
    lemma_comments_html_blocks(discussion.comments.nodes@, viewer);
    let front = header + blocks.flatten();
    assert(html.take(front.len() as int) =~= front);
    assert(html.subrange(front.len() as int, front.len() + CLOSE_DIV@.len() as int) =~= CLOSE_DIV@);
}

/// Appends one rendered comment to `html`.
fn write_comment_html(html: &mut String, comment: &Comment, viewer_login: &Option<String>)
    ensures
        final(html)@ == old(html)@ + comment_html(*comment, opt_chars(*viewer_login)),
{
    let own = match viewer_login {
        Some(login) => *login == comment.author.login,
        None => false,
    };
    let mut actions = String::new();
    if own {
        write_comment_actions(&mut actions, comment.id.as_str());
    }
    let body_raw = replace_all(comment.body.as_str(), '"', QUOTE_ENTITY);
    write_comment(
        html,
        comment.id.as_str(),
        comment.author.avatar_url.as_str(),
        comment.author.login.as_str(),
        comment.created_at.as_str(),
        actions.as_str(),
        comment.body_html.as_str(),
        body_raw.as_str(),
    );
}

/// Renders a discussion for the viewer `viewer_login`.
pub fn discussion_html(
    config: &KommentConfig,
    discussion: &Discussion,
    viewer_login: &Option<String>,
) -> (html: String)
    ensures
        html@ == discussion_html_text(config.token is Some, *discussion, opt_chars(*viewer_login)),
{
    let ghost viewer = opt_chars(*viewer_login);
    let mut html = String::new();
    write_discussion_header(&mut html, discussion.title.as_str(), discussion.body_html.as_str());
    let ghost header = html@;
    let comments = &discussion.comments.nodes;
    let mut i: usize = 0;
    while i < comments.len()
        invariant
            0 <= i <= comments@.len(),
            viewer == opt_chars(*viewer_login),
            html@ == header + comments_html(comments@.take(i as int), viewer),
        decreases comments@.len() - i,
    {
        write_comment_html(&mut html, &comments[i], viewer_login);
        assert(comments@.take(i + 1).drop_last() == comments@.take(i as int));
        i += 1;
    }
    assert(comments@.take(comments@.len() as int) == comments@);
    html.append(CLOSE_DIV);
    if config.token.is_some() {
        if comments.len() > 0 {
            write_editor(&mut html, "");
            proof {
                reveal_strlit("");
            }
        } else {
            write_editor(&mut html, BORDERLESS_EDITOR_STYLE);
        }
    }
    html.append(CLOSE_DIV);
    html
}

/// A discussion ready to be placed in the page: its id and its markup.
pub struct RenderedDiscussion {
    pub discussion_id: String,
    pub html: String,
}

/// Renders the discussion that a reply holds, or reports why it holds none.
pub fn render_discussion(config: &KommentConfig, response: DiscussionResponse) -> (r: Result<
    RenderedDiscussion,
    KommentError,
>)
    ensures
        match selection(response) {
            Ok((discussion, viewer)) => r matches Ok(out) && out.discussion_id@ == discussion.id@
                && out.html@ == discussion_html_text(config.token is Some, discussion, viewer),
            Err(e) => r == Err::<RenderedDiscussion, KommentError>(e),
        },
{
    let (discussion, viewer_login) = match select_discussion(response) {
        Ok(selected) => selected,
        Err(e) => return Err(e),
    };
    let discussion_id = discussion.id.clone();
    let html = discussion_html(config, &discussion, &viewer_login);
    Ok(RenderedDiscussion { discussion_id, html })
}

} // verus!
