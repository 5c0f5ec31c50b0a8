use vstd::prelude::*;

verus! {

pub const NUMBER_QUERY_0: &'static str = "query {\n                viewer { login }\n                repository(owner: \"";
pub const NUMBER_QUERY_1: &'static str = "\", name: \"";
pub const NUMBER_QUERY_2: &'static str = "\") {\n                    discussion(number: ";
pub const NUMBER_QUERY_3: &'static str = ") {\n                        id\n                        title\n                        bodyHTML\n                        comments(first: 100) {\n                            nodes {\n                                id\n                                author {\n                                    login\n                                    avatarUrl\n                                }\n                                bodyHTML\n                                body\n                                createdAt\n                            }\n                        }\n                    }\n                }\n            }";

/// The query that loads a discussion by its number, with the viewer and its first hundred comments.
pub open spec fn number_query_text(owner: Seq<char>, name: Seq<char>, number: Seq<char>) -> Seq<char> {
    NUMBER_QUERY_0@ + owner + NUMBER_QUERY_1@ + name + NUMBER_QUERY_2@ + number + NUMBER_QUERY_3@
}

/// Appends [`number_query_text`] to `out`.
pub fn write_number_query(out: &mut String, owner: &str, name: &str, number: &str)
    ensures
        final(out)@ == old(out)@ + number_query_text(owner@, name@, number@),
{
    let ghost start = out@;
    out.append(NUMBER_QUERY_0);
    out.append(owner);
    out.append(NUMBER_QUERY_1);
    out.append(name);
    out.append(NUMBER_QUERY_2);
    out.append(number);
    out.append(NUMBER_QUERY_3);
    assert(out@ =~= start + number_query_text(owner@, name@, number@));
}

pub const SEARCH_QUERY_0: &'static str = "query {\n                viewer { login }\n                search(query: \"repo:";
pub const SEARCH_QUERY_1: &'static str = "/";
pub const SEARCH_QUERY_2: &'static str = " is:discussion \\\"";
pub const SEARCH_QUERY_3: &'static str = "\\\"\", type: DISCUSSION, first: 1) {\n                    edges {\n                        node {\n                            ... on Discussion {\n                                id\n                                title\n                                bodyHTML\n                                comments(first: 100) {\n                                    nodes {\n                                        id\n                                        author {\n                                            login\n                                            avatarUrl\n                                        }\n                                        bodyHTML\n                                        body\n                                        createdAt\n                                    }\n                                }\n                            }\n                        }\n                    }\n                }\n            }";

/// The query that searches the repository for a discussion matching a term, with the viewer and its first hundred comments.
pub open spec fn search_query_text(owner: Seq<char>, name: Seq<char>, term: Seq<char>) -> Seq<char> {
    SEARCH_QUERY_0@ + owner + SEARCH_QUERY_1@ + name + SEARCH_QUERY_2@ + term + SEARCH_QUERY_3@
}

/// Appends [`search_query_text`] to `out`.
pub fn write_search_query(out: &mut String, owner: &str, name: &str, term: &str)
    ensures
        final(out)@ == old(out)@ + search_query_text(owner@, name@, term@),
{
    let ghost start = out@;
    out.append(SEARCH_QUERY_0);
    out.append(owner);
    out.append(SEARCH_QUERY_1);
    out.append(name);
    out.append(SEARCH_QUERY_2);
    out.append(term);
    out.append(SEARCH_QUERY_3);
    assert(out@ =~= start + search_query_text(owner@, name@, term@));
}

pub const REPOSITORY_IDS_QUERY_0: &'static str = "query {\n            repository(owner: \"";
pub const REPOSITORY_IDS_QUERY_1: &'static str = "\", name: \"";
pub const REPOSITORY_IDS_QUERY_2: &'static str = "\") {\n                id\n                discussionCategories(first: 10) {\n                    nodes {\n                        id\n                        name\n                    }\n                }\n            }\n        }";

/// The query for a repository's id and its first ten discussion categories.
pub open spec fn repository_ids_query_text(repo_owner: Seq<char>, repo_name: Seq<char>) -> Seq<char> {
    REPOSITORY_IDS_QUERY_0@ + repo_owner + REPOSITORY_IDS_QUERY_1@ + repo_name + REPOSITORY_IDS_QUERY_2@
}

/// Appends [`repository_ids_query_text`] to `out`.
pub fn write_repository_ids_query(out: &mut String, repo_owner: &str, repo_name: &str)
    ensures
        final(out)@ == old(out)@ + repository_ids_query_text(repo_owner@, repo_name@),
{
    let ghost start = out@;
    out.append(REPOSITORY_IDS_QUERY_0);
    out.append(repo_owner);
    out.append(REPOSITORY_IDS_QUERY_1);
    out.append(repo_name);
    out.append(REPOSITORY_IDS_QUERY_2);
    assert(out@ =~= start + repository_ids_query_text(repo_owner@, repo_name@));
}

pub const CREATE_DISCUSSION_MUTATION_0: &'static str = "mutation {\n            createDiscussion(input: {repositoryId: \"";
pub const CREATE_DISCUSSION_MUTATION_1: &'static str = "\", categoryId: \"";
pub const CREATE_DISCUSSION_MUTATION_2: &'static str = "\", title: ";
pub const CREATE_DISCUSSION_MUTATION_3: &'static str = ", body: ";
pub const CREATE_DISCUSSION_MUTATION_4: &'static str = "}) {\n                discussion {\n                    id\n                }\n            }\n        }";

/// The mutation that opens a discussion; `title` and `body` are already quoted GraphQL strings.
pub open spec fn create_discussion_mutation_text(repo_id: Seq<char>, category_id: Seq<char>, title: Seq<char>, body: Seq<char>) -> Seq<char> {
    CREATE_DISCUSSION_MUTATION_0@ + repo_id + CREATE_DISCUSSION_MUTATION_1@ + category_id + CREATE_DISCUSSION_MUTATION_2@ + title + CREATE_DISCUSSION_MUTATION_3@ + body + CREATE_DISCUSSION_MUTATION_4@
}

/// Appends [`create_discussion_mutation_text`] to `out`.
pub fn write_create_discussion_mutation(out: &mut String, repo_id: &str, category_id: &str, title: &str, body: &str)
    ensures
        final(out)@ == old(out)@ + create_discussion_mutation_text(repo_id@, category_id@, title@, body@),
{
    let ghost start = out@;
    out.append(CREATE_DISCUSSION_MUTATION_0);
    out.append(repo_id);
    out.append(CREATE_DISCUSSION_MUTATION_1);
    out.append(category_id);
    out.append(CREATE_DISCUSSION_MUTATION_2);
    out.append(title);
    out.append(CREATE_DISCUSSION_MUTATION_3);
    out.append(body);
    out.append(CREATE_DISCUSSION_MUTATION_4);
    assert(out@ =~= start + create_discussion_mutation_text(repo_id@, category_id@, title@, body@));
}

pub const ADD_COMMENT_MUTATION_0: &'static str = "mutation {\n            addDiscussionComment(input: {discussionId: \"";
pub const ADD_COMMENT_MUTATION_1: &'static str = "\", body: ";
pub const ADD_COMMENT_MUTATION_2: &'static str = "}) {\n                comment {\n                    id\n                }\n            }\n        }";

/// The mutation that adds a comment to a discussion; `body` is an already quoted GraphQL string.
pub open spec fn add_comment_mutation_text(discussion_id: Seq<char>, body: Seq<char>) -> Seq<char> {
    ADD_COMMENT_MUTATION_0@ + discussion_id + ADD_COMMENT_MUTATION_1@ + body + ADD_COMMENT_MUTATION_2@
}

/// Appends [`add_comment_mutation_text`] to `out`.
pub fn write_add_comment_mutation(out: &mut String, discussion_id: &str, body: &str)
    ensures
        final(out)@ == old(out)@ + add_comment_mutation_text(discussion_id@, body@),
{
    let ghost start = out@;
    out.append(ADD_COMMENT_MUTATION_0);
    out.append(discussion_id);
    out.append(ADD_COMMENT_MUTATION_1);
    out.append(body);
    out.append(ADD_COMMENT_MUTATION_2);
    assert(out@ =~= start + add_comment_mutation_text(discussion_id@, body@));
}

pub const DELETE_COMMENT_MUTATION_0: &'static str = "mutation {\n            deleteDiscussionComment(input: {id: \"";
pub const DELETE_COMMENT_MUTATION_1: &'static str = "\"}) {\n                comment {\n                    id\n                }\n            }\n        }";

/// The mutation that deletes a discussion comment.
pub open spec fn delete_comment_mutation_text(comment_id: Seq<char>) -> Seq<char> {
    DELETE_COMMENT_MUTATION_0@ + comment_id + DELETE_COMMENT_MUTATION_1@
}

/// Appends [`delete_comment_mutation_text`] to `out`.
pub fn write_delete_comment_mutation(out: &mut String, comment_id: &str)
    ensures
        final(out)@ == old(out)@ + delete_comment_mutation_text(comment_id@),
{
    let ghost start = out@;
    out.append(DELETE_COMMENT_MUTATION_0);
    out.append(comment_id);
    out.append(DELETE_COMMENT_MUTATION_1);
    assert(out@ =~= start + delete_comment_mutation_text(comment_id@));
}

pub const UPDATE_COMMENT_MUTATION_0: &'static str = "mutation {\n            updateDiscussionComment(input: {commentId: \"";
pub const UPDATE_COMMENT_MUTATION_1: &'static str = "\", body: ";
pub const UPDATE_COMMENT_MUTATION_2: &'static str = "}) {\n                comment {\n                    id\n                }\n            }\n        }";

/// The mutation that replaces a comment's body; `body` is an already quoted GraphQL string.
pub open spec fn update_comment_mutation_text(comment_id: Seq<char>, body: Seq<char>) -> Seq<char> {
    UPDATE_COMMENT_MUTATION_0@ + comment_id + UPDATE_COMMENT_MUTATION_1@ + body + UPDATE_COMMENT_MUTATION_2@
}

/// Appends [`update_comment_mutation_text`] to `out`.
pub fn write_update_comment_mutation(out: &mut String, comment_id: &str, body: &str)
    ensures
        final(out)@ == old(out)@ + update_comment_mutation_text(comment_id@, body@),
{
    let ghost start = out@;
    out.append(UPDATE_COMMENT_MUTATION_0);
    out.append(comment_id);
    out.append(UPDATE_COMMENT_MUTATION_1);
    out.append(body);
    out.append(UPDATE_COMMENT_MUTATION_2);
    assert(out@ =~= start + update_comment_mutation_text(comment_id@, body@));
}

pub const DISCUSSION_HEADER_0: &'static str = "<div class=\"komment-discussion\">\n            <h2>";
pub const DISCUSSION_HEADER_1: &'static str = "</h2>\n            <div class=\"komment-body\">";
pub const DISCUSSION_HEADER_2: &'static str = "</div>\n            <div class=\"komment-comments\">";

/// The opening of a rendered discussion: its title, its body, and the start of the comment list.
pub open spec fn discussion_header_text(title: Seq<char>, body_html: Seq<char>) -> Seq<char> {
    DISCUSSION_HEADER_0@ + title + DISCUSSION_HEADER_1@ + body_html + DISCUSSION_HEADER_2@
}

/// Appends [`discussion_header_text`] to `out`.
pub fn write_discussion_header(out: &mut String, title: &str, body_html: &str)
    ensures
        final(out)@ == old(out)@ + discussion_header_text(title@, body_html@),
{
    let ghost start = out@;
    out.append(DISCUSSION_HEADER_0);
    out.append(title);
    out.append(DISCUSSION_HEADER_1);
    out.append(body_html);
    out.append(DISCUSSION_HEADER_2);
    assert(out@ =~= start + discussion_header_text(title@, body_html@));
}

pub const COMMENT_0: &'static str = "<div class=\"komment-comment\" id=\"comment-";
pub const COMMENT_1: &'static str = "\">\n                <div class=\"komment-comment-header\">\n                    <div style=\"display:flex; align-items:center; gap:10px;\">\n                        <img src=\"";
pub const COMMENT_2: &'static str = "\" width=\"30\" height=\"30\" />\n                        <strong>";
pub const COMMENT_3: &'static str = "</strong> at ";
pub const COMMENT_4: &'static str = "\n                    </div>\n                    ";
pub const COMMENT_5: &'static str = "\n                </div>\n                <div class=\"komment-comment-body\" id=\"body-";
pub const COMMENT_6: &'static str = "\">";
pub const COMMENT_7: &'static str = "</div>\n                <div class=\"komment-comment-edit\" id=\"edit-form-";
pub const COMMENT_8: &'static str = "\" style=\"display:none; padding:16px;\">\n                    <textarea id=\"textarea-";
pub const COMMENT_9: &'static str = "\" style=\"width:100%; min-height:80px; margin-bottom:10px;\">";
pub const COMMENT_10: &'static str = "</textarea>\n                    <div style=\"display:flex; gap:10px;\">\n                        <button class=\"komment-save-btn\" data-id=\"";
pub const COMMENT_11: &'static str = "\">Save</button>\n                        <button class=\"komment-cancel-btn\" data-id=\"";
pub const COMMENT_12: &'static str = "\">Cancel</button>\n                    </div>\n                </div>\n            </div>";

/// One rendered comment, with its edit form; `actions` is the author's controls or nothing.
pub open spec fn comment_text(id: Seq<char>, avatar: Seq<char>, author: Seq<char>, date: Seq<char>, actions: Seq<char>, body_html: Seq<char>, body_raw: Seq<char>) -> Seq<char> {
    COMMENT_0@ + id + COMMENT_1@ + avatar + COMMENT_2@ + author + COMMENT_3@ + date + COMMENT_4@ + actions + COMMENT_5@ + id + COMMENT_6@ + body_html + COMMENT_7@ + id + COMMENT_8@ + id + COMMENT_9@ + body_raw + COMMENT_10@ + id + COMMENT_11@ + id + COMMENT_12@
}

/// Appends [`comment_text`] to `out`.
pub fn write_comment(out: &mut String, id: &str, avatar: &str, author: &str, date: &str, actions: &str, body_html: &str, body_raw: &str)
    ensures
        final(out)@ == old(out)@ + comment_text(id@, avatar@, author@, date@, actions@, body_html@, body_raw@),
{
    let ghost start = out@;
    out.append(COMMENT_0);
    out.append(id);
    out.append(COMMENT_1);
    out.append(avatar);
    out.append(COMMENT_2);
    out.append(author);
    out.append(COMMENT_3);
    out.append(date);
    out.append(COMMENT_4);
    out.append(actions);
    out.append(COMMENT_5);
    out.append(id);
    out.append(COMMENT_6);
    out.append(body_html);
    out.append(COMMENT_7);
    out.append(id);
    out.append(COMMENT_8);
    out.append(id);
    out.append(COMMENT_9);
    out.append(body_raw);
    out.append(COMMENT_10);
    out.append(id);
    out.append(COMMENT_11);
    out.append(id);
    out.append(COMMENT_12);
    assert(out@ =~= start + comment_text(id@, avatar@, author@, date@, actions@, body_html@, body_raw@));
}

pub const COMMENT_ACTIONS_0: &'static str = "<div class=\"komment-actions\">\n                        <button class=\"komment-edit-btn\" data-id=\"";
pub const COMMENT_ACTIONS_1: &'static str = "\" title=\"Edit\">\n                            <svg height=\"16\" viewBox=\"0 0 16 16\" width=\"16\"><path d=\"M11.013 1.427a.75.75 0 0 1 1.06 0l2.5 2.5a.75.75 0 0 1 0 1.06l-9.5 9.5a.75.75 0 0 1-.53.22H2.25a.75.75 0 0 1-.75-.75v-2.293a.75.75 0 0 1 .22-.53l9.5-9.5Zm.97 1.06L2.97 11.513v1.517h1.517L13.513 4.03l-1.53-1.532Z\"></path></svg>\n                        </button>\n                        <button class=\"komment-delete-btn\" data-id=\"";
pub const COMMENT_ACTIONS_2: &'static str = "\" title=\"Delete\">\n                            <svg height=\"16\" viewBox=\"0 0 16 16\" width=\"16\"><path d=\"M11 1.75V3h2.25a.75.75 0 0 1 0 1.5H2.75a.75.75 0 0 1 0-1.5H5V1.75C5 .784 5.784 0 6.75 0h2.5C10.216 0 11 .784 11 1.75ZM4.496 6.675a.75.75 0 1 0-1.492.15l.66 6.6A1.75 1.75 0 0 0 5.405 15h5.19c.9 0 1.652-.681 1.741-1.576l.66-6.6a.75.75 0 0 0-1.492-.149l-.66 6.6a.25.25 0 0 1-.249.225h-5.19a.25.25 0 0 1-.249-.225l-.66-6.6Z\"></path></svg>\n                        </button>\n                    </div>";

/// The edit and delete buttons shown on the viewer's own comment.
pub open spec fn comment_actions_text(id: Seq<char>) -> Seq<char> {
    COMMENT_ACTIONS_0@ + id + COMMENT_ACTIONS_1@ + id + COMMENT_ACTIONS_2@
}

/// Appends [`comment_actions_text`] to `out`.
pub fn write_comment_actions(out: &mut String, id: &str)
    ensures
        final(out)@ == old(out)@ + comment_actions_text(id@),
{
    let ghost start = out@;
    out.append(COMMENT_ACTIONS_0);
    out.append(id);
    out.append(COMMENT_ACTIONS_1);
    out.append(id);
    out.append(COMMENT_ACTIONS_2);
    assert(out@ =~= start + comment_actions_text(id@));
}

pub const EDITOR_0: &'static str = "<div class=\"komment-editor\" style=\"";
pub const EDITOR_1: &'static str = "\">\n                <textarea id=\"komment-textarea\" placeholder=\"Leave a comment...\"></textarea>\n                <div style=\"display:flex; gap:10px;\">\n                    <button id=\"logout-btn-inline\" class=\"komment-logout-btn\">\n                        <svg height=\"16\" viewBox=\"0 0 16 16\" width=\"16\" style=\"fill:currentColor;\"><path d=\"M8 0c4.42 0 8 3.58 8 8a8.013 8.013 0 0 1-5.45 7.59c-.4.08-.55-.17-.55-.38 0-.27.01-1.13.01-2.2 0-.75-.31-1.23-.64-1.48 2.05-.23 4.2-.61 4.2-4.13 0-.91-.32-1.65-.84-2.24.08-.21.36-1.07-.08-2.21 0 0-.7-.23-2.29.86-.66-.18-1.37-.27-2.07-.27-.69 0-1.4.09-2.07.27-1.59-1.09-2.29-.86-2.29-.86-.44 1.14-.16 2-.08 2.21-.52.59-.84 1.33-.84 2.24 0 3.51 2.15 3.89 4.2 4.13-.26.21-.51.59-.59.91-.4.18-1.44.49-2.07-.59-.14-.24-.4-.44-.68-.48-.28-.04-.42.01-.1.08.2.06.41.29.54.52.19.34.18.96.48 1.16.2.14.71.1 1.05.07.01.67.01 1.3.01 1.48 0 .21-.15.46-.55.38A8.013 8.013 0 0 1 0 8c0-4.42 3.58-8 8-8z\"></path></svg>\n                        Logout\n                    </button>\n                    <button id=\"komment-submit\">Post Comment</button>\n                </div>\n            </div>";

/// The new-comment editor shown to a signed-in viewer.
pub open spec fn editor_text(editor_style: Seq<char>) -> Seq<char> {
    EDITOR_0@ + editor_style + EDITOR_1@
}

/// Appends [`editor_text`] to `out`.
pub fn write_editor(out: &mut String, editor_style: &str)
    ensures
        final(out)@ == old(out)@ + editor_text(editor_style@),
{
    let ghost start = out@;
    out.append(EDITOR_0);
    out.append(editor_style);
    out.append(EDITOR_1);
    assert(out@ =~= start + editor_text(editor_style@));
}

} // verus!
