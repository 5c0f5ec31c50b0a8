use komment::api::{
    create_discussion_mutation, delete_comment_mutation, escape_graphql_string, fetch_discussion_query,
    find_category_id, graphql_failure, http_failure, http_failure_from, post_comment_mutation,
    prepare_graphql_request, quote_graphql_string, repository_ids_query, split_repo,
    update_comment_mutation, CategoryNode, RepositoryIds,
};
use komment::config::KommentConfig;
use komment::error::KommentError;
use komment::models::{
    Author, Comment, CommentsConnection, Discussion, DiscussionData, DiscussionResponse, GithubError,
    RepositoryData, SearchData, SearchEdge, ViewerData,
};
use komment::render::{discussion_html, render_discussion, select_discussion};
use komment::text::{replace_all, split_once_char, u16_decimal};

// Renderings written directly with `format!`, to hold the library's output against.

fn reference_escape(s: &str) -> String {
    serde_json::to_string(s).unwrap_or_else(|_| format!("\"{}\"", s.replace('"', "\\\"").replace('\n', "\\n")))
}

fn reference_number_query(owner: &str, name: &str, term: &str) -> String {
    format!(
            r#"query {{
                viewer {{ login }}
                repository(owner: "{owner}", name: "{name}") {{
                    discussion(number: {number}) {{
                        id
                        title
                        bodyHTML
                        comments(first: 100) {{
                            nodes {{
                                id
                                author {{
                                    login
                                    avatarUrl
                                }}
                                bodyHTML
                                body
                                createdAt
                            }}
                        }}
                    }}
                }}
            }}"#,
            owner = owner,
            name = name,
            number = term
        )
}

fn reference_search_query(owner: &str, name: &str, term: &str) -> String {
    format!(
            r#"query {{
                viewer {{ login }}
                search(query: "repo:{owner}/{name} is:discussion \"{term}\"", type: DISCUSSION, first: 1) {{
                    edges {{
                        node {{
                            ... on Discussion {{
                                id
                                title
                                bodyHTML
                                comments(first: 100) {{
                                    nodes {{
                                        id
                                        author {{
                                            login
                                            avatarUrl
                                        }}
                                        bodyHTML
                                        body
                                        createdAt
                                    }}
                                }}
                            }}
                        }}
                    }}
                }}
            }}"#,
            owner = owner,
            name = name,
            term = term
        )
}

fn reference_repository_ids_query(repo_owner: &str, repo_name: &str) -> String {
    format!(
        r#"query {{
            repository(owner: "{repo_owner}", name: "{repo_name}") {{
                id
                discussionCategories(first: 10) {{
                    nodes {{
                        id
                        name
                    }}
                }}
            }}
        }}"#,
        repo_owner = repo_owner,
        repo_name = repo_name
    )
}

fn reference_create_mutation(repo_id: &str, category_id: &str, title: &str, body: &str) -> String {
    format!(
        r#"mutation {{
            createDiscussion(input: {{repositoryId: "{repo_id}", categoryId: "{category_id}", title: {title}, body: {body}}}) {{
                discussion {{
                    id
                }}
            }}
        }}"#,
        repo_id = repo_id,
        category_id = category_id,
        title = reference_escape(title),
        body = reference_escape(body)
    )
}

fn reference_post_comment(discussion_id: &str, body: &str) -> String {
    format!(
        r#"mutation {{
            addDiscussionComment(input: {{discussionId: "{discussion_id}", body: {body}}}) {{
                comment {{
                    id
                }}
            }}
        }}"#,
        discussion_id = discussion_id,
        body = reference_escape(body)
    )
}

fn reference_delete_comment(comment_id: &str) -> String {
    format!(
        r#"mutation {{
            deleteDiscussionComment(input: {{id: "{comment_id}"}}) {{
                comment {{
                    id
                }}
            }}
        }}"#,
        comment_id = comment_id
    )
}

fn reference_update_comment(comment_id: &str, body: &str) -> String {
    format!(
        r#"mutation {{
            updateDiscussionComment(input: {{commentId: "{comment_id}", body: {body}}}) {{
                comment {{
                    id
                }}
            }}
        }}"#,
        comment_id = comment_id,
        body = reference_escape(body)
    )
}

fn reference_html(token: &Option<String>, discussion: &Discussion, viewer: &Option<String>) -> String {
    let viewer_login = viewer.as_ref().map(|v| v.as_str());
    let config_token_is_some = token.is_some();
    let mut html = format!(
        r#"<div class="komment-discussion">
            <h2>{}</h2>
            <div class="komment-body">{}</div>
            <div class="komment-comments">"#,
        discussion.title, discussion.body_html
    );

    for comment in &discussion.comments.nodes {
        let is_author = viewer_login == Some(comment.author.login.as_str());
        
        html.push_str(&format!(
            r#"<div class="komment-comment" id="comment-{id}">
                <div class="komment-comment-header">
                    <div style="display:flex; align-items:center; gap:10px;">
                        <img src="{avatar}" width="30" height="30" />
                        <strong>{author}</strong> at {date}
                    </div>
                    {actions}
                </div>
                <div class="komment-comment-body" id="body-{id}">{body_html}</div>
                <div class="komment-comment-edit" id="edit-form-{id}" style="display:none; padding:16px;">
                    <textarea id="textarea-{id}" style="width:100%; min-height:80px; margin-bottom:10px;">{body_raw}</textarea>
                    <div style="display:flex; gap:10px;">
                        <button class="komment-save-btn" data-id="{id}">Save</button>
                        <button class="komment-cancel-btn" data-id="{id}">Cancel</button>
                    </div>
                </div>
            </div>"#,
            id = comment.id,
            author = comment.author.login,
            avatar = comment.author.avatar_url,
            date = comment.created_at,
            body_html = comment.body_html,
            body_raw = comment.body.replace('"', "&quot;"),
            actions = if is_author {
                format!(
                    r#"<div class="komment-actions">
                        <button class="komment-edit-btn" data-id="{id}" title="Edit">
                            <svg height="16" viewBox="0 0 16 16" width="16"><path d="M11.013 1.427a.75.75 0 0 1 1.06 0l2.5 2.5a.75.75 0 0 1 0 1.06l-9.5 9.5a.75.75 0 0 1-.53.22H2.25a.75.75 0 0 1-.75-.75v-2.293a.75.75 0 0 1 .22-.53l9.5-9.5Zm.97 1.06L2.97 11.513v1.517h1.517L13.513 4.03l-1.53-1.532Z"></path></svg>
                        </button>
                        <button class="komment-delete-btn" data-id="{id}" title="Delete">
                            <svg height="16" viewBox="0 0 16 16" width="16"><path d="M11 1.75V3h2.25a.75.75 0 0 1 0 1.5H2.75a.75.75 0 0 1 0-1.5H5V1.75C5 .784 5.784 0 6.75 0h2.5C10.216 0 11 .784 11 1.75ZM4.496 6.675a.75.75 0 1 0-1.492.15l.66 6.6A1.75 1.75 0 0 0 5.405 15h5.19c.9 0 1.652-.681 1.741-1.576l.66-6.6a.75.75 0 0 0-1.492-.149l-.66 6.6a.25.25 0 0 1-.249.225h-5.19a.25.25 0 0 1-.249-.225l-.66-6.6Z"></path></svg>
                        </button>
                    </div>"#,
                    id = comment.id
                )
            } else {
                "".to_string()
            }
        ));
    }

    html.push_str("</div>");

    if config_token_is_some {
        let has_comments = !discussion.comments.nodes.is_empty();
        let editor_style = if has_comments { "" } else { "border-top: none; padding-top: 0; margin-top: 0;" };
        
        html.push_str(&format!(
            r#"<div class="komment-editor" style="{editor_style}">
                <textarea id="komment-textarea" placeholder="Leave a comment..."></textarea>
                <div style="display:flex; gap:10px;">
                    <button id="logout-btn-inline" class="komment-logout-btn">
                        <svg height="16" viewBox="0 0 16 16" width="16" style="fill:currentColor;"><path d="M8 0c4.42 0 8 3.58 8 8a8.013 8.013 0 0 1-5.45 7.59c-.4.08-.55-.17-.55-.38 0-.27.01-1.13.01-2.2 0-.75-.31-1.23-.64-1.48 2.05-.23 4.2-.61 4.2-4.13 0-.91-.32-1.65-.84-2.24.08-.21.36-1.07-.08-2.21 0 0-.7-.23-2.29.86-.66-.18-1.37-.27-2.07-.27-.69 0-1.4.09-2.07.27-1.59-1.09-2.29-.86-2.29-.86-.44 1.14-.16 2-.08 2.21-.52.59-.84 1.33-.84 2.24 0 3.51 2.15 3.89 4.2 4.13-.26.21-.51.59-.59.91-.4.18-1.44.49-2.07-.59-.14-.24-.4-.44-.68-.48-.28-.04-.42.01-.1.08.2.06.41.29.54.52.19.34.18.96.48 1.16.2.14.71.1 1.05.07.01.67.01 1.3.01 1.48 0 .21-.15.46-.55.38A8.013 8.013 0 0 1 0 8c0-4.42 3.58-8 8-8z"></path></svg>
                        Logout
                    </button>
                    <button id="komment-submit">Post Comment</button>
                </div>
            </div>"#,
            editor_style = editor_style
        ));
    }

    html.push_str("</div>");

    html
}

fn config(mapping: &str, term: &str, token: Option<&str>) -> KommentConfig {
    KommentConfig {
        repo: "octo/blog".to_string(),
        repo_id: None,
        category: None,
        category_id: None,
        mapping: mapping.to_string(),
        term: term.to_string(),
        token: token.map(|t| t.to_string()),
        api_url: None,
    }
}

fn comment(id: &str, login: &str, body: &str) -> Comment {
    Comment {
        id: id.to_string(),
        author: Author { login: login.to_string(), avatar_url: format!("https://avatars/{}", login) },
        body_html: format!("<p>{}</p>", body),
        body: body.to_string(),
        created_at: "2024-05-01T10:00:00Z".to_string(),
    }
}

fn discussion(comments: Vec<Comment>) -> Discussion {
    Discussion {
        id: "D_1".to_string(),
        title: "komment: example.com/post".to_string(),
        body_html: "<p>Thread</p>".to_string(),
        comments: CommentsConnection { nodes: comments },
    }
}

#[test]
fn escape_uses_json_string_literal() {
    assert_eq!(escape_graphql_string("plain"), "\"plain\"");
    assert_eq!(escape_graphql_string("say \"hi\"\nnow\\"), "\"say \\\"hi\\\"\\nnow\\\\\"");
    assert_eq!(escape_graphql_string("tab\there"), "\"tab\\there\"");
    assert_eq!(escape_graphql_string(""), "\"\"");
    assert_eq!(escape_graphql_string("x\u{1}y"), reference_escape("x\u{1}y"));
}

#[test]
fn fallback_quoting_escapes_quotes_and_line_feeds() {
    assert_eq!(quote_graphql_string("a\"b\nc", None), "\"a\\\"b\\nc\"");
    assert_eq!(quote_graphql_string("", None), "\"\"");
    assert_eq!(quote_graphql_string("ignored", Some("\"given\"".to_string())), "\"given\"");
}

#[test]
fn replace_all_replaces_every_occurrence() {
    assert_eq!(replace_all("a\"b\"\"", '"', "&quot;"), "a&quot;b&quot;&quot;");
    assert_eq!(replace_all("none here", '"', "&quot;"), "none here");
    assert_eq!(replace_all("", '"', "&quot;"), "");
}

#[test]
fn split_at_first_separator() {
    assert_eq!(split_once_char("octo/blog/extra", '/'), Some(("octo".to_string(), "blog/extra".to_string())));
    assert_eq!(split_once_char("/x", '/'), Some(("".to_string(), "x".to_string())));
    assert_eq!(split_once_char("noslash", '/'), None);
    assert_eq!(split_repo("a/b").ok(), Some(("a".to_string(), "b".to_string())));
    assert!(matches!(split_repo("ab"), Err(KommentError::InvalidRepoFormat)));
}

#[test]
fn decimal_digits() {
    assert_eq!(u16_decimal(0), "0");
    assert_eq!(u16_decimal(7), "7");
    assert_eq!(u16_decimal(10), "10");
    assert_eq!(u16_decimal(404), "404");
    assert_eq!(u16_decimal(65535), "65535");
}

#[test]
fn fetch_requires_a_token() {
    let e = fetch_discussion_query(&config("number", "4", None)).unwrap_err();
    assert!(matches!(e, KommentError::NotSignedIn));
    assert_eq!(e.message(), "401 Unauthorized: Please login to view comments");
    let mut bad = config("number", "4", None);
    bad.repo = "octoblog".to_string();
    // Without a token, the missing token is reported even for a malformed repository.
    assert!(matches!(fetch_discussion_query(&bad), Err(KommentError::NotSignedIn)));
}

#[test]
fn fetch_rejects_repo_without_slash() {
    let mut c = config("number", "4", Some("tok"));
    c.repo = "octoblog".to_string();
    let e = fetch_discussion_query(&c).unwrap_err();
    assert!(matches!(e, KommentError::InvalidRepoFormat));
    assert_eq!(e.message(), "Invalid repo format");
}

#[test]
fn fetch_by_number() {
    let q = fetch_discussion_query(&config("number", "42", Some("tok"))).unwrap();
    assert_eq!(q, reference_number_query("octo", "blog", "42"));
    assert!(q.contains("discussion(number: 42)"));
}

#[test]
fn fetch_by_search() {
    let q = fetch_discussion_query(&config("pathname", "komment: example.com/post", Some("tok"))).unwrap();
    assert_eq!(q, reference_search_query("octo", "blog", "komment: example.com/post"));
    assert!(q.contains("repo:octo/blog is:discussion \\\"komment: example.com/post\\\""));
}

#[test]
fn request_defaults_and_token() {
    let r = prepare_graphql_request(&config("number", "1", Some("abc")), "query { viewer { login } }");
    assert_eq!(r.url, "https://api.github.com/graphql");
    assert_eq!(r.authorization, Some("Bearer abc".to_string()));
    assert_eq!(r.body, "{\"query\":\"query { viewer { login } }\"}");
    let mut c = config("number", "1", None);
    c.api_url = Some("https://worker.example/api/graphql".to_string());
    let r = prepare_graphql_request(&c, "q\n\"x\"");
    assert_eq!(r.url, "https://worker.example/api/graphql");
    assert_eq!(r.authorization, None);
    let mut object = serde_json::Map::new();
    object.insert("query".to_string(), serde_json::Value::String("q\n\"x\"".to_string()));
    assert_eq!(r.body, serde_json::Value::Object(object).to_string());
    assert_eq!(r.body, "{\"query\":\"q\\n\\\"x\\\"\"}");
}

#[test]
fn http_failure_with_json_message() {
    let e = http_failure(404, "{\"message\":\"Not Found\",\"documentation_url\":\"x\"}");
    assert_eq!(e.message(), "GitHub API Error (404): Not Found");
}

#[test]
fn http_failure_with_plain_body() {
    assert_eq!(http_failure(502, "Bad gateway").message(), "GitHub API Error: 502 Bad gateway");
    assert_eq!(http_failure(401, "{\"message\":3}").message(), "GitHub API Error: 401 {\"message\":3}");
    assert_eq!(http_failure(500, "[1,2]").message(), "GitHub API Error: 500 [1,2]");
    assert_eq!(http_failure_from(403, "b", Some("m".to_string())).message(), "GitHub API Error (403): m");
    assert_eq!(http_failure_from(403, "b", None).message(), "GitHub API Error: 403 b");
}

#[test]
fn graphql_errors_report_first_message() {
    assert!(graphql_failure(&None).is_none());
    assert!(graphql_failure(&Some(vec![])).is_none());
    let e = graphql_failure(&Some(vec![Some("first".to_string()), Some("second".to_string())])).unwrap();
    assert_eq!(e.message(), "GitHub API Error: first");
    let e = graphql_failure(&Some(vec![None])).unwrap();
    assert_eq!(e.message(), "GitHub API Error: Unknown GraphQL error");
}

fn categories() -> Vec<CategoryNode> {
    vec![
        CategoryNode { id: Some("C_ann".to_string()), name: Some("Announcements".to_string()) },
        CategoryNode { id: None, name: None },
        CategoryNode { id: Some("C_gen".to_string()), name: Some("General".to_string()) },
        CategoryNode { id: Some("C_gen2".to_string()), name: Some("GENERAL".to_string()) },
    ]
}

#[test]
fn category_lookup_ignores_case() {
    assert_eq!(find_category_id(&categories(), "general"), Some("C_gen".to_string()));
    assert_eq!(find_category_id(&categories(), "GeNeRaL"), Some("C_gen".to_string()));
    assert_eq!(find_category_id(&categories(), "Q&A"), None);
    let nameless_id = vec![CategoryNode { id: None, name: Some("Ideas".to_string()) }];
    assert_eq!(find_category_id(&nameless_id, "ideas"), None);
}

#[test]
fn repository_ids_query_names_the_repository() {
    assert_eq!(repository_ids_query("octo", "blog"), reference_repository_ids_query("octo", "blog"));
}

#[test]
fn create_discussion_errors() {
    let none = RepositoryIds { repository_id: None, categories: Some(categories()) };
    let e = create_discussion_mutation(&none, "General", "t", "b").unwrap_err();
    assert_eq!(e.message(), "Could not find repository ID");
    let no_cats = RepositoryIds { repository_id: Some("R_1".to_string()), categories: None };
    let e = create_discussion_mutation(&no_cats, "General", "t", "b").unwrap_err();
    assert_eq!(e.message(), "Could not find categories");
    let ids = RepositoryIds { repository_id: Some("R_1".to_string()), categories: Some(categories()) };
    let e = create_discussion_mutation(&ids, "Polls", "t", "b").unwrap_err();
    assert!(matches!(&e, KommentError::CategoryNotFound(n) if n == "Polls"));
    assert_eq!(e.message(), "Category 'Polls' not found");
}

#[test]
fn create_discussion_mutation_text() {
    let ids = RepositoryIds { repository_id: Some("R_1".to_string()), categories: Some(categories()) };
    let title = "komment: example.com/post";
    let body = "Comments for \"post\"\nhttps://example.com/post";
    let m = create_discussion_mutation(&ids, "general", title, body).unwrap();
    assert_eq!(m, reference_create_mutation("R_1", "C_gen", title, body));
}

#[test]
fn comment_mutations() {
    assert_eq!(post_comment_mutation("D_1", "Nice \"post\"\n"), reference_post_comment("D_1", "Nice \"post\"\n"));
    assert_eq!(delete_comment_mutation("DC_9"), reference_delete_comment("DC_9"));
    assert_eq!(update_comment_mutation("DC_9", "edited"), reference_update_comment("DC_9", "edited"));
}

#[test]
fn error_messages() {
    assert_eq!(KommentError::RepositoryIdMissing.message(), "Could not find repository ID");
    assert_eq!(KommentError::NoData.message(), "No data in response");
    assert_eq!(KommentError::DiscussionNotFound.message(), "DISCUSSION_NOT_FOUND");
    assert_eq!(KommentError::Api("boom".to_string()).message(), "GitHub API Error: boom");
    assert_eq!(KommentError::StatusBody(0, "".to_string()).message(), "GitHub API Error: 0 ");
}

#[test]
fn html_for_author_and_others() {
    let d = discussion(vec![comment("C1", "alice", "hello \"world\""), comment("C2", "bob", "hi")]);
    let viewer = Some("alice".to_string());
    let c = config("number", "1", Some("tok"));
    let html = discussion_html(&c, &d, &viewer);
    assert_eq!(html, reference_html(&c.token, &d, &viewer));
    assert_eq!(html.matches("komment-edit-btn").count(), 1);
    assert!(html.contains("hello &quot;world&quot;</textarea>"));
    assert!(html.contains("komment-editor\" style=\"\""));
}

#[test]
fn html_without_comments_or_token() {
    let d = discussion(vec![]);
    let signed_in = config("number", "1", Some("tok"));
    let html = discussion_html(&signed_in, &d, &None);
    assert_eq!(html, reference_html(&signed_in.token, &d, &None));
    assert!(html.contains("border-top: none; padding-top: 0; margin-top: 0;"));
    let anonymous = config("number", "1", None);
    let d = discussion(vec![comment("C1", "alice", "x")]);
    let html = discussion_html(&anonymous, &d, &Some("carol".to_string()));
    assert_eq!(html, reference_html(&anonymous.token, &d, &Some("carol".to_string())));
    assert!(!html.contains("komment-editor"));
    assert!(!html.contains("komment-edit-btn"));
}

fn response(errors: Option<Vec<&str>>, data: Option<DiscussionData>) -> DiscussionResponse {
    DiscussionResponse {
        data,
        errors: errors.map(|es| es.into_iter().map(|m| GithubError { message: m.to_string() }).collect()),
    }
}

#[test]
fn render_reports_errors_in_order() {
    let c = config("number", "1", Some("tok"));
    let e = render_discussion(&c, response(Some(vec!["rate limited", "other"]), None)).err().unwrap();
    assert_eq!(e.message(), "GitHub API Error: rate limited");
    let e = render_discussion(&c, response(Some(vec![]), None)).err().unwrap();
    assert_eq!(e.message(), "No data in response");
    let empty = DiscussionData { repository: None, search: None, viewer: None };
    let e = render_discussion(&c, response(None, Some(empty))).err().unwrap();
    assert_eq!(e.message(), "DISCUSSION_NOT_FOUND");
    let no_hits = DiscussionData { repository: None, search: Some(SearchData { edges: vec![] }), viewer: None };
    assert!(matches!(render_discussion(&c, response(None, Some(no_hits))), Err(KommentError::DiscussionNotFound)));
    let repo_without = DiscussionData {
        repository: Some(RepositoryData { discussion: None }),
        search: Some(SearchData { edges: vec![SearchEdge { node: Some(discussion(vec![])) }] }),
        viewer: None,
    };
    assert!(matches!(render_discussion(&c, response(None, Some(repo_without))), Err(KommentError::DiscussionNotFound)));
}

#[test]
fn render_from_search_result() {
    let c = config("pathname", "t", Some("tok"));
    let d = discussion(vec![comment("C1", "alice", "a"), comment("C2", "bob", "b")]);
    let data = DiscussionData {
        repository: None,
        search: Some(SearchData { edges: vec![SearchEdge { node: Some(discussion(vec![comment("C1", "alice", "a"), comment("C2", "bob", "b")])) }, SearchEdge { node: None }] }),
        viewer: Some(ViewerData { login: "bob".to_string() }),
    };
    let out = render_discussion(&c, response(None, Some(data))).ok().unwrap();
    assert_eq!(out.discussion_id, "D_1");
    assert_eq!(out.html, reference_html(&c.token, &d, &Some("bob".to_string())));
}

#[test]
fn select_by_number_keeps_viewer() {
    let data = DiscussionData {
        repository: Some(RepositoryData { discussion: Some(discussion(vec![])) }),
        search: None,
        viewer: Some(ViewerData { login: "alice".to_string() }),
    };
    let (d, viewer) = select_discussion(response(None, Some(data))).ok().unwrap();
    assert_eq!(d.id, "D_1");
    assert_eq!(viewer, Some("alice".to_string()));
}

#[test]
fn escape_control_characters() {
    assert_eq!(escape_graphql_string("\u{8}\u{c}\r\t"), "\"\\b\\f\\r\\t\"");
    assert_eq!(escape_graphql_string("\u{0}\u{1f}\u{b}"), "\"\\u0000\\u001f\\u000b\"");
    assert_eq!(escape_graphql_string("é\u{7f}/"), "\"é\u{7f}/\"");
}

#[test]
fn escaped_literals_read_back() {
    for s in ["", "plain", "a\"b\\c\nd", "\u{1}\u{1f}\t", "ünï/cødé"] {
        let literal = escape_graphql_string(s);
        assert_eq!(serde_json::from_str::<String>(&literal).unwrap(), s);
        assert!(!literal.contains('\n'));
    }
}
