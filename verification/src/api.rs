use vstd::prelude::*;

use crate::config::KommentConfig;
use crate::error::KommentError;
use crate::json::{
    json_literal, json_member_string, json_string_value, lemma_json_literal_reads_back, json_member_string_of, json_object_text, to_json_string,
};
use crate::templates::{
    ADD_COMMENT_MUTATION_0, ADD_COMMENT_MUTATION_1, ADD_COMMENT_MUTATION_2,
    CREATE_DISCUSSION_MUTATION_0, CREATE_DISCUSSION_MUTATION_1, CREATE_DISCUSSION_MUTATION_2,
    CREATE_DISCUSSION_MUTATION_3, CREATE_DISCUSSION_MUTATION_4, NUMBER_QUERY_0, NUMBER_QUERY_1,
    NUMBER_QUERY_2, NUMBER_QUERY_3, SEARCH_QUERY_0, SEARCH_QUERY_1, SEARCH_QUERY_2, SEARCH_QUERY_3,
    UPDATE_COMMENT_MUTATION_0, UPDATE_COMMENT_MUTATION_1, UPDATE_COMMENT_MUTATION_2,
    add_comment_mutation_text, create_discussion_mutation_text, delete_comment_mutation_text,
    number_query_text, repository_ids_query_text, search_query_text, update_comment_mutation_text,
    write_add_comment_mutation, write_create_discussion_mutation, write_delete_comment_mutation,
    write_number_query, write_repository_ids_query, write_search_query,
    write_update_comment_mutation,
};
use crate::text::{
    is_first_split, lemma_first_split_unique, lemma_replace_char_leaves_none, lowercase, opt_chars, push_char, replace_all,
    replace_char, split_once_char, to_lowercase,
};

verus! {

/// GitHub's GraphQL endpoint, used when the configuration names no other.
pub const DEFAULT_API_URL: &'static str = "https://api.github.com/graphql";

/// What precedes the token in the `Authorization` header.
pub const BEARER: &'static str = "Bearer ";

/// The request member that carries the GraphQL document.
pub const QUERY_MEMBER: &'static str = "query";

/// The member of a failure reply that carries its explanation.
pub const MESSAGE_MEMBER: &'static str = "message";

/// The `mapping` under which `term` is a discussion number.
pub const NUMBER_MAPPING: &'static str = "number";

/// The message reported for a GraphQL error that carries none.
pub const UNKNOWN_GRAPHQL_ERROR: &'static str = "Unknown GraphQL error";

pub const ESCAPED_QUOTE: &'static str = "\\\"";

pub const ESCAPED_LINE_FEED: &'static str = "\\n";

/// A string quoted without the JSON encoder: wrapped in double quotes, with each
/// `"` written `\"` and each line feed written `\n`.
pub open spec fn fallback_quoted(s: Seq<char>) -> Seq<char> {
    seq!['"'] + replace_char(replace_char(s, '"', ESCAPED_QUOTE@), '\n', ESCAPED_LINE_FEED@)
        + seq!['"']
}

/// Quotes `s` for a GraphQL document, given what the JSON encoder made of it.
pub fn quote_graphql_string(s: &str, encoded: Option<String>) -> (r: String)
    ensures
        r@ == match encoded {
            Some(v) => v@,
            None => fallback_quoted(s@),
        },
{
    match encoded {
        Some(v) => v,
        None => {
            let quotes_escaped = replace_all(s, '"', ESCAPED_QUOTE);
            let escaped = replace_all(quotes_escaped.as_str(), '\n', ESCAPED_LINE_FEED);
            let mut r = String::new();
            push_char(&mut r, '"');
            r.append(escaped.as_str());
            push_char(&mut r, '"');
            r
        },
    }
}

/// The fallback quoting yields a double-quoted string with no line feed between
/// its quotes.
pub proof fn lemma_fallback_quoted_is_one_line(s: Seq<char>)
    ensures
        fallback_quoted(s).len() >= 2,
        fallback_quoted(s)[0] == '"',
        fallback_quoted(s).last() == '"',
        !fallback_quoted(s).subrange(1, fallback_quoted(s).len() - 1).contains('\n'),
{
    reveal_strlit("\\n");
    reveal_strlit("\\\"");
    let inner = replace_char(replace_char(s, '"', ESCAPED_QUOTE@), '\n', ESCAPED_LINE_FEED@);
    assert(!ESCAPED_LINE_FEED@.contains('\n')) by {
        assert(ESCAPED_LINE_FEED@ =~= seq!['\\', 'n']);
    }
    lemma_replace_char_leaves_none(
        replace_char(s, '"', ESCAPED_QUOTE@),
        '\n',
        ESCAPED_LINE_FEED@,
    );
    assert(fallback_quoted(s).subrange(1, fallback_quoted(s).len() - 1) =~= inner);
}

/// Quotes `s` as a GraphQL string literal.
pub fn escape_graphql_string(s: &str) -> (r: String)
    ensures
        r@ == json_literal(s@),
        json_string_value(r@) == Some(s@),
        !r@.contains('\n'),
{
    proof {
        lemma_json_literal_reads_back(s@);
    }
    let encoded = to_json_string(s);
    quote_graphql_string(s, encoded)
}

/// An HTTP request to the GraphQL endpoint, ready to be sent with `POST`.
pub struct GraphqlRequest {
    pub url: String,
    /// The value of the `Authorization` header, sent only when present.
    pub authorization: Option<String>,
    pub body: String,
}

/// Prepares the request that runs `query` against the configured endpoint.
pub fn prepare_graphql_request(config: &KommentConfig, query: &str) -> (r: GraphqlRequest)
    ensures
        r.url@ == match config.api_url {
            Some(url) => url@,
            None => DEFAULT_API_URL@,
        },
        opt_chars(r.authorization) == match config.token {
            Some(token) => Some(BEARER@ + token@),
            None => None,
        },
        r.body@ == seq!['{'] + json_literal(QUERY_MEMBER@) + seq![':'] + json_literal(query@)
            + seq!['}'],
{
    let url = match &config.api_url {
        Some(url) => url.clone(),
        None => String::from_str(DEFAULT_API_URL),
    };
    let authorization = match &config.token {
        Some(token) => {
            let mut value = String::from_str(BEARER);
            value.append(token.as_str());
            Some(value)
        },
        None => None,
    };
    let body = json_object_text(QUERY_MEMBER, query);
    GraphqlRequest { url, authorization, body }
}

/// The error for a failing HTTP status, given the `message` member read from the
/// response body, if any.
pub fn http_failure_from(status: u16, body: &str, message: Option<String>) -> (e: KommentError)
    ensures
        match message {
            Some(m) => e == KommentError::StatusMessage(status, m),
            None => e matches KommentError::StatusBody(st, b) && st == status && b@ == body@,
        },
{
    match message {
        Some(m) => KommentError::StatusMessage(status, m),
        None => KommentError::StatusBody(status, String::from_str(body)),
    }
}

/// The error for a failing HTTP status with the given response body: the body's
/// JSON `message` where it has one, else the body itself.
pub fn http_failure(status: u16, body: &str) -> (e: KommentError)
    ensures
        match json_member_string_of(body@, MESSAGE_MEMBER@) {
            Some(m) => e matches KommentError::StatusMessage(st, t) && st == status && t@ == m,
            None => e matches KommentError::StatusBody(st, b) && st == status && b@ == body@,
        },
{
    let message = json_member_string(body, MESSAGE_MEMBER);
    http_failure_from(status, body, message)
}

/// The text reported for a GraphQL error entry.
pub open spec fn error_entry_text(message: Option<String>) -> Seq<char> {
    match message {
        Some(m) => m@,
        None => UNKNOWN_GRAPHQL_ERROR@,
    }
}

/// The failure reported by a successful HTTP reply whose `errors` member is
/// `errors` (the `message` of each entry, where it is a string): the first
/// entry's message when the list is present and not empty.
pub fn graphql_failure(errors: &Option<Vec<Option<String>>>) -> (r: Option<KommentError>)
    ensures
        r is Some <==> (errors matches Some(list) && list@.len() > 0),
        r matches Some(e) ==> (e matches KommentError::Api(m) && errors matches Some(list)
            && m@ == error_entry_text(list@[0])),
{
    match errors {
        Some(list) => {
            if list.len() > 0 {
                let message = match &list[0] {
                    Some(m) => m.clone(),
                    None => String::from_str(UNKNOWN_GRAPHQL_ERROR),
                };
                Some(KommentError::Api(message))
            } else {
                None
            }
        },
        None => None,
    }
}

/// Splits `owner/name` at its first `/`.
pub fn split_repo(repo: &str) -> (r: Result<(String, String), KommentError>)
    ensures
        match r {
            Ok((owner, name)) => is_first_split(repo@, '/', owner@, name@),
            Err(e) => e matches KommentError::InvalidRepoFormat && !repo@.contains('/'),
        },
{
    match split_once_char(repo, '/') {
        Some((owner, name)) => Ok((owner, name)),
        None => Err(KommentError::InvalidRepoFormat),
    }
}

/// The discussion query for a repository: by number under the `number`
/// mapping, else by searching for `term`.
pub open spec fn discussion_query_text(
    mapping: Seq<char>,
    owner: Seq<char>,
    name: Seq<char>,
    term: Seq<char>,
) -> Seq<char> {
    if mapping == NUMBER_MAPPING@ {
        number_query_text(owner, name, term)
    } else {
        search_query_text(owner, name, term)
    }
}

/// The query that loads the configured page's discussion.
pub fn fetch_discussion_query(config: &KommentConfig) -> (r: Result<String, KommentError>)
    ensures
        r is Ok <==> (config.token is Some && config.repo@.contains('/')),
        config.token is None ==> r matches Err(KommentError::NotSignedIn),
        config.token is Some && !config.repo@.contains('/') ==> r matches Err(
            KommentError::InvalidRepoFormat,
        ),
        forall|owner: Seq<char>, name: Seq<char>|
            #[trigger] is_first_split(config.repo@, '/', owner, name) && config.token is Some ==> (
            r matches Ok(q) && q@ == discussion_query_text(config.mapping@, owner, name, config.term@)),
{
    if config.token.is_none() {
        return Err(KommentError::NotSignedIn);
    }
    let (owner, name) = match split_repo(config.repo.as_str()) {
        Ok(parts) => parts,
        Err(e) => {
            assert forall|o: Seq<char>, n: Seq<char>| !#[trigger] is_first_split(
                config.repo@,
                '/',
                o,
                n,
            ) by {
                if is_first_split(config.repo@, '/', o, n) {
                    assert(config.repo@[o.len() as int] == '/');
                }
            }
            return Err(e);
        },
    };
    let number = String::from_str(NUMBER_MAPPING);
    let mut query = String::new();
    if config.mapping == number {
        write_number_query(&mut query, owner.as_str(), name.as_str(), config.term.as_str());
    } else {
        write_search_query(&mut query, owner.as_str(), name.as_str(), config.term.as_str());
    }
    assert forall|o: Seq<char>, n: Seq<char>| #[trigger]
        is_first_split(config.repo@, '/', o, n) implies o == owner@ && n == name@ by {
        lemma_first_split_unique(config.repo@, '/', owner@, name@, o, n);
    }
    assert(config.repo@.contains('/')) by {
        assert(config.repo@[owner@.len() as int] == '/');
    }
    Ok(query)
}

/// Under the `number` mapping the query asks for the discussion whose number is
/// the configured term, character for character: the term stands verbatim right
/// after `discussion(number: ` and is closed by `)`, with the repository's owner
/// and name verbatim in their places.
pub proof fn lemma_number_query_carries_term(owner: Seq<char>, name: Seq<char>, term: Seq<char>)
    ensures
        ({
            let q = number_query_text(owner, name, term);
            let head = NUMBER_QUERY_0@ + owner + NUMBER_QUERY_1@ + name + NUMBER_QUERY_2@;
            &&& q.take(head.len() as int) == head
            &&& q.subrange(head.len() as int, (head.len() + term.len()) as int) == term
            &&& q.skip((head.len() + term.len()) as int) == NUMBER_QUERY_3@
            &&& head.skip(head.len() - 19) == "discussion(number: "@
            &&& NUMBER_QUERY_3@[0] == ')'
        }),
{
    reveal_strlit("\") {\n                    discussion(number: ");
    reveal_strlit("discussion(number: ");
    reveal_strlit(") {\n                        id\n                        title\n                        bodyHTML\n                        comments(first: 100) {\n                            nodes {\n                                id\n                                author {\n                                    login\n                                    avatarUrl\n                                }\n                                bodyHTML\n                                body\n                                createdAt\n                            }\n                        }\n                    }\n                }\n            }");
    let q = number_query_text(owner, name, term);
    let head = NUMBER_QUERY_0@ + owner + NUMBER_QUERY_1@ + name + NUMBER_QUERY_2@;
    assert(q =~= head + term + NUMBER_QUERY_3@);
    assert(q.take(head.len() as int) =~= head);
    assert(q.subrange(head.len() as int, (head.len() + term.len()) as int) =~= term);
    assert(q.skip((head.len() + term.len()) as int) =~= NUMBER_QUERY_3@);
    assert(head.skip(head.len() - 19) =~= "discussion(number: "@);
}

/// A search query looks for the configured term verbatim, in the repository
/// named verbatim by its owner and name.
pub proof fn lemma_search_query_carries_term(owner: Seq<char>, name: Seq<char>, term: Seq<char>)
    ensures
        ({
            let q = search_query_text(owner, name, term);
            let head = SEARCH_QUERY_0@ + owner + SEARCH_QUERY_1@ + name + SEARCH_QUERY_2@;
            &&& q.take(head.len() as int) == head
            &&& q.subrange(head.len() as int, (head.len() + term.len()) as int) == term
            &&& q.skip((head.len() + term.len()) as int) == SEARCH_QUERY_3@
        }),
{
    let q = search_query_text(owner, name, term);
    let head = SEARCH_QUERY_0@ + owner + SEARCH_QUERY_1@ + name + SEARCH_QUERY_2@;
    assert(q =~= head + term + SEARCH_QUERY_3@);
    assert(q.take(head.len() as int) =~= head);
    assert(q.subrange(head.len() as int, (head.len() + term.len()) as int) =~= term);
    assert(q.skip((head.len() + term.len()) as int) =~= SEARCH_QUERY_3@);
}

/// The body given to `addDiscussionComment` is one string literal that reads back
/// to exactly the posted text, and the discussion id stands verbatim in its place.
pub proof fn lemma_add_comment_carries_body(discussion_id: Seq<char>, body: Seq<char>)
    ensures
        ({
            let m = add_comment_mutation_text(discussion_id, json_literal(body));
            let head = ADD_COMMENT_MUTATION_0@ + discussion_id + ADD_COMMENT_MUTATION_1@;
            let end = m.len() - ADD_COMMENT_MUTATION_2@.len() as int;
            &&& head.len() <= end
            &&& m.take(head.len() as int) == head
            &&& json_string_value(m.subrange(head.len() as int, end)) == Some(body)
            &&& m.skip(end) == ADD_COMMENT_MUTATION_2@
        }),
{
    let m = add_comment_mutation_text(discussion_id, json_literal(body));
    let head = ADD_COMMENT_MUTATION_0@ + discussion_id + ADD_COMMENT_MUTATION_1@;
    let end = m.len() - ADD_COMMENT_MUTATION_2@.len() as int;
    assert(m =~= head + json_literal(body) + ADD_COMMENT_MUTATION_2@);
    assert(m.take(head.len() as int) =~= head);
    assert(m.subrange(head.len() as int, end) =~= json_literal(body));
    assert(m.skip(end) =~= ADD_COMMENT_MUTATION_2@);
    lemma_json_literal_reads_back(body);
}

/// The new body given to `updateDiscussionComment` is one string literal that
/// reads back to exactly the new text, and the comment id stands verbatim in its
/// place.
pub proof fn lemma_update_comment_carries_body(comment_id: Seq<char>, body: Seq<char>)
    ensures
        ({
            let m = update_comment_mutation_text(comment_id, json_literal(body));
            let head = UPDATE_COMMENT_MUTATION_0@ + comment_id + UPDATE_COMMENT_MUTATION_1@;
            let end = m.len() - UPDATE_COMMENT_MUTATION_2@.len() as int;
            &&& head.len() <= end
            &&& m.take(head.len() as int) == head
            &&& json_string_value(m.subrange(head.len() as int, end)) == Some(body)
            &&& m.skip(end) == UPDATE_COMMENT_MUTATION_2@
        }),
{
    let m = update_comment_mutation_text(comment_id, json_literal(body));
    let head = UPDATE_COMMENT_MUTATION_0@ + comment_id + UPDATE_COMMENT_MUTATION_1@;
    let end = m.len() - UPDATE_COMMENT_MUTATION_2@.len() as int;
    assert(m =~= head + json_literal(body) + UPDATE_COMMENT_MUTATION_2@);
    assert(m.take(head.len() as int) =~= head);
    assert(m.subrange(head.len() as int, end) =~= json_literal(body));
    assert(m.skip(end) =~= UPDATE_COMMENT_MUTATION_2@);
    lemma_json_literal_reads_back(body);
}

/// In `createDiscussion` the repository and category ids stand verbatim in their
/// places, and the title and the body are each one string literal that reads back
/// to exactly the given text.
pub proof fn lemma_create_discussion_carries_text(
    repo_id: Seq<char>,
    category_id: Seq<char>,
    title: Seq<char>,
    body: Seq<char>,
)
    ensures
        ({
            let m = create_discussion_mutation_text(
                repo_id,
                category_id,
                json_literal(title),
                json_literal(body),
            );
            let head = CREATE_DISCUSSION_MUTATION_0@ + repo_id + CREATE_DISCUSSION_MUTATION_1@
                + category_id + CREATE_DISCUSSION_MUTATION_2@;
            let title_end = (head.len() + json_literal(title).len()) as int;
            let body_start = title_end + CREATE_DISCUSSION_MUTATION_3@.len() as int;
            let body_end = m.len() - CREATE_DISCUSSION_MUTATION_4@.len() as int;
            &&& title_end <= body_start <= body_end
            &&& m.take(head.len() as int) == head
            &&& json_string_value(m.subrange(head.len() as int, title_end)) == Some(title)
            &&& m.subrange(title_end, body_start) == CREATE_DISCUSSION_MUTATION_3@
            &&& json_string_value(m.subrange(body_start, body_end)) == Some(body)
            &&& m.skip(body_end) == CREATE_DISCUSSION_MUTATION_4@
        }),
{
    let m = create_discussion_mutation_text(
        repo_id,
        category_id,
        json_literal(title),
        json_literal(body),
    );
    let head = CREATE_DISCUSSION_MUTATION_0@ + repo_id + CREATE_DISCUSSION_MUTATION_1@
        + category_id + CREATE_DISCUSSION_MUTATION_2@;
    let title_end = (head.len() + json_literal(title).len()) as int;
    let body_start = title_end + CREATE_DISCUSSION_MUTATION_3@.len() as int;
    let body_end = m.len() - CREATE_DISCUSSION_MUTATION_4@.len() as int;
    assert(m =~= head + json_literal(title) + CREATE_DISCUSSION_MUTATION_3@ + json_literal(body)
        + CREATE_DISCUSSION_MUTATION_4@);
    assert(m.take(head.len() as int) =~= head);
    assert(m.subrange(head.len() as int, title_end) =~= json_literal(title));
    assert(m.subrange(title_end, body_start) =~= CREATE_DISCUSSION_MUTATION_3@);
    assert(m.subrange(body_start, body_end) =~= json_literal(body));
    assert(m.skip(body_end) =~= CREATE_DISCUSSION_MUTATION_4@);
    lemma_json_literal_reads_back(title);
    lemma_json_literal_reads_back(body);
}

/// The query for the id and discussion categories of `owner/name`.
pub fn repository_ids_query(owner: &str, name: &str) -> (q: String)
    ensures
        q@ == repository_ids_query_text(owner@, name@),
{
    let mut q = String::new();
    write_repository_ids_query(&mut q, owner, name);
    q
}

/// A discussion category as listed in a repository reply.
pub struct CategoryNode {
    pub id: Option<String>,
    pub name: Option<String>,
}

/// The repository id and discussion categories read from a repository reply.
pub struct RepositoryIds {
    pub repository_id: Option<String>,
    pub categories: Option<Vec<CategoryNode>>,
}

/// Whether `node` has a name whose lowercase form is `wanted`.
pub open spec fn names_category(node: CategoryNode, wanted: Seq<char>) -> bool {
    node.name matches Some(n) && lowercase(n@) == wanted
}

/// The id of the first category whose lowercased name is `wanted`; nothing when
/// there is no such category, or when it has no id.
pub open spec fn category_id_in(nodes: Seq<CategoryNode>, wanted: Seq<char>) -> Option<Seq<char>>
    decreases nodes.len(),
{
    if nodes.len() == 0 {
        None
    } else if names_category(nodes[0], wanted) {
        opt_chars(nodes[0].id)
    } else {
        category_id_in(nodes.drop_first(), wanted)
    }
}

/// The lookup gives the id of the first category whose name, lowercased, is
/// `wanted`, wherever in the list that category stands.
pub proof fn lemma_category_lookup_finds_first_match(
    nodes: Seq<CategoryNode>,
    wanted: Seq<char>,
    i: int,
)
    requires
        0 <= i < nodes.len(),
        nodes[i].name matches Some(n) && lowercase(n@) == wanted,
        forall|j: int|
            0 <= j < i ==> !(#[trigger] nodes[j].name matches Some(m) && lowercase(m@) == wanted),
    ensures
        category_id_in(nodes, wanted) == opt_chars(nodes[i].id),
    decreases i,
{
    if i > 0 {
        assert(!names_category(nodes[0], wanted)) by {
            assert(!(nodes[0].name matches Some(m) && lowercase(m@) == wanted));
        }
        let rest = nodes.drop_first();
        assert forall|j: int| 0 <= j < i - 1 implies !(#[trigger] rest[j].name matches Some(m)
            && lowercase(m@) == wanted) by {
            assert(rest[j] == nodes[j + 1]);
            assert(!(nodes[j + 1].name matches Some(m) && lowercase(m@) == wanted));
        }
        assert(rest[i - 1] == nodes[i]);
        lemma_category_lookup_finds_first_match(rest, wanted, i - 1);
    }
}

/// The lookup gives nothing when no category's lowercased name is `wanted`.
pub proof fn lemma_category_lookup_none_without_match(nodes: Seq<CategoryNode>, wanted: Seq<char>)
    requires
        forall|j: int|
            0 <= j < nodes.len() ==> !(#[trigger] nodes[j].name matches Some(m) && lowercase(m@)
                == wanted),
    ensures
        category_id_in(nodes, wanted) is None,
    decreases nodes.len(),
{
    if nodes.len() > 0 {
        assert(!(nodes[0].name matches Some(m) && lowercase(m@) == wanted));
        let rest = nodes.drop_first();
        assert forall|j: int| 0 <= j < rest.len() implies !(#[trigger] rest[j].name matches Some(m)
            && lowercase(m@) == wanted) by {
            assert(rest[j] == nodes[j + 1]);
            assert(!(nodes[j + 1].name matches Some(m) && lowercase(m@) == wanted));
        }
        lemma_category_lookup_none_without_match(rest, wanted);
    }
}

/// Walks the categories in order for the first whose lowercased name matches.
fn lookup_category(categories: &Vec<CategoryNode>, category_name: &str) -> (r: Option<String>)
    ensures
        opt_chars(r) == category_id_in(categories@, lowercase(category_name@)),
{
    let wanted = to_lowercase(category_name);
    let mut i: usize = 0;
    assert(categories@.skip(0) == categories@);
    while i < categories.len()
        invariant
            0 <= i <= categories@.len(),
            wanted@ == lowercase(category_name@),
            category_id_in(categories@, wanted@) == category_id_in(
                categories@.skip(i as int),
                wanted@,
            ),
        decreases categories@.len() - i,
    {
        let node = &categories[i];
        assert(categories@.skip(i as int)[0] == categories@[i as int]);
        if let Some(n) = &node.name {
            let lowered = to_lowercase(n.as_str());
            if lowered == wanted {
                return match &node.id {
                    Some(id) => Some(id.clone()),
                    None => None,
                };
            }
        }
        assert(categories@.skip(i as int).drop_first() == categories@.skip(i + 1));
        i += 1;
    }
    None
}

/// Finds the id of the category named `category_name`, ignoring case.
pub fn find_category_id(categories: &Vec<CategoryNode>, category_name: &str) -> (r: Option<
    String,
>)
    ensures
        opt_chars(r) == category_id_in(categories@, lowercase(category_name@)),
        forall|i: int|
            0 <= i < categories@.len() && (categories@[i].name matches Some(n) && lowercase(n@)
                == lowercase(category_name@)) && (forall|j: int|
                0 <= j < i ==> !(#[trigger] categories@[j].name matches Some(m) && lowercase(m@)
                    == lowercase(category_name@))) ==> opt_chars(r) == opt_chars(
                #[trigger] categories@[i].id,
            ),
        (forall|j: int|
            0 <= j < categories@.len() ==> !(#[trigger] categories@[j].name matches Some(m)
                && lowercase(m@) == lowercase(category_name@))) ==> r is None,
{
    proof {
        let wanted = lowercase(category_name@);
        assert forall|i: int|
            0 <= i < categories@.len() && (categories@[i].name matches Some(n) && lowercase(n@)
                == wanted) && (forall|j: int|
                0 <= j < i ==> !(#[trigger] categories@[j].name matches Some(m) && lowercase(m@)
                    == wanted)) implies category_id_in(categories@, wanted) == opt_chars(
            #[trigger] categories@[i].id,
        ) by {
            lemma_category_lookup_finds_first_match(categories@, wanted, i);
        }
        if forall|j: int|
            0 <= j < categories@.len() ==> !(#[trigger] categories@[j].name matches Some(m)
                && lowercase(m@) == wanted) {
            lemma_category_lookup_none_without_match(categories@, wanted);
        }
    }
    lookup_category(categories, category_name)
}

/// The category lookup does not depend on how the requested name is cased.
pub proof fn lemma_category_lookup_ignores_case(
    nodes: Seq<CategoryNode>,
    name1: Seq<char>,
    name2: Seq<char>,
)
    requires
        lowercase(name1) == lowercase(name2),
    ensures
        category_id_in(nodes, lowercase(name1)) == category_id_in(nodes, lowercase(name2)),
{
}

/// The mutation that opens a discussion titled `title` with `body` in the
/// category named `category_name`, given the repository reply `ids`.
pub fn create_discussion_mutation(
    ids: &RepositoryIds,
    category_name: &str,
    title: &str,
    body: &str,
) -> (r: Result<String, KommentError>)
    ensures
        match (ids.repository_id, ids.categories) {
            (Some(repo_id), Some(categories)) => match category_id_in(
                categories@,
                lowercase(category_name@),
            ) {
                Some(category_id) => r matches Ok(m) && m@ == create_discussion_mutation_text(
                    repo_id@,
                    category_id,
                    json_literal(title@),
                    json_literal(body@),
                ),
                None => r matches Err(KommentError::CategoryNotFound(n)) && n@ == category_name@,
            },
            (Some(_), None) => r matches Err(KommentError::CategoriesMissing),
            (None, _) => r matches Err(KommentError::RepositoryIdMissing),
        },
{
    let repo_id = match &ids.repository_id {
        Some(id) => id,
        None => return Err(KommentError::RepositoryIdMissing),
    };
    let categories = match &ids.categories {
        Some(c) => c,
        None => return Err(KommentError::CategoriesMissing),
    };
    let category_id = match find_category_id(categories, category_name) {
        Some(id) => id,
        None => return Err(KommentError::CategoryNotFound(String::from_str(category_name))),
    };
    let title_literal = escape_graphql_string(title);
    let body_literal = escape_graphql_string(body);
    let mut m = String::new();
    write_create_discussion_mutation(
        &mut m,
        repo_id.as_str(),
        category_id.as_str(),
        title_literal.as_str(),
        body_literal.as_str(),
    );
    Ok(m)
}

/// The mutation that adds a comment with `body` to a discussion.
pub fn post_comment_mutation(discussion_id: &str, body: &str) -> (m: String)
    ensures
        m@ == add_comment_mutation_text(discussion_id@, json_literal(body@)),
{
    let body_literal = escape_graphql_string(body);
    let mut m = String::new();
    write_add_comment_mutation(&mut m, discussion_id, body_literal.as_str());
    m
}

/// The mutation that deletes a comment.
pub fn delete_comment_mutation(comment_id: &str) -> (m: String)
    ensures
        m@ == delete_comment_mutation_text(comment_id@),
{
    let mut m = String::new();
    write_delete_comment_mutation(&mut m, comment_id);
    m
}

/// The mutation that replaces a comment's body.
pub fn update_comment_mutation(comment_id: &str, body: &str) -> (m: String)
    ensures
        m@ == update_comment_mutation_text(comment_id@, json_literal(body@)),
{
    let body_literal = escape_graphql_string(body);
    let mut m = String::new();
    write_update_comment_mutation(&mut m, comment_id, body_literal.as_str());
    m
}

} // verus!
