//! The GraphQL client: its construction, the request's header, and how an
//! answer from GitHub is judged. The transfer itself is the caller's.
use vstd::prelude::*;
use vstd::string::*;

use crate::error::{AppError, AppErrorView};
use crate::github::auth::{validation_result, Auth};
use crate::github::models::TicketDetail;
use crate::text::{decimal, decimal_text, join, joined, str_starts_with, texts};

verus! {

/// The HTTP client that carries the requests.
#[verifier::external_type_specification]
#[verifier::external_body]
pub struct ExClient(reqwest::Client);

/// A builder of HTTP clients.
#[verifier::external_type_specification]
#[verifier::external_body]
pub struct ExClientBuilder(reqwest::ClientBuilder);

/// The `User-Agent` header that a client builder holds, if any.
pub uninterp spec fn builder_agent(b: reqwest::ClientBuilder) -> Option<Seq<char>>;

/// The `User-Agent` header that a client sends with every request, if any.
pub uninterp spec fn client_agent(c: reqwest::Client) -> Option<Seq<char>>;

/// Whether a text is a valid HTTP header value: no control character but
/// tab, and no DEL (characters past ASCII are encoded in bytes that are all
/// valid).
pub open spec fn is_header_value(t: Seq<char>) -> bool {
    forall|i: int|
        0 <= i < t.len() ==> (#[trigger] t[i] == '\t' || (t[i] as int >= 32 && t[i] as int != 127))
}

/// `reqwest::Client::builder`: a builder with the default settings, whose
/// headers hold only `Accept: */*`, so no `User-Agent`.
#[verifier::external_body]
fn client_builder() -> (r: reqwest::ClientBuilder)
    ensures
        builder_agent(r) is None,
{
    reqwest::Client::builder()
}

/// `reqwest::ClientBuilder::user_agent`: the builder with its `User-Agent`
/// header set to `agent` when that is a valid header value; an unusable
/// value leaves the headers as they were and is reported by `build`.
#[verifier::external_body]
fn builder_user_agent(b: reqwest::ClientBuilder, agent: &str) -> (r: reqwest::ClientBuilder)
    ensures
        is_header_value(agent@) ==> builder_agent(r) == Some(agent@),
        !is_header_value(agent@) ==> builder_agent(r) == builder_agent(b),
{
    b.user_agent(agent)
}

/// `reqwest::ClientBuilder::build`: the client, or the error met while
/// setting it up (TLS back end, system proxies, a bad header). Whether it
/// fails depends on the machine, so success is not stated; a client that
/// is built takes the builder's headers, which it sends with every request.
#[verifier::external_body]
fn builder_build(b: reqwest::ClientBuilder) -> (r: Result<reqwest::Client, reqwest::Error>)
    ensures
        r matches Ok(c) ==> client_agent(c) == builder_agent(b),
{
    b.build()
}

/// The `User-Agent` that every request carries.
pub open spec fn user_agent_text() -> Seq<char> {
    "project-tui/0.1.0"@
}

/// The `User-Agent` that every request carries: `project-tui/0.1.0`.
pub fn user_agent() -> (s: &'static str)
    ensures
        s@ == user_agent_text(),
{
    "project-tui/0.1.0"
}

/// The GraphQL endpoint used when none is given.
pub open spec fn default_endpoint() -> Seq<char> {
    "https://api.github.com/graphql"@
}

/// The query for the viewer's projects (at most a hundred).
pub const PROJECTS_QUERY: &'static str = "
            query {
                viewer {
                    projectsV2(first: 100) {
                        nodes {
                            id
                            title
                            number
                        }
                    }
                }
            }
        ";

/// The query for the items of one project (at most a hundred, each with
/// at most ten field values); its one variable is `projectId`.
pub const PROJECT_ITEMS_QUERY: &'static str = "
            query($projectId: ID!) {
                node(id: $projectId) {
                    ... on ProjectV2 {
                        items(first: 100) {
                            nodes {
                                id
                                content {
                                    __typename
                                    ... on Issue {
                                        id
                                        title
                                        number
                                        state
                                        repository {
                                            name
                                        }
                                    }
                                    ... on PullRequest {
                                        id
                                        title
                                        number
                                        state
                                        repository {
                                            name
                                        }
                                    }
                                }
                                fieldValues(first: 10) {
                                    nodes {
                                        __typename
                                        ... on ProjectV2ItemFieldSingleSelectValue {
                                            name
                                        }
                                    }
                                }
                            }
                        }
                    }
                }
            }
        ";

/// The mutation that saves an issue's title and description; its
/// variables are `id`, `title` and `body`.
pub const UPDATE_ISSUE_MUTATION: &'static str = "
            mutation($id: ID!, $title: String!, $body: String!) {
                updateIssue(input: {id: $id, title: $title, body: $body}) {
                    issue {
                        id
                    }
                }
            }
        ";

/// The mutation that saves a pull request's title and description; its
/// variables are `id`, `title` and `body`.
pub const UPDATE_PULL_REQUEST_MUTATION: &'static str = "
            mutation($id: ID!, $title: String!, $body: String!) {
                updatePullRequest(input: {pullRequestId: $id, title: $title, body: $body}) {
                    pullRequest {
                        id
                    }
                }
            }
        ";

/// GitHub's node identifiers of pull requests begin with `PR_`.
pub open spec fn is_pull_request_id(id: Seq<char>) -> bool {
    id.len() >= 3 && id.subrange(0, 3) == "PR_"@
}

/// The mutation that saves the ticket with identifier `id`: the pull
/// request one for a pull request, else the issue one.
pub fn save_mutation(id: &str) -> (m: &'static str)
    ensures
        is_pull_request_id(id@) ==> m == UPDATE_PULL_REQUEST_MUTATION,
        !is_pull_request_id(id@) ==> m == UPDATE_ISSUE_MUTATION,
{
    proof {
        reveal_strlit("PR_");
    }
    if str_starts_with(id, "PR_") {
        UPDATE_PULL_REQUEST_MUTATION
    } else {
        UPDATE_ISSUE_MUTATION
    }
}

/// The connection to GitHub's GraphQL API.
pub struct GitHubClient {
    client: reqwest::Client,
    auth: Auth,
    api_url: String,
}

impl GitHubClient {
    /// The token this client sends.
    pub closed spec fn token_of(&self) -> Seq<char> {
        self.auth@
    }

    /// The HTTP client this client sends through.
    pub closed spec fn http_client_of(&self) -> reqwest::Client {
        self.client
    }

    /// The endpoint this client posts to.
    pub closed spec fn endpoint_of(&self) -> Seq<char> {
        self.api_url@
    }

    /// A client for the given token and endpoint (GitHub's own when none is
    /// given), whose HTTP client is built with the `User-Agent` of
    /// `user_agent`. A malformed token is refused with its authentication
    /// error before anything else; a client that cannot be set up gives a
    /// network error.
    pub fn new(auth: Auth, api_url: Option<String>) -> (r: Result<GitHubClient, AppError>)
        ensures
            validation_result(auth@) matches Some(e) ==> r matches Err(x) && x@ == e,
            r matches Ok(c) ==> {
                &&& validation_result(auth@) is None
                &&& c.token_of() == auth@
                &&& client_agent(c.http_client_of()) == Some(user_agent_text())
                &&& c.endpoint_of() == match api_url {
                    Some(u) => u@,
                    None => default_endpoint(),
                }
            },
            r matches Err(x) ==> validation_result(auth@) is None ==> x@ is Network,
    {
        match auth.validate() {
            Err(e) => {
                return Err(e);
            },
            Ok(()) => {},
        }
        let agent = user_agent();
        proof {
            reveal_strlit("project-tui/0.1.0");
            assert(is_header_value(agent@));
        }
        let builder = builder_user_agent(client_builder(), agent);
        let client = match builder_build(builder) {
            Ok(c) => c,
            Err(e) => {
                return Err(AppError::Network(e));
            },
        };
        let api_url = match api_url {
            Some(u) => u,
            None => String::from_str("https://api.github.com/graphql"),
        };
        Ok(GitHubClient { client, auth, api_url })
    }

    /// The HTTP client that carries the requests.
    pub fn http_client(&self) -> (c: &reqwest::Client)
        ensures
            *c == self.http_client_of(),
    {
        &self.client
    }

    /// The endpoint requests are posted to.
    pub fn api_url(&self) -> (u: &str)
        ensures
            u@ == self.endpoint_of(),
    {
        self.api_url.as_str()
    }

    /// The `Authorization` header of every request: the token as a bearer
    /// credential.
    pub fn authorization_header(&self) -> (h: String)
        ensures
            h@ == "Bearer "@ + self.token_of(),
    {
        String::from_str("Bearer ").concat(self.auth.token())
    }

    /// Full details of one project item; not offered yet, so always the
    /// GitHub error "Not implemented yet".
    pub fn fetch_item_details(&self, item_id: &str) -> (r: Result<TicketDetail, AppError>)
        ensures
            r matches Err(e) && e@ == AppErrorView::GitHub("Not implemented yet"@),
    {
        let _ = item_id;
        Err(AppError::github("Not implemented yet"))
    }
}

/// Whether an HTTP status is a success (in 200..300).
pub open spec fn status_is_success(code: u16) -> bool {
    200 <= code < 300
}

/// How an HTTP status is written: its number, then its reason phrase.
pub open spec fn status_text(code: u16, reason: Option<Seq<char>>) -> Seq<char> {
    decimal_text(code as int) + " "@ + match reason {
        Some(r) => r,
        None => "<unknown status code>"@,
    }
}

/// Judges the HTTP status of an answer: a success lets the answer be read;
/// anything else is the GitHub error that quotes the status, written as its
/// number and `reason` (the standard reason phrase, when there is one).
pub fn check_status(code: u16, reason: Option<&str>) -> (r: Result<(), AppError>)
    ensures
        r is Ok <==> status_is_success(code),
        r matches Err(e) ==> e@ == AppErrorView::GitHub(
            "API request failed with status: "@ + status_text(
                code,
                match reason {
                    Some(x) => Some(x@),
                    None => None,
                },
            ),
        ),
{
    if 200 <= code && code < 300 {
        Ok(())
    } else {
        let phrase = match reason {
            Some(x) => x,
            None => "<unknown status code>",
        };
        let m = String::from_str("API request failed with status: ").concat(
            decimal(code as i64).as_str(),
        ).concat(" ").concat(phrase);
        proof {
            assert(m@ =~= "API request failed with status: "@ + status_text(
                code,
                match reason {
                    Some(x) => Some(x@),
                    None => None,
                },
            ));
        }
        Err(AppError::GitHub(m))
    }
}

/// One error that GitHub reports in a GraphQL answer.
#[derive(Debug)]
pub struct GraphQLError {
    pub message: String,
}

/// A GraphQL answer: the data asked for and the errors met, either of which
/// may be missing.
#[derive(Debug)]
pub struct GraphQLResponse<T> {
    pub data: Option<T>,
    pub errors: Option<Vec<GraphQLError>>,
}

/// The messages of a list of GraphQL errors.
pub open spec fn error_messages(errors: Seq<GraphQLError>) -> Seq<Seq<char>> {
    errors.map_values(|e: GraphQLError| e.message@)
}

/// Reads a GraphQL answer: any reported errors (even an empty list) give the
/// GitHub error that lists their messages; else the data, which must be
/// present.
pub fn graphql_data<T>(resp: GraphQLResponse<T>) -> (r: Result<T, AppError>)
    ensures
        resp.errors matches Some(errs) ==> r matches Err(e) && e@ == AppErrorView::GitHub(
            "GraphQL errors: "@ + joined(error_messages(errs@), ", "@),
        ),
        resp.errors is None ==> match resp.data {
            Some(d) => r == Ok::<T, AppError>(d),
            None => r matches Err(e) && e@ == AppErrorView::GitHub("No data in response"@),
        },
{
    match resp.errors {
        Some(errs) => {
            let mut msgs: Vec<String> = Vec::new();
            let n = errs.len();
            let mut i: usize = 0;
            while i < n
                invariant
                    n == errs.len(),
                    i <= n,
                    msgs.len() == i,
                    texts(msgs@) == error_messages(errs@).take(i as int),
                decreases n - i,
            {
                msgs.push(errs[i].message.clone());
                assert(texts(msgs@) =~= error_messages(errs@).take(i + 1));
                i += 1;
            }
            assert(error_messages(errs@).take(n as int) =~= error_messages(errs@));
            let listed = join(&msgs, ", ");
            Err(AppError::GitHub(String::from_str("GraphQL errors: ").concat(listed.as_str())))
        },
        None => match resp.data {
            Some(d) => Ok(d),
            None => Err(AppError::github("No data in response")),
        },
    }
}

} // verus!
