//! The decisions behind fetching the latest release from the GitHub API:
//! which token to send, which headers, how a refused request is reported,
//! and how GitHub's release record becomes a `ReleaseInfo`.
use vstd::prelude::*;
use vstd::string::StringExecFns;

use crate::errors::DomainError;
use crate::models::ReleaseInfo;
use crate::text::{contains, contains_str, trim_bounds, trimmed, chars_of};
use crate::version::{parse_version_from_tag, tag_version};

verus! {

/// The GitHub endpoint that describes the latest release.
pub const GITHUB_API_LATEST_RELEASE: &'static str =
    "https://api.github.com/repos/Darkatse/TauriTavern/releases/latest";

/// The key under which the user's GitHub token is stored among the secrets.
pub const GITHUB_TOKEN_SECRET_KEY: &'static str = "github_token";

/// The release record that the GitHub API returns, as far as it is read.
#[derive(Debug)]
pub struct GitHubRelease {
    pub tag_name: String,
    pub name: Option<String>,
    pub body: Option<String>,
    pub html_url: String,
    pub prerelease: bool,
    pub published_at: Option<String>,
}

/// A header of the HTTP request.
#[derive(Debug)]
pub struct RequestHeader {
    pub name: String,
    pub value: String,
}

/// Fetches the latest release from GitHub, through an HTTP client pool and
/// with a token read from the secret store.
pub struct GitHubUpdateRepository<H, S> {
    http_clients: H,
    secret_repository: S,
}

impl<H, S> GitHubUpdateRepository<H, S> {
    pub closed spec fn spec_http_clients(&self) -> H {
        self.http_clients
    }

    pub closed spec fn spec_secret_repository(&self) -> S {
        self.secret_repository
    }

    pub fn new(http_clients: H, secret_repository: S) -> (r: Self)
        ensures
            r.spec_http_clients() == http_clients,
            r.spec_secret_repository() == secret_repository,
    {
        GitHubUpdateRepository { http_clients, secret_repository }
    }

    pub fn http_clients(&self) -> (r: &H)
        ensures
            *r == self.spec_http_clients(),
    {
        &self.http_clients
    }

    pub fn secret_repository(&self) -> (r: &S)
        ensures
            *r == self.spec_secret_repository(),
    {
        &self.secret_repository
    }
}

/// The token sent with the request: the stored one, if reading it succeeded
/// and it is not empty. A missing or unreadable token means an anonymous
/// request, never an error.
pub open spec fn token_to_send(read: Result<Option<String>, DomainError>) -> Option<String> {
    match read {
        Ok(Some(token)) => if token@.len() > 0 {
            Some(token)
        } else {
            None
        },
        _ => None,
    }
}

/// The headers of the request, as (name, value) pairs in order.
pub open spec fn expected_headers(token: Option<String>) -> Seq<(Seq<char>, Seq<char>)> {
    let fixed = seq![
        ("Accept"@, "application/vnd.github+json"@),
        ("X-GitHub-Api-Version"@, "2022-11-28"@),
    ];
    match token {
        Some(t) => fixed.push(("Authorization"@, "Bearer "@ + t@)),
        None => fixed,
    }
}

/// GitHub refused the request because of a rate limit: the status is 403 or
/// 429 and the body speaks of a rate limit or of abuse detection.
pub open spec fn is_rate_limited(status: u16, body: Seq<char>) -> bool {
    (status == 403 || status == 429) && (contains(body, "rate limit"@) || contains(
        body,
        "abuse detection"@,
    ))
}

/// The error for a rate-limited request, if it is one.
pub open spec fn rate_limit_error(status: u16, body: Seq<char>) -> Option<DomainError> {
    if is_rate_limited(status, body) {
        Some(DomainError::RateLimited(status))
    } else {
        None
    }
}

/// The text that follows the status in the message of a refused request:
/// the trimmed body in parentheses, or nothing when the body is blank.
pub open spec fn body_suffix(body: Seq<char>) -> Seq<char> {
    if trimmed(body).len() == 0 {
        Seq::empty()
    } else {
        " ("@ + trimmed(body) + ")"@
    }
}

/// Whether the message of `e` is `m`, where `e` carries a message.
pub open spec fn is_internal_error_with(e: DomainError, m: Seq<char>) -> bool {
    match e {
        DomainError::InternalError(message) => message@ == m,
        _ => false,
    }
}

/// The release record as a `ReleaseInfo`: missing texts become empty and
/// the version is read from the tag.
pub open spec fn release_info_matches(r: ReleaseInfo, g: GitHubRelease) -> bool {
    &&& r.tag_name == g.tag_name
    &&& r.version@ == tag_version(g.tag_name@)
    &&& r.name@ == text_or_empty(g.name)
    &&& r.body@ == text_or_empty(g.body)
    &&& r.html_url == g.html_url
    &&& r.prerelease == g.prerelease
    &&& r.published_at@ == text_or_empty(g.published_at)
}

pub open spec fn text_or_empty(t: Option<String>) -> Seq<char> {
    match t {
        Some(s) => s@,
        None => Seq::empty(),
    }
}

/// Chooses the token to send from what reading the secret store gave.
pub fn select_token(read: Result<Option<String>, DomainError>) -> (r: Option<String>)
    ensures
        r == token_to_send(read),
{
    match read {
        Ok(Some(token)) => {
            if token.as_str().unicode_len() > 0 {
                Some(token)
            } else {
                None
            }
        },
        _ => None,
    }
}

fn header(name: &str, value: String) -> (r: RequestHeader)
    ensures
        r.name@ == name@,
        r.value@ == value@,
{
    RequestHeader { name: name.to_owned(), value }
}

/// The headers of the request for the latest release; with a token, an
/// `Authorization: Bearer` header follows the two fixed ones.
pub fn request_headers(token: Option<String>) -> (r: Vec<RequestHeader>)
    ensures
        r@.map_values(|h: RequestHeader| (h.name@, h.value@)) == expected_headers(token),
{
    let mut headers: Vec<RequestHeader> = Vec::new();
    headers.push(header("Accept", "application/vnd.github+json".to_owned()));
    headers.push(header("X-GitHub-Api-Version", "2022-11-28".to_owned()));
    match token {
        Some(t) => {
            let mut value = "Bearer ".to_owned();
            value.append(t.as_str());
            headers.push(header("Authorization", value));
        },
        None => {},
    }
    assert(headers@.map_values(|h: RequestHeader| (h.name@, h.value@)) =~= expected_headers(
        token,
    ));
    headers
}

/// Recognises a refusal because of GitHub's rate limits.
pub fn classify_github_rate_limit(status: u16, body: &str) -> (r: Option<DomainError>)
    ensures
        r == rate_limit_error(status, body@),
{
    if status == 403 || status == 429 {
        if contains_str(body, "rate limit") || contains_str(body, "abuse detection") {
            return Some(DomainError::RateLimited(status));
        }
    }
    None
}

/// The error for a response with a status other than success:
/// `status_line` is the status as displayed (such as `404 Not Found`) and
/// `body` the text of the response. A rate-limit refusal is reported as
/// such; any other gives `GitHub API error: HTTP <status>`, followed by the
/// trimmed body in parentheses where there is one.
pub fn api_error(status: u16, status_line: &str, body: &str) -> (r: DomainError)
    ensures
        is_rate_limited(status, body@) ==> r == DomainError::RateLimited(status),
        !is_rate_limited(status, body@) ==> is_internal_error_with(
            r,
            "GitHub API error: HTTP "@ + status_line@ + body_suffix(body@),
        ),
{
    if let Some(e) = classify_github_rate_limit(status, body) {
        return e;
    }
    let chars = chars_of(body);
    let (a, b) = trim_bounds(&chars);
    let mut message = "GitHub API error: HTTP ".to_owned();
    message.append(status_line);
    let ghost head = message@;
    if a < b {
        message.append(" (");
        message.append(body.substring_char(a, b));
        message.append(")");
        assert(message@ =~= head + (" ("@ + trimmed(body@) + ")"@));
    } else {
        assert(message@ =~= head + Seq::<char>::empty());
    }
    DomainError::InternalError(message)
}

/// The error for a request that did not get a response; `detail` describes
/// the failure.
pub fn request_failed_error(detail: &str) -> (r: DomainError)
    ensures
        is_internal_error_with(r, "GitHub API request failed: "@ + detail@),
{
    let mut message = "GitHub API request failed: ".to_owned();
    message.append(detail);
    DomainError::InternalError(message)
}

/// The error for a response that is not a release record; `detail`
/// describes the failure.
pub fn parse_failed_error(detail: &str) -> (r: DomainError)
    ensures
        is_internal_error_with(r, "Failed to parse GitHub response: "@ + detail@),
{
    let mut message = "Failed to parse GitHub response: ".to_owned();
    message.append(detail);
    DomainError::InternalError(message)
}

fn text_or_default(t: Option<String>) -> (r: String)
    ensures
        r@ == text_or_empty(t),
{
    match t {
        Some(s) => s,
        None => String::new(),
    }
}

/// The `ReleaseInfo` for a release record of the GitHub API.
pub fn release_info_from(response: GitHubRelease) -> (r: ReleaseInfo)
    ensures
        release_info_matches(r, response),
{
    let version = parse_version_from_tag(response.tag_name.as_str());
    ReleaseInfo {
        tag_name: response.tag_name,
        version,
        name: text_or_default(response.name),
        body: text_or_default(response.body),
        html_url: response.html_url,
        prerelease: response.prerelease,
        published_at: text_or_default(response.published_at),
    }
}

/// Each field of the `ReleaseInfo` comes from the field of the same name in
/// GitHub's record: a missing name, body or publication date becomes the
/// empty text, and the version is the one the tag carries.
pub proof fn lemma_release_fields_from_same_fields(r: ReleaseInfo, g: GitHubRelease)
    requires
        release_info_matches(r, g),
    ensures
        r.tag_name == g.tag_name,
        r.version@ == tag_version(g.tag_name@),
        r.html_url == g.html_url,
        r.prerelease == g.prerelease,
        g.name matches Some(n) ==> r.name@ == n@,
        g.name is None ==> r.name@.len() == 0,
        g.body matches Some(b) ==> r.body@ == b@,
        g.body is None ==> r.body@.len() == 0,
        g.published_at matches Some(p) ==> r.published_at@ == p@,
        g.published_at is None ==> r.published_at@.len() == 0,
{
}

/// A token is sent only when reading it succeeded and it is not empty, and
/// then it is sent as it was stored.
pub proof fn lemma_token_sent_only_when_stored(read: Result<Option<String>, DomainError>)
    ensures
        token_to_send(read) matches Some(t) ==> read == Ok::<Option<String>, DomainError>(
            Some(t),
        ) && t@.len() > 0,
        (read matches Ok(Some(t)) && t@.len() > 0) ==> token_to_send(read) == read->Ok_0,
        token_to_send(read) is None <==> !(read matches Ok(Some(t)) && t@.len() > 0),
{
}

/// The request always asks for GitHub's JSON and names the API version;
/// it authenticates, with the token as a bearer, exactly when there is a
/// token.
pub proof fn lemma_request_headers(token: Option<String>)
    ensures
        expected_headers(token)[0] == ("Accept"@, "application/vnd.github+json"@),
        expected_headers(token)[1] == ("X-GitHub-Api-Version"@, "2022-11-28"@),
        token is None ==> expected_headers(token).len() == 2,
        token matches Some(t) ==> expected_headers(token).len() == 3 && expected_headers(token)[2]
            == ("Authorization"@, "Bearer "@ + t@),
{
}

/// A refused request is reported as rate-limited exactly for status 403 or
/// 429 with a body that speaks of a rate limit or of abuse detection; any
/// other refusal names its status and, where the body is not blank, the
/// trimmed body.
pub proof fn lemma_refusal_reports(status: u16, body: Seq<char>)
    ensures
        rate_limit_error(status, body) is Some <==> ((status == 403 || status == 429) && (contains(
            body,
            "rate limit"@,
        ) || contains(body, "abuse detection"@))),
        rate_limit_error(status, body) matches Some(e) ==> e == DomainError::RateLimited(status),
        trimmed(body).len() == 0 ==> body_suffix(body).len() == 0,
        trimmed(body).len() > 0 ==> body_suffix(body) == " ("@ + trimmed(body) + ")"@,
{
}

} // verus!
