use tauritavern::errors::DomainError;
use tauritavern::github_update_repository::{
    api_error, classify_github_rate_limit, parse_failed_error, release_info_from,
    request_failed_error, request_headers, select_token, GitHubRelease, GitHubUpdateRepository,
    GITHUB_API_LATEST_RELEASE, GITHUB_TOKEN_SECRET_KEY,
};

struct StubSecretRepo {
    token: Option<String>,
}

impl StubSecretRepo {
    fn read_secret(&self, key: &str) -> Result<Option<String>, DomainError> {
        assert_eq!(key, GITHUB_TOKEN_SECRET_KEY, "repo must ask for GITHUB_TOKEN, not {}", key);
        Ok(self.token.clone())
    }
}

struct StubClientPool;

#[test]
fn constructor_accepts_secret_repository() {
    let stub = StubSecretRepo { token: None };
    let pool = std::sync::Arc::new(StubClientPool);
    let repo = GitHubUpdateRepository::new(pool, std::sync::Arc::new(stub));
    let read = repo.secret_repository().read_secret(GITHUB_TOKEN_SECRET_KEY);
    assert!(select_token(read).is_none());
}

fn header_pairs(token: Option<String>) -> Vec<(String, String)> {
    request_headers(token)
        .into_iter()
        .map(|h| (h.name, h.value))
        .collect()
}

#[test]
fn anonymous_request_has_two_headers() {
    assert_eq!(
        header_pairs(None),
        vec![
            ("Accept".to_string(), "application/vnd.github+json".to_string()),
            ("X-GitHub-Api-Version".to_string(), "2022-11-28".to_string()),
        ]
    );
}

#[test]
fn token_is_sent_as_bearer() {
    let pairs = header_pairs(Some("ghp_abc".to_string()));
    assert_eq!(pairs.len(), 3);
    assert_eq!(
        pairs[2],
        ("Authorization".to_string(), "Bearer ghp_abc".to_string())
    );
}

#[test]
fn token_selection_falls_back_to_anonymous() {
    assert_eq!(select_token(Ok(Some("t".to_string()))), Some("t".to_string()));
    assert_eq!(select_token(Ok(Some(String::new()))), None);
    assert_eq!(select_token(Ok(None)), None);
    assert_eq!(
        select_token(Err(DomainError::InternalError("locked".to_string()))),
        None
    );
}

#[test]
fn rate_limit_needs_status_and_wording() {
    let limited = r#"{"message":"API rate limit exceeded for 1.2.3.4."}"#;
    assert!(matches!(
        classify_github_rate_limit(403, limited),
        Some(DomainError::RateLimited(403))
    ));
    assert!(matches!(
        classify_github_rate_limit(429, "You have triggered an abuse detection mechanism"),
        Some(DomainError::RateLimited(429))
    ));
    assert!(classify_github_rate_limit(500, limited).is_none());
    assert!(classify_github_rate_limit(403, "Forbidden").is_none());
    assert!(classify_github_rate_limit(403, "").is_none());
}

fn message_of(e: DomainError) -> String {
    match e {
        DomainError::InternalError(m) => m,
        other => panic!("unexpected error {:?}", other),
    }
}

#[test]
fn api_error_messages() {
    assert_eq!(
        message_of(api_error(404, "404 Not Found", "  {\"message\":\"Not Found\"}\n")),
        "GitHub API error: HTTP 404 Not Found ({\"message\":\"Not Found\"})"
    );
    assert_eq!(
        message_of(api_error(502, "502 Bad Gateway", " \n ")),
        "GitHub API error: HTTP 502 Bad Gateway"
    );
    assert!(matches!(
        api_error(429, "429 Too Many Requests", "secondary rate limit"),
        DomainError::RateLimited(429)
    ));
}

#[test]
fn transport_error_messages() {
    assert_eq!(
        message_of(request_failed_error("connection refused")),
        "GitHub API request failed: connection refused"
    );
    assert_eq!(
        message_of(parse_failed_error("missing field `tag_name`")),
        "Failed to parse GitHub response: missing field `tag_name`"
    );
}

#[test]
fn release_record_becomes_release_info() {
    let info = release_info_from(GitHubRelease {
        tag_name: "desktop-auto-v1.4.0".to_string(),
        name: None,
        body: Some("notes".to_string()),
        html_url: "https://github.com/x".to_string(),
        prerelease: true,
        published_at: None,
    });
    assert_eq!(info.tag_name, "desktop-auto-v1.4.0");
    assert_eq!(info.version, "1.4.0");
    assert_eq!(info.name, "");
    assert_eq!(info.body, "notes");
    assert_eq!(info.html_url, "https://github.com/x");
    assert!(info.prerelease);
    assert_eq!(info.published_at, "");
}

#[test]
fn endpoint_is_the_latest_release() {
    assert_eq!(
        GITHUB_API_LATEST_RELEASE,
        "https://api.github.com/repos/Darkatse/TauriTavern/releases/latest"
    );
}
