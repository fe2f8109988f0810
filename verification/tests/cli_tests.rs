use yawsf::cli::{generate_token, CommandLineError, TOKEN_LENGTH};
use yawsf::urls::{callback_url, check_base_url_parts, host_api_url, UrlParts};

fn parse_base_url(input: &str) -> Result<String, String> {
    yawsf::urls::parse_base_url(input).map(|u| u.href)
}
use yawsf::Cli;

fn cli(command: Option<&str>) -> Cli {
    Cli {
        base_url: "http://127.0.0.1:12551/".to_string(),
        bind: "127.0.0.1:12550".to_string(),
        token: "t".to_string(),
        webapp_command: command.map(|c| c.to_string()),
    }
}

#[test]
fn generated_token_is_32_alphanumerics() {
    let token = generate_token();
    assert_eq!(TOKEN_LENGTH, 32);
    assert_eq!(token.chars().count(), 32);
    assert!(token.chars().all(|c| c.is_ascii_alphanumeric()));
    assert_ne!(token, generate_token());
}

#[test]
fn given_token_is_kept() {
    assert_eq!(Cli::token_or_generated(Some("abc".to_string())), "abc");
    assert_eq!(Cli::token_or_generated(None).len(), 32);
}

#[test]
fn webapp_command_is_split_like_a_shell() {
    assert_eq!(cli(None).parsed_webapp_command(), Ok(None));
    assert!(!cli(None).manages_webapp());
    let c = cli(Some("pnpm --dir example-shell dev"));
    assert!(c.manages_webapp());
    assert_eq!(
        c.parsed_webapp_command(),
        Ok(Some(vec![
            "pnpm".to_string(),
            "--dir".to_string(),
            "example-shell".to_string(),
            "dev".to_string()
        ]))
    );
    assert_eq!(
        cli(Some("node 'my server.js' \"a b\"")).parsed_webapp_command(),
        Ok(Some(vec!["node".to_string(), "my server.js".to_string(), "a b".to_string()]))
    );
}

#[test]
fn unclosed_quote_is_refused() {
    let err = cli(Some("node 'server.js")).parsed_webapp_command().unwrap_err();
    assert_eq!(err, CommandLineError::MissingClosingQuote);
    assert_eq!(err.message(), "missing closing quote");
}

#[test]
fn base_url_gets_a_trailing_slash() {
    assert_eq!(parse_base_url("http://127.0.0.1:12551"), Ok("http://127.0.0.1:12551/".to_string()));
    assert_eq!(parse_base_url("http://127.0.0.1:12551/"), Ok("http://127.0.0.1:12551/".to_string()));
    assert_eq!(parse_base_url("https://shell.example/app"), Ok("https://shell.example/app/".to_string()));
    assert_eq!(
        parse_base_url("https://shell.example/app?x=1#f"),
        Ok("https://shell.example/app/?x=1#f".to_string())
    );
}

#[test]
fn base_url_must_be_http_or_https() {
    assert_eq!(parse_base_url("ftp://shell.example/"), Err("unsupported URL scheme: ftp".to_string()));
    assert_eq!(
        parse_base_url("data:text/plain,hello"),
        Err("unsupported URL scheme: data".to_string())
    );
}

#[test]
fn base_url_parse_errors_are_reported() {
    assert_eq!(parse_base_url("not a url"), Err("relative URL without a base".to_string()));
    assert_eq!(parse_base_url("http://"), Err("empty host".to_string()));
}

#[test]
fn callbacks_resolve_under_the_base_url() {
    assert_eq!(
        callback_url("http://127.0.0.1:12551/", "_start"),
        Some("http://127.0.0.1:12551/_start".to_string())
    );
    assert_eq!(
        callback_url("https://shell.example/app/", "_quit"),
        Some("https://shell.example/app/_quit".to_string())
    );
    assert_eq!(callback_url("not a url", "_quit"), None);
}

#[test]
fn host_api_url_from_bind_address() {
    assert_eq!(host_api_url("127.0.0.1:12550"), Ok("http://127.0.0.1:12550/".to_string()));
    assert_eq!(host_api_url("[::1]:8080"), Ok("http://[::1]:8080/".to_string()));
    assert!(host_api_url("bad host:1").is_err());
}

#[test]
fn accepted_base_url_is_normalized_and_stable() {
    let u = yawsf::urls::parse_base_url("https://shell.example/app").unwrap();
    assert_eq!(u.scheme, "https");
    assert!(!u.cannot_be_a_base);
    assert_eq!(u.path, "/app/");
    let again = yawsf::urls::parse_base_url(&u.href).unwrap();
    assert_eq!(again.href, u.href);
    assert_eq!(again.path, u.path);
}

#[test]
fn base_url_parts_are_judged() {
    let parts = |scheme: &str, cannot_be_a_base: bool, path: &str| UrlParts {
        href: String::new(),
        scheme: scheme.to_string(),
        cannot_be_a_base,
        path: path.to_string(),
    };
    assert_eq!(check_base_url_parts(&parts("http", false, "/")), Ok(None));
    assert_eq!(check_base_url_parts(&parts("https", false, "/a")), Ok(Some("/a/".to_string())));
    assert_eq!(
        check_base_url_parts(&parts("mailto", true, "x")),
        Err("unsupported URL scheme: mailto".to_string())
    );
    assert_eq!(
        check_base_url_parts(&parts("http", true, "x")),
        Err("base URL must be hierarchical".to_string())
    );
}
