use paywallremover::special::Domains;
use paywallremover::url_parts::UrlParts;
use paywallremover::{base_url, classify, compose_result, decide_from_probe, process_url};
use paywallremover::{Decision, ProcessError, Target};

fn url(
    base: &str,
    query: Option<&str>,
    fragment: Option<&str>,
    domain: Option<&str>,
    hierarchical: bool,
) -> UrlParts {
    UrlParts::new(
        base.to_string(),
        query.map(|s| s.to_string()),
        fragment.map(|s| s.to_string()),
        domain.map(|s| s.to_string()),
        hierarchical,
    )
    .expect("the components should be well-formed")
}

fn registry(special: &[&str], not_special: &[&str]) -> Domains {
    Domains::new(
        special.iter().map(|s| s.to_string()).collect(),
        not_special.iter().map(|s| s.to_string()).collect(),
    )
}

#[test]
fn special_domain_strips_query() {
    let domains = registry(&["example.com"], &[]);
    let u = url("https://example.com/a", Some("x=1"), None, Some("example.com"), true);
    let r = process_url(&domains, &u, false, false);
    assert_eq!(r, Ok("https://freedium.cfd/https://example.com/a".to_string()));
}

#[test]
fn unknown_domain_without_remote_check_is_generic() {
    let domains = Domains::default();
    let u = url("https://random.example/post", None, None, Some("random.example"), true);
    let r = process_url(&domains, &u, false, false);
    assert_eq!(r, Ok("https://removepaywall.com/https://random.example/post".to_string()));
}

#[test]
fn not_special_domain_resolves_without_probe() {
    let domains = registry(&[], &["random.example"]);
    let u = url("https://random.example/post", None, None, Some("random.example"), true);
    assert_eq!(classify(&domains, &u, true), Ok(Decision::Resolved(Target::Generic)));
    let r = process_url(&domains, &u, true, false);
    assert_eq!(r, Ok("https://removepaywall.com/https://random.example/post".to_string()));
}

#[test]
fn probe_success_routes_to_special() {
    let domains = Domains::default();
    let u = url("https://blog.example/story", None, None, Some("blog.example"), true);
    assert_eq!(classify(&domains, &u, true), Ok(Decision::NeedsProbe));
    assert_eq!(decide_from_probe(true), Target::Special);
    let r = process_url(&domains, &u, true, true);
    assert_eq!(r, Ok("https://freedium.cfd/https://blog.example/story".to_string()));
}

#[test]
fn probe_failure_routes_to_generic() {
    let domains = Domains::default();
    let u = url("https://blog.example/story", None, None, Some("blog.example"), true);
    assert_eq!(decide_from_probe(false), Target::Generic);
    let r = process_url(&domains, &u, true, false);
    assert_eq!(r, Ok("https://removepaywall.com/https://blog.example/story".to_string()));
}

#[test]
fn url_without_base_fails_with_not_a_base() {
    let domains = Domains::default();
    let u = url("data:text/plain,hello", None, None, None, false);
    assert_eq!(process_url(&domains, &u, false, false), Err(ProcessError::NotABase));
    assert_eq!(process_url(&domains, &u, true, true), Err(ProcessError::NotABase));
}

#[test]
fn special_domain_wins_whatever_the_flag_and_probe_say() {
    let domains = registry(&["example.com"], &["example.com"]);
    let u = url("https://example.com/a", Some("x=1"), None, Some("example.com"), true);
    let expected = Ok("https://freedium.cfd/https://example.com/a".to_string());
    assert_eq!(process_url(&domains, &u, false, false), expected);
    assert_eq!(process_url(&domains, &u, false, true), expected);
    assert_eq!(process_url(&domains, &u, true, false), expected);
    assert_eq!(process_url(&domains, &u, true, true), expected);
}

#[test]
fn remote_check_off_ignores_the_probe_answer() {
    let domains = Domains::default();
    let u = url("https://blog.example/story", None, None, Some("blog.example"), true);
    assert_eq!(
        process_url(&domains, &u, false, true),
        process_url(&domains, &u, false, false)
    );
}

#[test]
fn fragment_survives_query_stripping() {
    let domains = registry(&["example.com"], &[]);
    let u = url(
        "https://example.com/a",
        Some("x=1&y=2"),
        Some("sec"),
        Some("example.com"),
        true,
    );
    let r = process_url(&domains, &u, false, false);
    assert_eq!(r, Ok("https://freedium.cfd/https://example.com/a#sec".to_string()));
}

#[test]
fn generic_target_keeps_the_query() {
    let domains = Domains::default();
    let u = url(
        "https://random.example/post",
        Some("x=1"),
        Some("top"),
        Some("random.example"),
        true,
    );
    let r = process_url(&domains, &u, false, false);
    assert_eq!(
        r,
        Ok("https://removepaywall.com/https://random.example/post?x=1#top".to_string())
    );
}

#[test]
fn compose_result_prefixes_the_service_roots() {
    let u = url("https://example.com/a", Some("x=1"), None, Some("example.com"), true);
    assert_eq!(base_url(Target::Special), "https://freedium.cfd/");
    assert_eq!(base_url(Target::Generic), "https://removepaywall.com/");
    assert_eq!(
        compose_result(Target::Special, &u),
        "https://freedium.cfd/https://example.com/a".to_string()
    );
    assert_eq!(
        compose_result(Target::Generic, &u),
        "https://removepaywall.com/https://example.com/a?x=1".to_string()
    );
}

#[test]
fn error_messages_match_the_rendered_errors() {
    assert_eq!(
        ProcessError::NotAnUrl.message(),
        "The provided text is not a valid URL"
    );
    assert_eq!(
        ProcessError::NotABase.message(),
        "The provided text is not a valide base"
    );
}
