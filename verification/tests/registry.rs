use paywallremover::special::Domains;
use paywallremover::url_parts::UrlParts;
use paywallremover::{process_url, Decision};

fn url_with_domain(base: &str, domain: Option<&str>) -> UrlParts {
    UrlParts::new(
        base.to_string(),
        None,
        None,
        domain.map(|s| s.to_string()),
        true,
    )
    .expect("the components should be well-formed")
}

#[test]
fn lookups_hit_their_own_list_only() {
    let domains = Domains::new(
        vec!["medium.com".to_string(), "example.com".to_string()],
        vec!["plain.example".to_string()],
    );
    let special = url_with_domain("https://medium.com/story", Some("medium.com"));
    let not_special = url_with_domain("https://plain.example/a", Some("plain.example"));
    let unknown = url_with_domain("https://nowhere.example/a", Some("nowhere.example"));
    assert!(domains.is_special(&special));
    assert!(!domains.is_not_special(&special));
    assert!(!domains.is_special(&not_special));
    assert!(domains.is_not_special(&not_special));
    assert!(!domains.is_special(&unknown));
    assert!(!domains.is_not_special(&unknown));
}

#[test]
fn url_without_domain_is_never_listed() {
    let domains = Domains::new(
        vec!["example.com".to_string()],
        vec!["example.com".to_string()],
    );
    let u = url_with_domain("https://203.0.113.7/a", None);
    assert!(!domains.is_special(&u));
    assert!(!domains.is_not_special(&u));
}

#[test]
fn empty_registry_classifies_through_the_default_paths() {
    // The degraded registry a missing or malformed domain resource falls
    // back to: classification proceeds on the remote-check paths alone.
    let domains = Domains::default();
    let u = url_with_domain("https://random.example/post", Some("random.example"));
    assert!(!domains.is_special(&u));
    assert!(!domains.is_not_special(&u));
    assert_eq!(
        process_url(&domains, &u, false, false),
        Ok("https://removepaywall.com/https://random.example/post".to_string())
    );
    assert_eq!(
        paywallremover::classify(&domains, &u, true),
        Ok(Decision::NeedsProbe)
    );
    assert_eq!(
        process_url(&domains, &u, true, true),
        Ok("https://freedium.cfd/https://random.example/post".to_string())
    );
}

#[test]
fn url_components_with_forbidden_characters_are_rejected() {
    assert!(UrlParts::new("https://example.com/a b".to_string(), None, None, None, true).is_none());
    assert!(UrlParts::new("https://example.com/a?x".to_string(), None, None, None, true).is_none());
    assert!(UrlParts::new("https://example.com/a#f".to_string(), None, None, None, true).is_none());
    assert!(UrlParts::new("".to_string(), None, None, None, true).is_none());
    assert!(
        UrlParts::new("https://example.com/a".to_string(), Some("x=#1".to_string()), None, None, true)
            .is_none()
    );
    assert!(
        UrlParts::new("https://example.com/a".to_string(), Some("x=?1".to_string()), None, None, true)
            .is_some()
    );
    assert!(
        UrlParts::new(
            "https://example.com/a".to_string(),
            None,
            Some("x#y?z".to_string()),
            None,
            true,
        )
        .is_some()
    );
}
