use linkunwrap::classify::{
    extract_original_url, host_is_redirector, is_valid_url, unwrap_parsed, unwrap_url, ParsedUrl,
};
use linkunwrap::config::Config;

fn pairs(items: &[(&str, &str)]) -> Vec<(String, String)> {
    items.iter().map(|(k, v)| (k.to_string(), v.to_string())).collect()
}

#[test]
fn test_outlook_url_extraction() {
    let url = ParsedUrl::parse("https://outlook.safelinks.protection.outlook.com/?url=https%3A%2F%2Fexample.com&data=...").unwrap();
    assert_eq!(
        extract_original_url(&url),
        Some("https://example.com".to_string())
    );
}

#[test]
fn test_azure_url_extraction() {
    let url = ParsedUrl::parse("https://nam.safelink.emails.azure.net/redirect/?destination=https%3A%2F%2Fazuremsregistration.microsoft.com").unwrap();
    assert_eq!(
        extract_original_url(&url),
        Some("https://azuremsregistration.microsoft.com".to_string())
    );
}

#[test]
fn parse_reads_domain_and_decoded_pairs() {
    let url = ParsedUrl::parse("https://Sub.Example.COM/path?a=1&b=x%20y&a=2#frag").unwrap();
    assert_eq!(url.domain, Some("sub.example.com".to_string()));
    assert_eq!(url.query, pairs(&[("a", "1"), ("b", "x y"), ("a", "2")]));
}

#[test]
fn parse_of_address_host_has_no_domain() {
    let v4 = ParsedUrl::parse("https://127.0.0.1/?url=https%3A%2F%2Fexample.com").unwrap();
    assert_eq!(v4.domain, None);
    let v6 = ParsedUrl::parse("https://[::1]/?url=x").unwrap();
    assert_eq!(v6.domain, None);
    let mail = ParsedUrl::parse("mailto:someone@example.com").unwrap();
    assert_eq!(mail.domain, None);
    assert!(mail.query.is_empty());
}

#[test]
fn parse_rejects_what_is_no_absolute_url() {
    assert!(ParsedUrl::parse("not a url").is_none());
    assert!(ParsedUrl::parse("").is_none());
    assert!(ParsedUrl::parse("/relative/path").is_none());
    assert!(ParsedUrl::parse("https://").is_none());
}

#[test]
fn valid_url_is_what_parses() {
    assert!(is_valid_url("https://example.com"));
    assert!(is_valid_url("mailto:a@b.c"));
    assert!(!is_valid_url("example.com"));
    assert!(!is_valid_url("http://exa mple.com"));
    assert!(!is_valid_url(""));
}

#[test]
fn extraction_picks_the_key_of_the_family() {
    let outlook = ParsedUrl {
        domain: Some("eur01.safelinks.protection.outlook.com".to_string()),
        query: pairs(&[("destination", "https://wrong.example"), ("url", "https://right.example")]),
    };
    assert_eq!(extract_original_url(&outlook), Some("https://right.example".to_string()));
    let azure = ParsedUrl {
        domain: Some("nam.safelink.emails.azure.net".to_string()),
        query: pairs(&[("url", "https://wrong.example"), ("destination", "https://right.example")]),
    };
    assert_eq!(extract_original_url(&azure), Some("https://right.example".to_string()));
}

#[test]
fn extraction_takes_the_first_value() {
    let url = ParsedUrl {
        domain: Some("a.safelinks.protection.outlook.com".to_string()),
        query: pairs(&[("data", "0"), ("url", "https://first.example"), ("url", "https://second.example")]),
    };
    assert_eq!(extract_original_url(&url), Some("https://first.example".to_string()));
}

#[test]
fn extraction_without_the_parameter_gives_none() {
    let url = ParsedUrl {
        domain: Some("a.safelinks.protection.outlook.com".to_string()),
        query: pairs(&[("data", "0"), ("URL", "https://example.com")]),
    };
    assert_eq!(extract_original_url(&url), None);
    let bare = ParsedUrl { domain: Some("a.safelinks.protection.outlook.com".to_string()), query: vec![] };
    assert_eq!(extract_original_url(&bare), None);
}

#[test]
fn extraction_of_other_hosts_gives_none() {
    let other = ParsedUrl {
        domain: Some("example.com".to_string()),
        query: pairs(&[("url", "https://example.org"), ("destination", "https://example.org")]),
    };
    assert_eq!(extract_original_url(&other), None);
    let none = ParsedUrl { domain: None, query: pairs(&[("url", "https://example.org")]) };
    assert_eq!(extract_original_url(&none), None);
    let prefix = ParsedUrl {
        domain: Some("safelinks.protection.outlook.com.example.org".to_string()),
        query: pairs(&[("url", "https://example.org")]),
    };
    assert_eq!(extract_original_url(&prefix), None);
}

#[test]
fn extraction_matches_by_suffix_not_by_label() {
    let url = ParsedUrl {
        domain: Some("evilsafelinks.protection.outlook.com".to_string()),
        query: pairs(&[("url", "https://example.org")]),
    };
    assert_eq!(extract_original_url(&url), Some("https://example.org".to_string()));
    let exact = ParsedUrl {
        domain: Some("safelinks.protection.outlook.com".to_string()),
        query: pairs(&[("url", "https://example.org")]),
    };
    assert_eq!(extract_original_url(&exact), Some("https://example.org".to_string()));
}

#[test]
fn redirector_hosts_are_those_with_a_configured_suffix() {
    let config = Config::default();
    assert!(host_is_redirector("a.safelinks.protection.outlook.com", &config));
    assert!(host_is_redirector("nam.safelink.emails.azure.net", &config));
    assert!(!host_is_redirector("eur.safelink.emails.azure.net", &config));
    assert!(!host_is_redirector("example.com", &config));
    assert!(!host_is_redirector("outlook.com", &config));
    assert!(!host_is_redirector("", &config));
    let none = Config { check_interval: 1, max_backoff: 2, max_retries: 0, domains_to_unwrap: vec![] };
    assert!(!host_is_redirector("a.safelinks.protection.outlook.com", &none));
}

#[test]
fn unwrap_needs_both_configuration_and_family() {
    let azure_other_region = ParsedUrl {
        domain: Some("eur.safelink.emails.azure.net".to_string()),
        query: pairs(&[("destination", "https://example.org")]),
    };
    assert_eq!(extract_original_url(&azure_other_region), Some("https://example.org".to_string()));
    assert_eq!(unwrap_parsed(&azure_other_region, &Config::default()), None);

    let custom = Config {
        check_interval: 1000,
        max_backoff: 30_000,
        max_retries: 3,
        domains_to_unwrap: vec!["example.com".to_string()],
    };
    let unknown_family = ParsedUrl {
        domain: Some("go.example.com".to_string()),
        query: pairs(&[("url", "https://example.org")]),
    };
    assert_eq!(unwrap_parsed(&unknown_family, &custom), None);
    let outlook = ParsedUrl {
        domain: Some("a.safelinks.protection.outlook.com".to_string()),
        query: pairs(&[("url", "https://example.org")]),
    };
    assert_eq!(unwrap_parsed(&outlook, &custom), None);
    assert_eq!(unwrap_parsed(&outlook, &Config::default()), Some("https://example.org".to_string()));
}

#[test]
fn unwrap_of_text_follows_each_family() {
    let config = Config::default();
    assert_eq!(
        unwrap_url("https://nam.safelink.emails.azure.net/redirect/?destination=https%3A%2F%2Ffoo.com", &config),
        Some("https://foo.com".to_string())
    );
    assert_eq!(
        unwrap_url("https://eur02.safelinks.protection.outlook.com/?url=https%3A%2F%2Fbar.com%2Fa%3Fb%3Dc&data=05", &config),
        Some("https://bar.com/a?b=c".to_string())
    );
    assert_eq!(
        unwrap_url("https://nam.safelink.emails.azure.net/redirect/?url=https%3A%2F%2Ffoo.com", &config),
        None
    );
}

#[test]
fn unwrap_lowercases_the_host_before_matching() {
    let config = Config::default();
    assert_eq!(
        unwrap_url("https://A.SafeLinks.Protection.Outlook.COM/?url=https%3A%2F%2Fexample.com", &config),
        Some("https://example.com".to_string())
    );
}

#[test]
fn unwrap_leaves_other_urls_and_non_urls_alone() {
    let config = Config::default();
    assert_eq!(unwrap_url("https://example.com/?url=https%3A%2F%2Fexample.org", &config), None);
    assert_eq!(unwrap_url("https://10.0.0.1/?url=https%3A%2F%2Fexample.org", &config), None);
    assert_eq!(unwrap_url("http//broken", &config), None);
    assert_eq!(unwrap_url("", &config), None);
    assert_eq!(unwrap_url("https://a.safelinks.protection.outlook.com/", &config), None);
}

#[test]
fn unwrap_goes_one_level_only() {
    let config = Config::default();
    let nested = "https://a.safelinks.protection.outlook.com/?url=https%3A%2F%2Fb.safelinks.protection.outlook.com%2F%3Furl%3Dhttps%253A%252F%252Fexample.com";
    assert_eq!(
        unwrap_url(nested, &config),
        Some("https://b.safelinks.protection.outlook.com/?url=https%3A%2F%2Fexample.com".to_string())
    );
}
