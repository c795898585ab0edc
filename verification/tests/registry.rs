use url_shortener::code::CODE_LENGTH;
use url_shortener::{UrlShortener, UrlShortenerError};

fn sorted(mut entries: Vec<(String, String)>) -> Vec<(String, String)> {
    entries.sort();
    entries
}

fn pair(code: &str, url: &str) -> (String, String) {
    (code.to_string(), url.to_string())
}

#[test]
fn shorten_rejects_urls_without_an_accepted_scheme() {
    let mut registry = UrlShortener::empty();
    assert!(matches!(registry.shorten("ftp://x"), Err(UrlShortenerError::InvalidUrl)));
    assert!(matches!(registry.shorten("not a url"), Err(UrlShortenerError::InvalidUrl)));
    assert!(matches!(registry.shorten(""), Err(UrlShortenerError::InvalidUrl)));
    assert!(matches!(registry.shorten("http:/a.com"), Err(UrlShortenerError::InvalidUrl)));
    assert!(registry.list().is_empty());
}

#[test]
fn shorten_accepts_http_and_https() {
    let mut registry = UrlShortener::empty();
    assert!(registry.shorten("http://a.com").is_ok());
    assert!(registry.shorten("https://a.com").is_ok());
}

#[test]
fn scheme_match_is_case_sensitive() {
    let mut registry = UrlShortener::empty();
    assert!(matches!(registry.shorten("HTTP://a.com"), Err(UrlShortenerError::InvalidUrl)));
    assert!(matches!(registry.shorten("Https://a.com"), Err(UrlShortenerError::InvalidUrl)));
    assert!(matches!(registry.shorten(" https://a.com"), Err(UrlShortenerError::InvalidUrl)));
}

#[test]
fn nothing_after_the_scheme_is_checked() {
    let mut registry = UrlShortener::empty();
    assert!(registry.shorten("http://").is_ok());
    assert!(registry.shorten("https://").is_ok());
    assert!(registry.shorten("https://exa mple/\u{e9}?").is_ok());
}

#[test]
fn generated_codes_have_six_url_safe_characters() {
    let mut registry = UrlShortener::empty();
    for _ in 0..200 {
        let code = registry.shorten("https://example.com").unwrap().code;
        assert_eq!(code.chars().count(), 6);
        assert_eq!(code.chars().count(), CODE_LENGTH);
        assert!(code.chars().all(|c| c.is_ascii_alphanumeric() || c == '_' || c == '-'));
    }
}

#[test]
fn generate_code_gives_fresh_codes() {
    let a = url_shortener::code::generate_code();
    let b = url_shortener::code::generate_code();
    let c = url_shortener::code::generate_code();
    assert_eq!(a.len(), 6);
    assert!(a != b || b != c);
}

#[test]
fn expand_returns_the_shortened_url() {
    let mut registry = UrlShortener::empty();
    let code = registry.shorten("https://example.com/a/long/path?q=1").unwrap().code;
    assert_eq!(registry.expand(&code).unwrap(), "https://example.com/a/long/path?q=1");
}

#[test]
fn expand_misses_an_unknown_code() {
    let registry = UrlShortener::empty();
    assert!(matches!(registry.expand("doesnotexist"), Err(UrlShortenerError::UrlNotFound)));
    let mut registry = UrlShortener::empty();
    registry.store("abc123".to_string(), "https://a.com".to_string());
    assert!(matches!(registry.expand("doesnotexist"), Err(UrlShortenerError::UrlNotFound)));
    assert!(matches!(registry.expand("abc12"), Err(UrlShortenerError::UrlNotFound)));
    assert!(matches!(registry.expand("ABC123"), Err(UrlShortenerError::UrlNotFound)));
}

#[test]
fn store_keeps_the_last_url_of_a_code() {
    let mut registry = UrlShortener::empty();
    registry.store("abc123".to_string(), "https://first.example".to_string());
    registry.store("zzz999".to_string(), "https://other.example".to_string());
    registry.store("abc123".to_string(), "https://second.example".to_string());
    assert_eq!(registry.expand("abc123").unwrap(), "https://second.example");
    assert_eq!(registry.expand("zzz999").unwrap(), "https://other.example");
    assert_eq!(
        sorted(registry.list()),
        vec![pair("abc123", "https://second.example"), pair("zzz999", "https://other.example")]
    );
}

#[test]
fn list_enumerates_every_entry_once() {
    let mut registry = UrlShortener::empty();
    registry.store("b".to_string(), "https://b.example".to_string());
    registry.store("a".to_string(), "https://a.example".to_string());
    registry.store("c".to_string(), "http://c.example".to_string());
    assert_eq!(
        sorted(registry.list()),
        vec![
            pair("a", "https://a.example"),
            pair("b", "https://b.example"),
            pair("c", "http://c.example"),
        ]
    );
}

#[test]
fn an_absent_snapshot_gives_an_empty_registry() {
    let registry = UrlShortener::new(None).unwrap();
    assert!(registry.list().is_empty());
    assert!(matches!(registry.expand("abc123"), Err(UrlShortenerError::UrlNotFound)));
}

#[test]
fn from_entries_stores_in_order() {
    let registry = UrlShortener::from_entries(vec![
        pair("k", "https://one.example"),
        pair("j", "https://two.example"),
        pair("k", "https://three.example"),
    ]);
    assert_eq!(registry.expand("k").unwrap(), "https://three.example");
    assert_eq!(registry.expand("j").unwrap(), "https://two.example");
    assert_eq!(registry.list().len(), 2);
}

#[test]
fn many_shortens_lose_nothing() {
    let mut registry = UrlShortener::empty();
    let mut shortened: Vec<(String, String)> = Vec::new();
    for i in 0..100 {
        let url = format!("https://example.com/{}", i);
        let code = registry.shorten(&url).unwrap().code;
        shortened.retain(|entry| entry.0 != code);
        shortened.push((code, url));
    }
    assert_eq!(sorted(registry.list()), sorted(shortened.clone()));
    for (code, url) in &shortened {
        assert_eq!(&registry.expand(code).unwrap(), url);
    }
    let text = registry.save().unwrap();
    let reloaded = UrlShortener::new(Some(&text)).unwrap();
    assert_eq!(sorted(reloaded.list()), sorted(shortened));
}

#[test]
fn shorten_hands_out_the_snapshot_with_the_new_entry() {
    let mut registry = UrlShortener::empty();
    let done = registry.shorten("https://example.com").unwrap();
    assert_eq!(
        done.snapshot,
        format!("{{\n  \"urls\": {{\n    \"{}\": \"https://example.com\"\n  }}\n}}", done.code)
    );
    assert_eq!(done.snapshot, registry.save().unwrap());
    let second = registry.shorten("http://other.example").unwrap();
    assert_eq!(second.snapshot, registry.save().unwrap());
    let reloaded = UrlShortener::new(Some(&second.snapshot)).unwrap();
    assert_eq!(reloaded.expand(&done.code).unwrap(), "https://example.com");
    assert_eq!(reloaded.expand(&second.code).unwrap(), "http://other.example");
}

#[test]
fn rejected_url_leaves_the_registry_as_it_was() {
    let mut registry = UrlShortener::empty();
    registry.store("abc123".to_string(), "https://a.com".to_string());
    let before = registry.save().unwrap();
    assert!(matches!(registry.shorten("ftp://x"), Err(UrlShortenerError::InvalidUrl)));
    assert_eq!(registry.save().unwrap(), before);
}

#[test]
fn save_always_gives_the_snapshot() {
    assert!(UrlShortener::empty().save().is_ok());
    let mut registry = UrlShortener::empty();
    for i in 0..50 {
        registry.store(format!("code{}", i), format!("https://example.com/\"{}\"\\\n", i));
        assert!(registry.save().is_ok());
    }
}

#[test]
fn stores_under_distinct_codes_are_all_kept() {
    let mut registry = UrlShortener::empty();
    registry.store("kept".to_string(), "https://kept.example".to_string());
    let mut stored = vec![pair("kept", "https://kept.example")];
    for i in 0..64 {
        let code = format!("c{:05}", i);
        let url = format!("https://example.com/{}", i);
        registry.store(code.clone(), url.clone());
        stored.push((code, url));
    }
    assert_eq!(registry.list().len(), 65);
    assert_eq!(sorted(registry.list()), sorted(stored));
}
