use hitbox::decimal::{parse_u32, signed_to_string, unsigned_to_string};
use hitbox::key::{CacheKey, KeyPart, KeyParts};
use hitbox::tag::{tags_from_parts, CacheTag, CacheTags};

#[test]
fn key_renders_prefix_version_and_parts() {
    let key = CacheKey::new(
        "api",
        1,
        vec![KeyPart::new("method", Some("GET")), KeyPart::new("path", Some("/users/123"))],
    );
    assert_eq!(key.prefix(), "api");
    assert_eq!(key.version(), 1);
    assert_eq!(key.to_string(), "api:v1:method=GET&path=/users/123");
}

#[test]
fn empty_prefix_and_zero_version_are_left_out() {
    let id = || vec![KeyPart::new("id", Some("42"))];
    assert_eq!(CacheKey::new("api", 1, id()).to_string(), "api:v1:id=42");
    assert_eq!(CacheKey::new("", 2, id()).to_string(), "v2:id=42");
    assert_eq!(CacheKey::new("cache", 0, id()).to_string(), "cache:id=42");
    assert_eq!(CacheKey::new("", 0, id()).to_string(), "id=42");
    assert_eq!(CacheKey::new("", 0, vec![KeyPart::new("flag", None)]).to_string(), "flag");
    assert_eq!(
        CacheKey::new(
            "api",
            1,
            vec![KeyPart::new("method", Some("GET")), KeyPart::new("cached", None)]
        )
        .to_string(),
        "api:v1:method=GET&cached"
    );
    assert_eq!(CacheKey::new("", 0, vec![]).to_string(), "");
}

#[test]
fn keys_from_str_and_slice() {
    let a = CacheKey::from_str("id", "42");
    let b = CacheKey::from_slice(&[("id", Some("42"))]);
    assert_eq!(a, b);
    assert!(a.same_as(&b));
    assert_eq!(a.to_string(), "id=42");
    let c = CacheKey::from_slice(&[("a", Some("1")), ("b", None)]);
    assert_eq!(c.to_string(), "a=1&b");
    assert_ne!(a, c);
    assert_eq!(a.clone(), a);
}

#[test]
fn content_size_counts_only_long_strings() {
    let short = CacheKey::new("api", 1, vec![KeyPart::new("id", Some("42"))]);
    assert_eq!(short.content_size(), 0);
    let long = "x".repeat(30);
    let key = CacheKey::new(&long, 1, vec![KeyPart::new("id", Some(&long))]);
    assert_eq!(key.content_size(), 14);
    assert!(key.memory_size() > short.memory_size());
}

#[test]
fn key_parts_rename_and_prefix() {
    let p = KeyPart::new("id", Some("7"));
    assert_eq!(p.clone().with_key("user").to_text(), "user=7");
    assert_eq!(p.clone().prefixed("req").to_text(), "req.id=7");
    assert_eq!(KeyPart::new("flag", None).to_text(), "flag");
    assert!(p.same_as(&KeyPart::new("id", Some("7"))));
    assert!(!p.same_as(&KeyPart::new("id", None)));
}

#[test]
fn key_parts_builder_collects_in_order() {
    let mut parts = KeyParts::new("subject");
    parts.push(KeyPart::new("a", Some("1")));
    let mut more = vec![KeyPart::new("b", None), KeyPart::new("c", Some("3"))];
    parts.append(&mut more);
    assert!(more.is_empty());
    let (subject, key) = parts.into_cache_key();
    assert_eq!(subject, "subject");
    assert_eq!(key.to_string(), "a=1&b&c=3");
}

#[test]
fn tags_from_parts_and_tag_keys() {
    let parts = vec![KeyPart::new("user", Some("42")), KeyPart::new("all", None)];
    let tags = tags_from_parts(&parts);
    assert_eq!(tags.len(), 2);
    assert_eq!(tags[0].as_str(), "user=42");
    assert_eq!(tags[1].as_str(), "all");
    let key = CacheTag::new("users").to_cache_key("tags");
    assert_eq!(key.to_string(), "tags:tag=users");
    assert!(CacheTag::new("a").same_as(&CacheTag::from_string("a".to_owned())));
}

#[test]
fn tag_sets_know_when_they_are_empty() {
    assert!(CacheTags::empty().is_empty());
    assert!(CacheTags::default().is_empty());
    assert!(CacheTags::request_only(vec![]).is_empty());
    assert!(!CacheTags::response_only(vec![CacheTag::new("x")]).is_empty());
    assert!(!CacheTags::new(vec![CacheTag::new("x")], vec![]).is_empty());
}

#[test]
fn decimal_text() {
    assert_eq!(unsigned_to_string(0), "0");
    assert_eq!(unsigned_to_string(1234567890), "1234567890");
    assert_eq!(signed_to_string(-45), "-45");
    assert_eq!(signed_to_string(0), "0");
    assert_eq!(parse_u32("60"), Some(60));
    assert_eq!(parse_u32("4294967295"), Some(4294967295));
    assert_eq!(parse_u32("4294967296"), None);
    assert_eq!(parse_u32(""), None);
    assert_eq!(parse_u32("12a"), None);
}

#[test]
fn pushed_parts_make_the_key_in_push_order() {
    let mut parts = KeyParts::new(7u32);
    parts.push(KeyPart::new("env", Some("prod")));
    parts.push(KeyPart::new("region", Some("eu")));
    parts.push(KeyPart::new("flag", None));
    let (subject, key) = parts.into_cache_key();
    assert_eq!(subject, 7);
    assert_eq!(key.prefix(), "");
    assert_eq!(key.version(), 0);
    let got: Vec<(&str, Option<&str>)> = key.parts().iter().map(|p| (p.key(), p.value())).collect();
    assert_eq!(got, vec![("env", Some("prod")), ("region", Some("eu")), ("flag", None)]);
}

#[test]
fn no_pushes_make_an_empty_key() {
    let (subject, key) = KeyParts::new("s").into_cache_key();
    assert_eq!(subject, "s");
    assert!(key.parts().is_empty());
    assert_eq!(key.to_string(), "");
}
