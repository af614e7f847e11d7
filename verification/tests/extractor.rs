use hitbox::extractor::{
    TagChain, ChainTagExtractor, Extractor, ExtractorExt, NeutralTagExtractor, StaticExtractor, TagExtractor,
};
use hitbox::key::KeyPart;

fn fixed_tags(names: &[&str]) -> impl TagExtractor<Subject = u32> {
    let parts: Vec<KeyPart> = names.iter().map(|n| KeyPart::new(n, None)).collect();
    StaticExtractor::<u32>::new(parts).as_tag()
}

#[test]
fn static_extractor_emits_configured_parts() {
    let ext = StaticExtractor::<u32>::new(vec![
        KeyPart::new("env", Some("prod")),
        KeyPart::new("region", Some("eu")),
    ]);

    let key_parts = ext.get(7);
    let (subject, key) = key_parts.into_cache_key();

    assert_eq!(subject, 7);
    let parts = key.parts();
    assert_eq!(parts.len(), 2);
    assert_eq!(parts[0].key(), "env");
    assert_eq!(parts[0].value(), Some("prod"));
    assert_eq!(parts[1].key(), "region");
    assert_eq!(parts[1].value(), Some("eu"));
}

#[test]
fn static_extractor_default_emits_no_parts() {
    let ext = StaticExtractor::<u32>::default();
    let key_parts = ext.get(0);
    let (_subject, key) = key_parts.into_cache_key();
    assert_eq!(key.parts().len(), 0);
}

#[test]
fn static_extractor_via_as_tag_yields_key_value_tags() {
    let tag_ext = StaticExtractor::<u32>::new(vec![
        KeyPart::new("user", Some("42")),
        KeyPart::new("region", Some("eu")),
    ])
    .as_tag();

    let (subject, tags) = tag_ext.extract_tags(123);
    assert_eq!(subject, 123);
    assert_eq!(tags.len(), 2);
    assert_eq!(tags[0].as_str(), "user=42");
    assert_eq!(tags[1].as_str(), "region=eu");
}

#[test]
fn chain_concatenates_tags_in_order() {
    let chain = ChainTagExtractor::new(fixed_tags(&["a", "b"]), fixed_tags(&["c"]));

    let (subject, tags) = chain.extract_tags(7);
    assert_eq!(subject, 7);
    let strs: Vec<&str> = tags.iter().map(|t| t.as_str()).collect();
    assert_eq!(strs, vec!["a", "b", "c"]);
}

#[test]
fn empty_chain_produces_no_tags() {
    let chain = ChainTagExtractor::new(
        NeutralTagExtractor::<u32>::default(),
        NeutralTagExtractor::<u32>::default(),
    );
    let (_subject, tags) = chain.extract_tags(0);
    assert!(tags.is_empty());
}

#[test]
fn chain_threads_subject_through_each_link() {
    let chain = ChainTagExtractor::new(
        NeutralTagExtractor::<u32>::default(),
        fixed_tags(&["only-tag"]),
    );

    let (subject, tags) = chain.extract_tags(99);
    assert_eq!(subject, 99);
    assert_eq!(tags.len(), 1);
    assert_eq!(tags[0].as_str(), "only-tag");
}

#[test]
fn chaining_with_the_neutral_extractor_changes_nothing() {
    let left = ChainTagExtractor::new(NeutralTagExtractor::<u32>::new(), fixed_tags(&["x", "y"]));
    let right = ChainTagExtractor::new(fixed_tags(&["x", "y"]), NeutralTagExtractor::<u32>::new());
    let (s1, t1) = left.extract_tags(5);
    let (s2, t2) = right.extract_tags(5);
    let (s3, t3) = fixed_tags(&["x", "y"]).extract_tags(5);
    assert_eq!((s1, s2), (s3, s3));
    let names = |t: &Vec<hitbox::tag::CacheTag>| t.iter().map(|x| x.as_str().to_string()).collect::<Vec<_>>();
    assert_eq!(names(&t1), names(&t3));
    assert_eq!(names(&t2), names(&t3));
}

#[test]
fn list_chain_concatenates_tags_in_order() {
    let chain = TagChain::new(vec![fixed_tags(&["a", "b"]), fixed_tags(&["c"]), fixed_tags(&[])]);
    let (subject, tags) = chain.extract_tags(7);
    assert_eq!(subject, 7);
    let strs: Vec<&str> = tags.iter().map(|t| t.as_str()).collect();
    assert_eq!(strs, vec!["a", "b", "c"]);
}

#[test]
fn empty_list_chain_produces_no_tags() {
    let chain = TagChain::new(Vec::<NeutralTagExtractor<u32>>::new());
    let (subject, tags) = chain.extract_tags(3);
    assert_eq!(subject, 3);
    assert!(tags.is_empty());
}

#[test]
fn references_and_boxes_extract_as_their_target() {
    let ext = StaticExtractor::<u32>::new(vec![KeyPart::new("a", Some("1"))]);
    let (_, key) = (&ext).get(1).into_cache_key();
    assert_eq!(key.to_string(), "a=1");
    let boxed = Box::new(fixed_tags(&["t"]));
    let (_, tags) = boxed.extract_tags(1);
    assert_eq!(tags[0].as_str(), "t");
    let shared = std::sync::Arc::new(fixed_tags(&["u"]));
    assert_eq!(shared.extract_tags(1).1[0].as_str(), "u");
}
