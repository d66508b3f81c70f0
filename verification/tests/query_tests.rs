use wallhaven_cli::query::{FileType, ParseError, SearchQuery};

#[test]
fn id_directive_wins() {
    let q = SearchQuery::parse("city id:123 @bob").unwrap();
    assert_eq!(q.id.as_deref(), Some("123"));
    assert!(q.tags.is_none());
    assert!(q.username.is_none());
    assert!(q.filetype.is_none());
    assert!(q.like.is_none());
}

#[test]
fn id_directive_wins_after_other_directives() {
    let q = SearchQuery::parse("type:png id:9 tag").unwrap();
    assert_eq!(q.id.as_deref(), Some("9"));
    assert!(q.filetype.is_none());
    assert!(q.tags.is_none());
}

#[test]
fn tag_order_preserved() {
    let q = SearchQuery::parse("+city -night").unwrap();
    assert_eq!(q.tags.as_deref(), Some(&["+city".to_string(), "-night".to_string()][..]));
    assert!(q.id.is_none());
}

#[test]
fn type_png_accepted() {
    let q = SearchQuery::parse("type:png").unwrap();
    assert_eq!(q.filetype, Some(FileType::Png));
}

#[test]
fn type_jpg_accepted() {
    let q = SearchQuery::parse("anime type:jpg").unwrap();
    assert_eq!(q.filetype, Some(FileType::Jpg));
    assert_eq!(q.tags.as_deref(), Some(&["anime".to_string()][..]));
}

#[test]
fn type_gif_rejected() {
    let e = SearchQuery::parse("type:gif").unwrap_err();
    assert!(matches!(e, ParseError::InvalidFiletype));
    assert_eq!(e.message(), "Invalid file type - only accept png or jpg");
}

#[test]
fn unknown_directive_rejected() {
    let e = SearchQuery::parse("foo:bar").unwrap_err();
    match &e {
        ParseError::UnrecognizedDirective { key, value } => {
            assert_eq!(key, "foo");
            assert_eq!(value, "bar");
        },
        _ => panic!("expected an unrecognized-directive error"),
    }
    assert_eq!(e.message(), "foo:bar is not a valid query");
}

#[test]
fn username_last_wins() {
    let q = SearchQuery::parse("@alice @bob").unwrap();
    assert_eq!(q.username.as_deref(), Some("bob"));
}

#[test]
fn like_directive_stored_verbatim() {
    let q = SearchQuery::parse("like:wall01").unwrap();
    assert_eq!(q.like.as_deref(), Some("wall01"));
}

#[test]
fn empty_input_everything_absent() {
    let q = SearchQuery::parse("").unwrap();
    assert!(q.tags.is_none());
    assert!(q.username.is_none());
    assert!(q.id.is_none());
    assert!(q.filetype.is_none());
    assert!(q.like.is_none());
}

#[test]
fn token_with_two_colons_is_a_plain_tag() {
    let q = SearchQuery::parse("a:b:c").unwrap();
    assert_eq!(q.tags.as_deref(), Some(&["a:b:c".to_string()][..]));
}

#[test]
fn empty_tokens_are_dropped() {
    let q = SearchQuery::parse("a  b").unwrap();
    assert_eq!(q.tags.as_deref(), Some(&["a".to_string(), "b".to_string()][..]));
}

#[test]
fn lone_colon_is_unrecognized() {
    let e = SearchQuery::parse(":").unwrap_err();
    assert!(matches!(e, ParseError::UnrecognizedDirective { .. }));
}

#[test]
fn lone_at_gives_an_empty_username() {
    let q = SearchQuery::parse("@").unwrap();
    assert_eq!(q.username.as_deref(), Some(""));
    assert!(q.tags.is_none());
}

#[test]
fn tags_beyond_ascii_are_kept_verbatim() {
    let q = SearchQuery::parse("caf\u{e9} +\u{6d77}").unwrap();
    assert_eq!(
        q.tags.as_deref(),
        Some(&["caf\u{e9}".to_string(), "+\u{6d77}".to_string()][..])
    );
}

#[test]
fn mixed_query_collects_everything() {
    let q = SearchQuery::parse("anime +city -mountain type:png @dax like:abc123").unwrap();
    assert_eq!(
        q.tags.as_deref(),
        Some(&["anime".to_string(), "+city".to_string(), "-mountain".to_string()][..])
    );
    assert_eq!(q.username.as_deref(), Some("dax"));
    assert_eq!(q.filetype, Some(FileType::Png));
    assert_eq!(q.like.as_deref(), Some("abc123"));
    assert!(q.id.is_none());
}
