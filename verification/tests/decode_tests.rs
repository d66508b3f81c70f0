use wallhaven_cli::decode::{decode_error, decode_response, decode_search, CommandKind, Decoded};
use wallhaven_cli::json::Json;
use wallhaven_cli::model::{MetaQuery, WallhavenClientError};

fn s(v: &str) -> Json {
    Json::Str(v.to_string())
}

fn field(k: &str, v: Json) -> (String, Json) {
    (k.to_string(), v)
}

fn wallpaper_obj() -> Json {
    Json::Obj(vec![
        field("id", s("abc123")),
        field("url", s("https://wallhaven.cc/w/abc123")),
        field("short_url", s("https://whvn.cc/abc123")),
        field("views", Json::Int(12)),
        field("favorites", Json::Int(3)),
        field("source", s("")),
        field("purity", s("sfw")),
        field("category", s("general")),
        field("dimension_x", Json::Int(1920)),
        field("dimension_y", Json::Int(1080)),
        field("resolution", s("1920x1080")),
        field("ratio", s("16x9")),
        field("file_size", Json::Int(1048576)),
        field("file_type", s("image/png")),
        field("created_at", s("2020-01-01 00:00:00")),
        field("colors", Json::Arr(vec![s("#000000"), s("#66cccc")])),
        field("path", s("https://w.wallhaven.cc/full/ab/wallhaven-abc123.png")),
        field(
            "thumbs",
            Json::Obj(vec![
                field("large", s("https://th.wallhaven.cc/lg/ab/abc123.jpg")),
                field("original", s("https://th.wallhaven.cc/orig/ab/abc123.jpg")),
                field("small", s("https://th.wallhaven.cc/small/ab/abc123.jpg")),
            ]),
        ),
    ])
}

fn meta_obj(per_page: Json) -> Json {
    Json::Obj(vec![
        field("current_page", Json::Int(1)),
        field("last_page", Json::Int(4)),
        field("per_page", per_page),
        field("total", Json::Int(96)),
        field("query", s("city")),
        field("seed", Json::Null),
    ])
}

fn search_obj(per_page: Json) -> Json {
    Json::Obj(vec![
        field("data", Json::Arr(vec![wallpaper_obj()])),
        field("meta", meta_obj(per_page)),
    ])
}

#[test]
fn error_shape_wins_over_expected_shape() {
    let body = Json::Obj(vec![field("error", s("invalid API key"))]);
    let r = decode_response(CommandKind::Search, &body).unwrap();
    match r {
        Decoded::Error(e) => assert_eq!(e.error, "invalid API key"),
        _ => panic!("expected the reported error, not a decode attempt"),
    }
}

#[test]
fn error_probe_needs_a_string() {
    let body = Json::Obj(vec![field("error", Json::Int(1))]);
    assert!(decode_error(&body).is_none());
}

#[test]
fn per_page_accepts_a_numeral_string() {
    let r = decode_search(&search_obj(s("24"))).unwrap();
    assert_eq!(r.meta.per_page, 24);
}

#[test]
fn per_page_accepts_a_number() {
    let r = decode_search(&search_obj(Json::Int(24))).unwrap();
    assert_eq!(r.meta.per_page, 24);
}

#[test]
fn per_page_rejects_garbage() {
    assert!(decode_search(&search_obj(s("24x"))).is_none());
    assert!(decode_search(&search_obj(Json::Bool(true))).is_none());
    assert!(decode_search(&search_obj(s("99999999999"))).is_none());
}

#[test]
fn search_decode_reads_every_field() {
    let r = decode_search(&search_obj(Json::Int(24))).unwrap();
    assert_eq!(r.data.len(), 1);
    let w = &r.data[0];
    assert_eq!(w.id, "abc123");
    assert_eq!(w.views, 12);
    assert_eq!(w.favorites, 3);
    assert_eq!(w.dimension_x, 1920);
    assert_eq!(w.file_type, "image/png");
    assert_eq!(w.colors, vec!["#000000".to_string(), "#66cccc".to_string()]);
    assert_eq!(w.thumbs.small, "https://th.wallhaven.cc/small/ab/abc123.jpg");
    assert_eq!(r.meta.current_page, 1);
    assert_eq!(r.meta.total, 96);
    assert!(r.meta.seed.is_none());
    match &r.meta.query {
        MetaQuery::Query(Some(q)) => assert_eq!(q, "city"),
        _ => panic!("expected the plain query echo"),
    }
}

#[test]
fn missing_field_is_a_decode_error() {
    let body = Json::Obj(vec![field("data", Json::Arr(vec![]))]);
    let r = decode_response(CommandKind::Search, &body);
    match r {
        Err(WallhavenClientError::DecodeError(m)) => {
            assert_eq!(m, "response matched neither the error shape nor the expected shape");
        },
        _ => panic!("expected a decode error"),
    }
}

#[test]
fn meta_query_structured_shape_is_tried_first() {
    let meta = Json::Obj(vec![
        field("current_page", Json::Int(1)),
        field("last_page", Json::Int(1)),
        field("per_page", Json::Int(24)),
        field("total", Json::Int(1)),
        field("query", Json::Obj(vec![field("id", Json::Int(77)), field("tag", s("nature"))])),
        field("seed", s("aB3x9Z")),
    ]);
    let body = Json::Obj(vec![field("data", Json::Arr(vec![])), field("meta", meta)]);
    let r = decode_search(&body).unwrap();
    match &r.meta.query {
        MetaQuery::Querytag { id, tag } => {
            assert_eq!(*id, 77);
            assert_eq!(tag.as_deref(), Some("nature"));
        },
        _ => panic!("expected the structured query echo"),
    }
    assert_eq!(r.meta.seed.as_deref(), Some("aB3x9Z"));
}

#[test]
fn meta_query_null_is_an_absent_echo() {
    let r = decode_search(&search_obj(Json::Int(24)));
    assert!(r.is_some());
    let meta = Json::Obj(vec![
        field("current_page", Json::Int(1)),
        field("last_page", Json::Int(1)),
        field("per_page", Json::Int(24)),
        field("total", Json::Int(0)),
        field("query", Json::Null),
    ]);
    let body = Json::Obj(vec![field("data", Json::Arr(vec![])), field("meta", meta)]);
    let r = decode_search(&body).unwrap();
    assert!(matches!(r.meta.query, MetaQuery::Query(None)));
    assert!(r.meta.seed.is_none());
}

#[test]
fn unknown_fields_are_ignored() {
    let body = Json::Obj(vec![
        field("extra", Json::Bool(true)),
        field("data", Json::Arr(vec![wallpaper_obj()])),
        field("meta", meta_obj(Json::Int(24))),
        field("more", Json::Arr(vec![])),
    ]);
    assert!(decode_search(&body).is_some());
}

#[test]
fn tag_response_decodes() {
    let tag = Json::Obj(vec![
        field("id", Json::Int(5)),
        field("name", s("nature")),
        field("alias", s("outdoors")),
        field("category_id", Json::Int(2)),
        field("category", s("Landscapes")),
        field("purity", s("sfw")),
        field("created_at", s("2015-01-01 00:00:00")),
    ]);
    let body = Json::Obj(vec![field("data", tag)]);
    let r = decode_response(CommandKind::TagInfo, &body).unwrap();
    match r {
        Decoded::Tag(t) => {
            assert_eq!(t.data.id, 5);
            assert_eq!(t.data.name, "nature");
            assert_eq!(t.data.category_id, 2);
        },
        _ => panic!("expected a tag payload"),
    }
}

#[test]
fn wallpaper_info_response_decodes() {
    let mut fields = match wallpaper_obj() {
        Json::Obj(f) => f,
        _ => unreachable!(),
    };
    fields.push(field(
        "uploader",
        Json::Obj(vec![
            field("username", s("dax")),
            field("group", s("User")),
            field(
                "avatar",
                Json::Obj(vec![
                    field("200px", s("https://wallhaven.cc/images/user/avatar/200/x.jpg")),
                    field("128px", s("https://wallhaven.cc/images/user/avatar/128/x.jpg")),
                    field("32px", s("https://wallhaven.cc/images/user/avatar/32/x.jpg")),
                    field("20px", s("https://wallhaven.cc/images/user/avatar/20/x.jpg")),
                ]),
            ),
        ]),
    ));
    fields.push(field(
        "tags",
        Json::Arr(vec![Json::Obj(vec![
            field("id", Json::Int(5)),
            field("name", s("nature")),
            field("alias", s("")),
            field("category_id", Json::Int(2)),
            field("category", s("Landscapes")),
            field("purity", s("sfw")),
            field("created_at", s("2015-01-01 00:00:00")),
        ])]),
    ));
    let body = Json::Obj(vec![field("data", Json::Obj(fields))]);
    let r = decode_response(CommandKind::WallpaperInfo, &body).unwrap();
    match r {
        Decoded::WallpaperInfo(w) => {
            assert_eq!(w.data.uploader.username, "dax");
            assert_eq!(w.data.uploader.avatar._32px, "https://wallhaven.cc/images/user/avatar/32/x.jpg");
            assert_eq!(w.data.tags.len(), 1);
            assert_eq!(w.data.tags[0].name, "nature");
        },
        _ => panic!("expected a wallpaper detail payload"),
    }
}

#[test]
fn user_settings_response_decodes() {
    let settings = Json::Obj(vec![
        field("thumb_size", s("orig")),
        field("per_page", s("24")),
        field("purity", Json::Arr(vec![s("sfw")])),
        field("categories", Json::Arr(vec![s("general"), s("anime")])),
        field("resolutions", Json::Arr(vec![])),
        field("aspect_ratios", Json::Arr(vec![s("16x9")])),
        field("toplist_range", s("1M")),
        field("tag_blacklist", Json::Arr(vec![])),
        field("user_blacklist", Json::Arr(vec![])),
    ]);
    let body = Json::Obj(vec![field("data", settings)]);
    let r = decode_response(CommandKind::UserSettings, &body).unwrap();
    match r {
        Decoded::UserSettings(u) => {
            assert_eq!(u.data.per_page, "24");
            assert_eq!(u.data.categories, vec!["general".to_string(), "anime".to_string()]);
            assert!(u.data.resolutions.is_empty());
        },
        _ => panic!("expected a settings payload"),
    }
}

#[test]
fn user_collections_response_decodes() {
    let body = Json::Obj(vec![field(
        "data",
        Json::Arr(vec![
            Json::Obj(vec![
                field("id", Json::Int(1)),
                field("label", s("Default")),
                field("views", Json::Int(0)),
                field("public", Json::Int(0)),
                field("count", Json::Int(12)),
            ]),
            Json::Obj(vec![
                field("id", Json::Int(2)),
                field("label", s("Nature")),
                field("views", Json::Int(9)),
                field("public", Json::Int(1)),
                field("count", Json::Int(3)),
            ]),
        ]),
    )]);
    let r = decode_response(CommandKind::UserCollections, &body).unwrap();
    match r {
        Decoded::UserCollections(c) => {
            assert_eq!(c.data.len(), 2);
            assert_eq!(c.data[1].label, "Nature");
            assert_eq!(c.data[1].count, 3);
        },
        _ => panic!("expected a collections payload"),
    }
}

#[test]
fn lenient_integer_lookup() {
    let j = Json::Obj(vec![
        field("a", Json::Int(7)),
        field("b", s("-12")),
        field("c", s("+3")),
        field("d", s("2147483648")),
        field("e", Json::Int(1) ),
    ]);
    assert_eq!(j.get_i32_lenient("a"), Some(7));
    assert_eq!(j.get_i32_lenient("b"), Some(-12));
    assert_eq!(j.get_i32_lenient("c"), Some(3));
    assert_eq!(j.get_i32_lenient("d"), None);
    assert_eq!(j.get_i32_lenient("missing"), None);
}

#[test]
fn lenient_integer_boundaries() {
    let j = Json::Obj(vec![
        field("min", s("-2147483648")),
        field("max", s("2147483647")),
        field("under", s("-2147483649")),
        field("big_int", Json::Int(2147483648)),
    ]);
    assert_eq!(j.get_i32_lenient("min"), Some(i32::MIN));
    assert_eq!(j.get_i32_lenient("max"), Some(i32::MAX));
    assert_eq!(j.get_i32_lenient("under"), None);
    assert_eq!(j.get_i32_lenient("big_int"), None);
}

#[test]
fn client_error_messages() {
    assert_eq!(
        WallhavenClientError::RequestError("timed out".to_string()).message(),
        "Request Error - timed out"
    );
    assert_eq!(
        WallhavenClientError::DecodeError("bad".to_string()).message(),
        "Decode Error - bad"
    );
    assert_eq!(
        WallhavenClientError::WriteError("disk".to_string()).message(),
        "Write Error - disk"
    );
}
