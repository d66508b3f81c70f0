use wallhaven_cli::prefs::{
    resolve, CategoryMask, OverrideFlags, PurityMask, Seed, Sorting, TopRange,
};
use wallhaven_cli::query::SearchQuery;
use wallhaven_cli::request::{
    valid_color, valid_wallpaper_id, CLICommands, SearchArgs, TagInfoArgs, UserCollectionsArgs,
    UserSettingsArgs, WallpaperInfoArgs, BASE_URL,
};

fn search_args() -> SearchArgs {
    SearchArgs {
        path: None,
        query: None,
        categories: None,
        purity: None,
        sorting: None,
        order: None,
        toprange: None,
        atleast: None,
        resolutions: None,
        ratios: None,
        colors: None,
        page: None,
        seed: None,
    }
}

fn build(args: &SearchArgs, credential: Option<&str>, flags: OverrideFlags) -> String {
    let cred = credential.map(|c| c.to_string());
    let (resolved, _) = resolve(&args.preferences(), &cred, &flags);
    args.to_url(BASE_URL, &resolved)
}

#[test]
fn search_url_has_fixed_parameter_order() {
    let mut args = search_args();
    args.query = Some(SearchQuery::parse("+landscape -city").unwrap());
    args.categories = Some(CategoryMask { general: true, anime: true, people: true });
    args.purity = Some(PurityMask { sfw: true, sketchy: false, nsfw: false });
    args.sorting = Some(Sorting::DateAdded);
    args.page = Some(1);
    let url = build(&args, None, OverrideFlags::default());
    assert_eq!(
        url,
        "https://wallhaven.cc/api/v1/search?categories=111&purity=100&page=1&order=desc&sorting=date_added&q=%2Blandscape+-city"
    );
}

#[test]
fn top_range_is_omitted_without_toplist_sorting() {
    let mut args = search_args();
    args.query = Some(SearchQuery::parse("city").unwrap());
    args.sorting = Some(Sorting::Relevance);
    args.toprange = Some(TopRange::OneMonth);
    let url = build(&args, None, OverrideFlags::default());
    assert!(!url.contains("topRange"));
    assert!(url.contains("sorting=relevance"));
}

#[test]
fn top_range_is_emitted_under_toplist_sorting() {
    let mut args = search_args();
    args.query = Some(SearchQuery::parse("city").unwrap());
    args.sorting = Some(Sorting::Toplist);
    args.toprange = Some(TopRange::OneMonth);
    let url = build(&args, None, OverrideFlags::default());
    assert!(url.contains("&topRange=1m"));
    assert!(url.contains("sorting=toplist"));
}

#[test]
fn colors_win_over_query() {
    let mut args = search_args();
    args.query = Some(SearchQuery::parse("city").unwrap());
    args.colors = Some("0066cc".to_string());
    let url = build(&args, None, OverrideFlags::default());
    assert!(url.ends_with("&colors=0066cc"));
    assert!(!url.contains("q="));
}

#[test]
fn credential_leads_the_parameters() {
    let mut args = search_args();
    args.query = Some(SearchQuery::parse("city").unwrap());
    let url = build(&args, Some("abc123"), OverrideFlags::default());
    assert!(url.starts_with("https://wallhaven.cc/api/v1/search?apikey=abc123&"));
}

#[test]
fn ignored_credential_never_reaches_the_wire() {
    let mut args = search_args();
    args.query = Some(SearchQuery::parse("city").unwrap());
    args.categories = Some(CategoryMask { general: true, anime: false, people: false });
    let flags = OverrideFlags { ignore_credential: true, override_preferences: false };
    let url = build(&args, Some("abc123"), flags);
    assert!(!url.contains("apikey"));
    assert!(url.contains("categories=100"));
}

#[test]
fn id_query_is_serialized_alone() {
    let mut args = search_args();
    args.query = Some(SearchQuery::parse("city id:123").unwrap());
    let url = build(&args, None, OverrideFlags::default());
    assert!(url.ends_with("&q=id%3A123"));
}

#[test]
fn full_query_round_trips_to_the_wire() {
    let mut args = search_args();
    args.query = Some(SearchQuery::parse("anime +city type:png @dax like:abc123").unwrap());
    let url = build(&args, None, OverrideFlags::default());
    assert!(url.ends_with("&q=anime+%2Bcity+%40dax+type%3Apng+like%3Aabc123"));
}

#[test]
fn seed_and_resolutions_are_emitted_in_place() {
    let mut args = search_args();
    args.query = Some(SearchQuery::parse("city").unwrap());
    args.seed = Some(Seed::parse("aB3x9Z").unwrap());
    args.resolutions = Some("1920X1080".to_string());
    args.atleast = Some("1280x720".to_string());
    let url = build(&args, None, OverrideFlags::default());
    assert!(url.contains("&seed=aB3x9Z&order="));
    assert!(url.contains("&atleast=1280x720&resolutions=1920x1080&q="));
}

#[test]
fn wallpaper_info_url() {
    let args = WallpaperInfoArgs { id: "abc123".to_string() };
    assert_eq!(args.to_url(BASE_URL), "https://wallhaven.cc/api/v1/w/abc123");
}

#[test]
fn tag_info_url() {
    let args = TagInfoArgs { id: 42 };
    assert_eq!(args.to_url(BASE_URL), "https://wallhaven.cc/api/v1/tag/42");
    let args = TagInfoArgs { id: -5 };
    assert_eq!(args.to_url(BASE_URL), "https://wallhaven.cc/api/v1/tag/-5");
}

#[test]
fn settings_and_collections_urls() {
    assert_eq!(UserSettingsArgs.to_url(BASE_URL), "https://wallhaven.cc/api/v1/settings");
    let own = UserCollectionsArgs { username: None };
    assert_eq!(own.to_url(BASE_URL), "https://wallhaven.cc/api/v1/collections");
    let named = UserCollectionsArgs { username: Some("dax".to_string()) };
    assert_eq!(named.to_url(BASE_URL), "https://wallhaven.cc/api/v1/collections/dax");
}

#[test]
fn command_url_dispatches_by_command() {
    let (resolved, _) = resolve(
        &search_args().preferences(),
        &None,
        &OverrideFlags::default(),
    );
    let cmd = CLICommands::TagInfo(TagInfoArgs { id: 7 });
    let url = wallhaven_cli::request::command_url(&cmd, BASE_URL, &resolved);
    assert_eq!(url, "https://wallhaven.cc/api/v1/tag/7");
}

#[test]
fn colors_accept_six_hex_digits() {
    assert_eq!(valid_color("0066cc").unwrap(), "0066cc");
    assert_eq!(valid_color("#333393").unwrap(), "333393");
}

#[test]
fn colors_reject_other_shapes() {
    assert_eq!(valid_color("12345").unwrap_err(), "12345 is not a valid hex color");
    assert!(valid_color("zzzzzz").is_err());
    assert!(valid_color("#12345z").is_err());
}

#[test]
fn wallpaper_ids_are_six_alphanumerics() {
    assert_eq!(valid_wallpaper_id("abc123").unwrap(), "abc123");
    assert_eq!(valid_wallpaper_id("abc12").unwrap_err(), "abc12 is not a valid wallpaper id");
    assert!(valid_wallpaper_id("abc12!").is_err());
}
