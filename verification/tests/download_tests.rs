use wallhaven_cli::model;
use wallhaven_cli::orchestrate::{command_kind_of, plan_downloads, url_file_name};
use wallhaven_cli::decode::CommandKind;
use wallhaven_cli::request::{CLICommands, UserSettingsArgs};
use wallhaven_cli::string_from_chars;
use wallhaven_cli::wallpaper::{Thumb, Wallpaper};

fn legacy_wallpaper(file_type: &str) -> Wallpaper {
    Wallpaper {
        id: "abc123".to_string(),
        url: "https://wallhaven.cc/w/abc123".to_string(),
        short_url: "https://whvn.cc/abc123".to_string(),
        views: 1,
        favorites: 0,
        source: "".to_string(),
        purity: "sfw".to_string(),
        category: "general".to_string(),
        dimension_x: 1920,
        dimension_y: 1080,
        resolution: "1920x1080".to_string(),
        ratio: "16x9".to_string(),
        file_size: 1,
        file_type: file_type.to_string(),
        created_at: "2020-01-01 00:00:00".to_string(),
        colors: vec![],
        path: "https://w.wallhaven.cc/full/ab/wallhaven-abc123.png".to_string(),
        thumbs: Thumb {
            large: "l".to_string(),
            original: "o".to_string(),
            small: "s".to_string(),
        },
    }
}

fn model_wallpaper(path: &str) -> model::Wallpaper {
    model::Wallpaper {
        id: "abc123".to_string(),
        url: "u".to_string(),
        short_url: "su".to_string(),
        views: 0,
        favorites: 0,
        source: "".to_string(),
        purity: "sfw".to_string(),
        category: "general".to_string(),
        dimension_x: 1,
        dimension_y: 1,
        resolution: "1x1".to_string(),
        ratio: "1x1".to_string(),
        file_size: 1,
        file_type: "image/jpeg".to_string(),
        created_at: "".to_string(),
        colors: vec![],
        path: path.to_string(),
        thumbs: model::Thumbs {
            large: "l".to_string(),
            original: "o".to_string(),
            small: "s".to_string(),
        },
    }
}

#[test]
fn savepath_uses_id_and_mime_extension() {
    let w = legacy_wallpaper("image/png");
    assert_eq!(w.get_savepath("/tmp/walls"), "/tmp/walls/abc123.png");
    let w = legacy_wallpaper("image/jpeg");
    assert_eq!(w.get_savepath("walls"), "walls/abc123.jpeg");
}

#[test]
fn wallpaper_url_is_the_download_path() {
    let w = legacy_wallpaper("image/png");
    assert_eq!(w.get_url(), "https://w.wallhaven.cc/full/ab/wallhaven-abc123.png");
}

#[test]
fn url_file_name_takes_the_trailing_segment() {
    assert_eq!(url_file_name("https://w.wallhaven.cc/full/ab/wallhaven-abc123.png"), "wallhaven-abc123.png");
    assert_eq!(url_file_name("nopath.png"), "nopath.png");
    assert_eq!(url_file_name("ends/with/"), "");
}

#[test]
fn downloads_follow_result_order() {
    let resp = model::SearchResponse {
        data: vec![
            model_wallpaper("https://w.wallhaven.cc/full/ab/wallhaven-one.png"),
            model_wallpaper("https://w.wallhaven.cc/full/cd/wallhaven-two.jpg"),
        ],
        meta: model::WallpaperMeta {
            current_page: 1,
            last_page: 1,
            per_page: 24,
            total: 2,
            query: model::MetaQuery::Query(None),
            seed: None,
        },
    };
    let plan = plan_downloads(&resp, "/tmp/walls");
    assert_eq!(plan.len(), 2);
    assert_eq!(plan[0].0, "https://w.wallhaven.cc/full/ab/wallhaven-one.png");
    assert_eq!(plan[0].1, "/tmp/walls/wallhaven-one.png");
    assert_eq!(plan[1].1, "/tmp/walls/wallhaven-two.jpg");
}

#[test]
fn command_kind_follows_the_command() {
    let cmd = CLICommands::UserSettings(UserSettingsArgs);
    assert_eq!(command_kind_of(&cmd), CommandKind::UserSettings);
}

#[test]
fn strings_are_rebuilt_from_their_characters() {
    assert_eq!(string_from_chars(&vec!['a', 'b', 'c']), "abc");
    assert_eq!(string_from_chars(&vec![]), "");
}
