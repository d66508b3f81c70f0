use wallhaven_cli::prefs::{
    credential_valid, normalize_credential, resolve, CategoryMask, Notice, Order, OverrideFlags,
    PurityMask, SearchPreferences, Seed, Sorting, TopRange,
};

fn plain_prefs() -> SearchPreferences {
    SearchPreferences {
        categories: Some(CategoryMask { general: true, anime: true, people: true }),
        purity: Some(PurityMask { sfw: true, sketchy: false, nsfw: false }),
        sorting: None,
        order: None,
        top_range: None,
        at_least: None,
        resolutions: None,
        ratios: None,
        page: None,
        seed: None,
    }
}

#[test]
fn credential_validity_rules() {
    assert!(credential_valid("abcDEF123"));
    assert!(!credential_valid(""));
    assert!(!credential_valid("with space"));
    assert!(!credential_valid("k-ey"));
}

#[test]
fn invalid_credential_reads_as_absent() {
    assert_eq!(normalize_credential(Some("abc123".to_string())), Some("abc123".to_string()));
    assert_eq!(normalize_credential(Some("bad key!".to_string())), None);
    assert_eq!(normalize_credential(None), None);
}

#[test]
fn seed_accepts_six_alphanumerics() {
    let s = Seed::parse("aB3x9Z").unwrap();
    assert_eq!(s.0, "aB3x9Z");
}

#[test]
fn seed_rejects_other_shapes() {
    let e = Seed::parse("abc").unwrap_err();
    assert_eq!(e, "abc is an invalid seed");
    assert!(Seed::parse("abc12!").is_err());
    assert!(Seed::parse("abcd123").is_err());
}

#[test]
fn masks_parse_and_serialize() {
    let c = CategoryMask::parse("110").unwrap();
    assert!(c.general && c.anime && !c.people);
    assert_eq!(c.to_wire(), "110");
    assert!(CategoryMask::parse("12x").is_none());
    assert!(CategoryMask::parse("11").is_none());
    let p = PurityMask::parse("100").unwrap();
    assert!(p.sfw && !p.sketchy && !p.nsfw);
    assert_eq!(p.to_wire(), "100");
}

#[test]
fn present_credential_defers_to_account_defaults() {
    let mut prefs = plain_prefs();
    prefs.top_range = Some(TopRange::OneMonth);
    prefs.sorting = Some(Sorting::Toplist);
    prefs.resolutions = Some("1920x1080".to_string());
    prefs.ratios = Some("16x9".to_string());
    let cred = Some("abc123".to_string());
    let (res, notices) = resolve(&prefs, &cred, &OverrideFlags::default());
    assert_eq!(res.credential.as_deref(), Some("abc123"));
    assert!(res.categories.is_none());
    assert!(res.purity.is_none());
    assert!(res.resolutions.is_none());
    assert!(res.ratios.is_none());
    assert!(res.top_range.is_none());
    assert!(notices.is_empty());
}

#[test]
fn ignored_credential_is_not_attached() {
    let prefs = plain_prefs();
    let cred = Some("abc123".to_string());
    let flags = OverrideFlags { ignore_credential: true, override_preferences: false };
    let (res, notices) = resolve(&prefs, &cred, &flags);
    assert!(res.credential.is_none());
    assert!(res.categories.is_some());
    assert!(res.purity.is_some());
    assert_eq!(notices, vec![Notice::CredentialIgnored]);
}

#[test]
fn override_keeps_credential_but_sends_preferences() {
    let prefs = plain_prefs();
    let cred = Some("abc123".to_string());
    let flags = OverrideFlags { ignore_credential: false, override_preferences: true };
    let (res, notices) = resolve(&prefs, &cred, &flags);
    assert_eq!(res.credential.as_deref(), Some("abc123"));
    assert!(res.categories.is_some());
    assert_eq!(notices, vec![Notice::PreferencesOverridden]);
}

#[test]
fn missing_credential_uses_local_preferences() {
    let prefs = plain_prefs();
    let (res, notices) = resolve(&prefs, &None, &OverrideFlags::default());
    assert!(res.credential.is_none());
    assert!(res.categories.is_some());
    assert_eq!(res.page, 1);
    assert_eq!(res.order, Order::Desc);
    assert_eq!(res.sorting, Sorting::DateAdded);
    assert_eq!(notices, vec![Notice::CredentialMissing]);
}

#[test]
fn top_range_survives_only_toplist_sorting() {
    let mut prefs = plain_prefs();
    prefs.top_range = Some(TopRange::OneMonth);
    prefs.sorting = Some(Sorting::Relevance);
    let (res, _) = resolve(&prefs, &None, &OverrideFlags::default());
    assert!(res.top_range.is_none());

    prefs.sorting = Some(Sorting::Toplist);
    let (res, _) = resolve(&prefs, &None, &OverrideFlags::default());
    assert_eq!(res.top_range, Some(TopRange::OneMonth));
}

#[test]
fn resolutions_and_ratios_are_lowercased() {
    let mut prefs = plain_prefs();
    prefs.resolutions = Some("1920X1080,2560X1440".to_string());
    prefs.ratios = Some("16X9".to_string());
    prefs.at_least = Some("1280X720".to_string());
    let (res, _) = resolve(&prefs, &None, &OverrideFlags::default());
    assert_eq!(res.resolutions.as_deref(), Some("1920x1080,2560x1440"));
    assert_eq!(res.ratios.as_deref(), Some("16x9"));
    assert_eq!(res.at_least.as_deref(), Some("1280x720"));
}

#[test]
fn notice_messages() {
    assert_eq!(
        Notice::CredentialMissing.message(),
        "api key missing or invalid - using local preferences"
    );
    assert_eq!(Notice::CredentialIgnored.message(), "api key ignored");
    assert_eq!(Notice::PreferencesOverridden.message(), "account preferences overridden");
}
