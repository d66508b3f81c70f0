//! Typed representations of every payload the API returns.
//!
//! These are plain value objects, built only by the decoder and never
//! mutated afterwards.

use vstd::prelude::*;

verus! {

/// The three thumbnail variants of a wallpaper.
#[derive(Debug, Clone)]
pub struct Thumbs {
    pub large: String,
    pub original: String,
    pub small: String,
}

/// One wallpaper as listed in search results.
#[derive(Debug, Clone)]
pub struct Wallpaper {
    pub id: String,
    pub url: String,
    pub short_url: String,
    pub views: i32,
    pub favorites: i32,
    pub source: String,
    pub purity: String,
    pub category: String,
    pub dimension_x: i32,
    pub dimension_y: i32,
    pub resolution: String,
    pub ratio: String,
    pub file_size: i32,
    pub file_type: String,
    pub created_at: String,
    pub colors: Vec<String>,
    /// The direct download URL (a full URL, despite the name).
    pub path: String,
    pub thumbs: Thumbs,
}

/// The search-specific pagination metadata.
#[derive(Debug, Clone)]
pub struct WallpaperMeta {
    pub current_page: i32,
    pub last_page: i32,
    /// Accepted from the wire as a number or as a numeral string.
    pub per_page: i32,
    pub total: i32,
    pub query: MetaQuery,
    pub seed: Option<String>,
}

/// The query echo in search metadata: a plain optional string, or an
/// `{id, tag}` pair when the search was an id query.
#[derive(Debug, Clone)]
pub enum MetaQuery {
    Query(Option<String>),
    Querytag { id: i32, tag: Option<String> },
}

/// A page of search results.
#[derive(Debug, Clone)]
pub struct SearchResponse {
    pub data: Vec<Wallpaper>,
    pub meta: WallpaperMeta,
}

/// The detail payload of one wallpaper.
#[derive(Debug, Clone)]
pub struct WallpaperInfoResponse {
    pub data: WallpaperInfo,
}

/// One wallpaper with its uploader and tags.
#[derive(Debug, Clone)]
pub struct WallpaperInfo {
    pub id: String,
    pub url: String,
    pub short_url: String,
    pub uploader: Uploader,
    pub views: i32,
    pub favorites: i32,
    pub source: String,
    pub purity: String,
    pub category: String,
    pub dimension_x: i32,
    pub dimension_y: i32,
    pub resolution: String,
    pub ratio: String,
    pub file_size: i32,
    pub file_type: String,
    pub created_at: String,
    pub colors: Vec<String>,
    pub path: String,
    pub thumbs: Thumbs,
    pub tags: Vec<Tag>,
}

/// Who uploaded a wallpaper.
#[derive(Debug, Clone)]
pub struct Uploader {
    pub username: String,
    pub group: String,
    pub avatar: Avatar,
}

/// The four avatar sizes of an uploader, named by their pixel width.
#[derive(Debug, Clone)]
pub struct Avatar {
    pub _200px: String,
    pub _128px: String,
    pub _32px: String,
    pub _20px: String,
}

/// The detail payload of one tag.
#[derive(Debug, Clone)]
pub struct TagResponse {
    pub data: Tag,
}

/// One tag.
#[derive(Debug, Clone)]
pub struct Tag {
    pub id: i32,
    pub name: String,
    pub alias: String,
    pub category_id: i32,
    pub category: String,
    pub purity: String,
    pub created_at: String,
}

/// The account-settings payload.
#[derive(Debug, Clone)]
pub struct UserSettingsResponse {
    pub data: UserSettings,
}

/// An account's stored preferences.
#[derive(Debug, Clone)]
pub struct UserSettings {
    pub thumb_size: String,
    pub per_page: String,
    pub purity: Vec<String>,
    pub categories: Vec<String>,
    pub resolutions: Vec<String>,
    pub aspect_ratios: Vec<String>,
    pub toplist_range: String,
    pub tag_blacklist: Vec<String>,
    pub user_blacklist: Vec<String>,
}

/// The collections payload.
#[derive(Debug, Clone)]
pub struct UserCollectionsResponse {
    pub data: Vec<UserCollections>,
}

/// One collection of an account.
#[derive(Debug, Clone)]
pub struct UserCollections {
    pub id: i32,
    pub label: String,
    pub views: i32,
    pub public: i32,
    pub count: i32,
}

/// A well-formed error body from the service: a successful decode of a
/// failure payload, not a decode failure.
#[derive(Debug, Clone)]
pub struct ErrorResponse {
    pub error: String,
}

/// What can go wrong between issuing a request and holding a typed
/// response.
#[derive(Debug)]
pub enum WallhavenClientError {
    /// The transport failed; nothing was decoded.
    RequestError(String),
    /// The body matched neither the error shape nor the expected shape.
    DecodeError(String),
    /// A downloaded file could not be written.
    WriteError(String),
}

impl WallhavenClientError {
    /// A human-readable account of the error, as the command line prints it.
    pub fn message(&self) -> (m: String)
        ensures
            (self matches WallhavenClientError::RequestError(e) ==> m@ == "Request Error - "@
                + e@),
            (self matches WallhavenClientError::DecodeError(e) ==> m@ == "Decode Error - "@ + e@),
            (self matches WallhavenClientError::WriteError(e) ==> m@ == "Write Error - "@ + e@),
    {
        match self {
            WallhavenClientError::RequestError(e) => String::from_str("Request Error - ").concat(
                e.as_str(),
            ),
            WallhavenClientError::DecodeError(e) => String::from_str("Decode Error - ").concat(
                e.as_str(),
            ),
            WallhavenClientError::WriteError(e) => String::from_str("Write Error - ").concat(
                e.as_str(),
            ),
        }
    }
}

} // verus!
