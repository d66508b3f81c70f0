//! The decoding policy for API responses.
//!
//! A body is first probed for the error shape — an object with an `error`
//! string — which is a successful decode of a failure payload and wins
//! over everything else.  Only then is the shape expected for the issued
//! command tried; failing both is a decode error.  Unknown fields are
//! ignored everywhere, and `per_page` is accepted as a number or as a
//! numeral string.

use vstd::prelude::*;

use crate::json::{
    decode_str_array, spec_get, spec_get_i32, spec_get_i32_lenient, spec_get_str, spec_str_arr,
    Json,
};
use crate::model::{
    Avatar, ErrorResponse, MetaQuery, SearchResponse, Tag, TagResponse, Thumbs, Uploader,
    UserCollections, UserCollectionsResponse, UserSettings, UserSettingsResponse, Wallpaper,
    WallhavenClientError, WallpaperInfo, WallpaperInfoResponse, WallpaperMeta,
};
use crate::strutil::opt_str_view;

verus! {

/// The error shape: an object carrying an `error` string, whatever else
/// stands beside it.
pub open spec fn spec_error_ok(j: Json) -> bool {
    spec_get_str(j, "error"@) is Some
}

pub open spec fn error_matches(e: ErrorResponse, j: Json) -> bool {
    Option::Some(e.error@) == spec_get_str(j, "error"@)
}

/// Probes a body for the error shape.
pub fn decode_error(j: &Json) -> (r: Option<ErrorResponse>)
    ensures
        r is Some <==> spec_error_ok(*j),
        r matches Some(e) ==> error_matches(e, *j),
{
    match j.get_str("error") {
        Option::Some(s) => Option::Some(ErrorResponse { error: s.clone() }),
        Option::None => Option::None,
    }
}

pub open spec fn spec_thumbs_ok(j: Json) -> bool {
    &&& spec_get_str(j, "large"@) is Some
    &&& spec_get_str(j, "original"@) is Some
    &&& spec_get_str(j, "small"@) is Some
}

pub open spec fn thumbs_matches(t: Thumbs, j: Json) -> bool {
    &&& Option::Some(t.large@) == spec_get_str(j, "large"@)
    &&& Option::Some(t.original@) == spec_get_str(j, "original"@)
    &&& Option::Some(t.small@) == spec_get_str(j, "small"@)
}

fn decode_thumbs(j: &Json) -> (r: Option<Thumbs>)
    ensures
        r is Some <==> spec_thumbs_ok(*j),
        r matches Some(t) ==> thumbs_matches(t, *j),
{
    let large = match j.get_str("large") {
        Option::Some(s) => s.clone(),
        Option::None => {
            return Option::None;
        },
    };
    let original = match j.get_str("original") {
        Option::Some(s) => s.clone(),
        Option::None => {
            return Option::None;
        },
    };
    let small = match j.get_str("small") {
        Option::Some(s) => s.clone(),
        Option::None => {
            return Option::None;
        },
    };
    Option::Some(Thumbs { large, original, small })
}

pub open spec fn spec_wallpaper_ok(j: Json) -> bool {
    &&& spec_get_str(j, "id"@) is Some
    &&& spec_get_str(j, "url"@) is Some
    &&& spec_get_str(j, "short_url"@) is Some
    &&& spec_get_i32(j, "views"@) is Some
    &&& spec_get_i32(j, "favorites"@) is Some
    &&& spec_get_str(j, "source"@) is Some
    &&& spec_get_str(j, "purity"@) is Some
    &&& spec_get_str(j, "category"@) is Some
    &&& spec_get_i32(j, "dimension_x"@) is Some
    &&& spec_get_i32(j, "dimension_y"@) is Some
    &&& spec_get_str(j, "resolution"@) is Some
    &&& spec_get_str(j, "ratio"@) is Some
    &&& spec_get_i32(j, "file_size"@) is Some
    &&& spec_get_str(j, "file_type"@) is Some
    &&& spec_get_str(j, "created_at"@) is Some
    &&& (match spec_get(j, "colors"@) {
        Option::Some(c) => spec_str_arr(c) is Some,
        Option::None => false,
    })
    &&& spec_get_str(j, "path"@) is Some
    &&& (match spec_get(j, "thumbs"@) {
        Option::Some(t) => spec_thumbs_ok(t),
        Option::None => false,
    })
}

pub open spec fn wallpaper_matches(w: Wallpaper, j: Json) -> bool {
    &&& Option::Some(w.id@) == spec_get_str(j, "id"@)
    &&& Option::Some(w.url@) == spec_get_str(j, "url"@)
    &&& Option::Some(w.short_url@) == spec_get_str(j, "short_url"@)
    &&& Option::Some(w.views as int) == spec_get_i32(j, "views"@)
    &&& Option::Some(w.favorites as int) == spec_get_i32(j, "favorites"@)
    &&& Option::Some(w.source@) == spec_get_str(j, "source"@)
    &&& Option::Some(w.purity@) == spec_get_str(j, "purity"@)
    &&& Option::Some(w.category@) == spec_get_str(j, "category"@)
    &&& Option::Some(w.dimension_x as int) == spec_get_i32(j, "dimension_x"@)
    &&& Option::Some(w.dimension_y as int) == spec_get_i32(j, "dimension_y"@)
    &&& Option::Some(w.resolution@) == spec_get_str(j, "resolution"@)
    &&& Option::Some(w.ratio@) == spec_get_str(j, "ratio"@)
    &&& Option::Some(w.file_size as int) == spec_get_i32(j, "file_size"@)
    &&& Option::Some(w.file_type@) == spec_get_str(j, "file_type"@)
    &&& Option::Some(w.created_at@) == spec_get_str(j, "created_at"@)
    &&& Option::Some(w.colors.deep_view()) == spec_str_arr(spec_get(j, "colors"@)->0)
    &&& Option::Some(w.path@) == spec_get_str(j, "path"@)
    &&& thumbs_matches(w.thumbs, spec_get(j, "thumbs"@)->0)
}

fn decode_wallpaper(j: &Json) -> (r: Option<Wallpaper>)
    ensures
        r is Some <==> spec_wallpaper_ok(*j),
        r matches Some(w) ==> wallpaper_matches(w, *j),
{
    let id = match j.get_str("id") {
        Option::Some(s) => s.clone(),
        Option::None => {
            return Option::None;
        },
    };
    let url = match j.get_str("url") {
        Option::Some(s) => s.clone(),
        Option::None => {
            return Option::None;
        },
    };
    let short_url = match j.get_str("short_url") {
        Option::Some(s) => s.clone(),
        Option::None => {
            return Option::None;
        },
    };
    let views = match j.get_i32("views") {
        Option::Some(n) => n,
        Option::None => {
            return Option::None;
        },
    };
    let favorites = match j.get_i32("favorites") {
        Option::Some(n) => n,
        Option::None => {
            return Option::None;
        },
    };
    let source = match j.get_str("source") {
        Option::Some(s) => s.clone(),
        Option::None => {
            return Option::None;
        },
    };
    let purity = match j.get_str("purity") {
        Option::Some(s) => s.clone(),
        Option::None => {
            return Option::None;
        },
    };
    let category = match j.get_str("category") {
        Option::Some(s) => s.clone(),
        Option::None => {
            return Option::None;
        },
    };
    let dimension_x = match j.get_i32("dimension_x") {
        Option::Some(n) => n,
        Option::None => {
            return Option::None;
        },
    };
    let dimension_y = match j.get_i32("dimension_y") {
        Option::Some(n) => n,
        Option::None => {
            return Option::None;
        },
    };
    let resolution = match j.get_str("resolution") {
        Option::Some(s) => s.clone(),
        Option::None => {
            return Option::None;
        },
    };
    let ratio = match j.get_str("ratio") {
        Option::Some(s) => s.clone(),
        Option::None => {
            return Option::None;
        },
    };
    let file_size = match j.get_i32("file_size") {
        Option::Some(n) => n,
        Option::None => {
            return Option::None;
        },
    };
    let file_type = match j.get_str("file_type") {
        Option::Some(s) => s.clone(),
        Option::None => {
            return Option::None;
        },
    };
    let created_at = match j.get_str("created_at") {
        Option::Some(s) => s.clone(),
        Option::None => {
            return Option::None;
        },
    };
    let colors = match j.get("colors") {
        Option::Some(c) => match decode_str_array(c) {
            Option::Some(v) => v,
            Option::None => {
                return Option::None;
            },
        },
        Option::None => {
            return Option::None;
        },
    };
    let path = match j.get_str("path") {
        Option::Some(s) => s.clone(),
        Option::None => {
            return Option::None;
        },
    };
    let thumbs = match j.get("thumbs") {
        Option::Some(t) => match decode_thumbs(t) {
            Option::Some(v) => v,
            Option::None => {
                return Option::None;
            },
        },
        Option::None => {
            return Option::None;
        },
    };
    Option::Some(
        Wallpaper {
            id,
            url,
            short_url,
            views,
            favorites,
            source,
            purity,
            category,
            dimension_x,
            dimension_y,
            resolution,
            ratio,
            file_size,
            file_type,
            created_at,
            colors,
            path,
            thumbs,
        },
    )
}

/// An optional string field: missing or null count as absent, a string is
/// present, and anything else does not fit.
pub open spec fn spec_opt_str_field(j: Json, key: Seq<char>) -> Option<Option<Seq<char>>> {
    match spec_get(j, key) {
        Option::None => Option::Some(Option::<Seq<char>>::None),
        Option::Some(Json::Null) => Option::Some(Option::<Seq<char>>::None),
        Option::Some(Json::Str(s)) => Option::Some(Option::Some(s@)),
        Option::Some(_) => Option::None,
    }
}

fn get_opt_str(j: &Json, key: &str) -> (r: Option<Option<String>>)
    ensures
        match r {
            Option::Some(v) => spec_opt_str_field(*j, key@) == Option::Some(opt_str_view(v)),
            Option::None => spec_opt_str_field(*j, key@) is None,
        },
{
    match j.get(key) {
        Option::None => Option::Some(Option::None),
        Option::Some(v) => match v {
            Json::Null => Option::Some(Option::None),
            Json::Str(s) => Option::Some(Option::Some(s.clone())),
            _ => Option::None,
        },
    }
}

/// The structured shape of the query echo: an object with an integer
/// `id` and an optional string `tag`.
pub open spec fn spec_querytag_ok(j: Json) -> bool {
    &&& spec_get_i32(j, "id"@) is Some
    &&& spec_opt_str_field(j, "tag"@) is Some
}

/// The query echo: the structured shape is tried first, then a plain
/// optional string (null or a string).
pub open spec fn spec_metaquery_ok(j: Json) -> bool {
    spec_querytag_ok(j) || j is Null || j is Str
}

pub open spec fn metaquery_matches(m: MetaQuery, j: Json) -> bool {
    if spec_querytag_ok(j) {
        &&& m matches MetaQuery::Querytag { id, tag } && Option::Some(id as int) == spec_get_i32(
            j,
            "id"@,
        ) && Option::Some(opt_str_view(tag)) == spec_opt_str_field(j, "tag"@)
    } else if j is Null {
        m == MetaQuery::Query(Option::<String>::None)
    } else {
        m matches MetaQuery::Query(s) && opt_str_view(s) == Option::Some(j->Str_0@)
    }
}

fn decode_metaquery(j: &Json) -> (r: Option<MetaQuery>)
    ensures
        r is Some <==> spec_metaquery_ok(*j),
        r matches Some(m) ==> metaquery_matches(m, *j),
{
    match j.get_i32("id") {
        Option::Some(idv) => {
            match get_opt_str(j, "tag") {
                Option::Some(tag) => Option::Some(MetaQuery::Querytag { id: idv, tag }),
                Option::None => Option::None,
            }
        },
        Option::None => {
            match j {
                Json::Null => Option::Some(MetaQuery::Query(Option::None)),
                Json::Str(s) => Option::Some(MetaQuery::Query(Option::Some(s.clone()))),
                _ => Option::None,
            }
        },
    }
}

pub open spec fn spec_meta_ok(j: Json) -> bool {
    &&& spec_get_i32(j, "current_page"@) is Some
    &&& spec_get_i32(j, "last_page"@) is Some
    &&& spec_get_i32_lenient(j, "per_page"@) is Some
    &&& spec_get_i32(j, "total"@) is Some
    &&& (match spec_get(j, "query"@) {
        Option::Some(q) => spec_metaquery_ok(q),
        Option::None => false,
    })
    &&& spec_opt_str_field(j, "seed"@) is Some
}

pub open spec fn meta_matches(m: WallpaperMeta, j: Json) -> bool {
    &&& Option::Some(m.current_page as int) == spec_get_i32(j, "current_page"@)
    &&& Option::Some(m.last_page as int) == spec_get_i32(j, "last_page"@)
    &&& Option::Some(m.per_page as int) == spec_get_i32_lenient(j, "per_page"@)
    &&& Option::Some(m.total as int) == spec_get_i32(j, "total"@)
    &&& metaquery_matches(m.query, spec_get(j, "query"@)->0)
    &&& Option::Some(opt_str_view(m.seed)) == spec_opt_str_field(j, "seed"@)
}

fn decode_meta(j: &Json) -> (r: Option<WallpaperMeta>)
    ensures
        r is Some <==> spec_meta_ok(*j),
        r matches Some(m) ==> meta_matches(m, *j),
{
    let current_page = match j.get_i32("current_page") {
        Option::Some(n) => n,
        Option::None => {
            return Option::None;
        },
    };
    let last_page = match j.get_i32("last_page") {
        Option::Some(n) => n,
        Option::None => {
            return Option::None;
        },
    };
    let per_page = match j.get_i32_lenient("per_page") {
        Option::Some(n) => n,
        Option::None => {
            return Option::None;
        },
    };
    let total = match j.get_i32("total") {
        Option::Some(n) => n,
        Option::None => {
            return Option::None;
        },
    };
    let query = match j.get("query") {
        Option::Some(q) => match decode_metaquery(q) {
            Option::Some(m) => m,
            Option::None => {
                return Option::None;
            },
        },
        Option::None => {
            return Option::None;
        },
    };
    let seed = match get_opt_str(j, "seed") {
        Option::Some(s) => s,
        Option::None => {
            return Option::None;
        },
    };
    Option::Some(WallpaperMeta { current_page, last_page, per_page, total, query, seed })
}

pub open spec fn spec_wallpaper_arr_ok(es: Seq<Json>) -> bool {
    forall|i: int| 0 <= i < es.len() ==> spec_wallpaper_ok(es[i])
}

/// The search-result shape: a `data` array of wallpapers and a `meta`
/// object.
pub open spec fn spec_search_ok(j: Json) -> bool {
    &&& (match spec_get(j, "data"@) {
        Option::Some(Json::Arr(es)) => spec_wallpaper_arr_ok(es@),
        _ => false,
    })
    &&& (match spec_get(j, "meta"@) {
        Option::Some(m) => spec_meta_ok(m),
        Option::None => false,
    })
}

pub open spec fn search_matches(r: SearchResponse, j: Json) -> bool {
    &&& (match spec_get(j, "data"@) {
        Option::Some(Json::Arr(es)) => r.data@.len() == es@.len() && (forall|i: int|
            0 <= i < es@.len() ==> wallpaper_matches(r.data@[i], es@[i])),
        _ => false,
    })
    &&& meta_matches(r.meta, spec_get(j, "meta"@)->0)
}

/// Decodes a page of search results.
pub fn decode_search(j: &Json) -> (r: Option<SearchResponse>)
    ensures
        r is Some <==> spec_search_ok(*j),
        r matches Some(s) ==> search_matches(s, *j),
{
    let data = match j.get("data") {
        Option::Some(d) => match d {
            Json::Arr(es) => {
                let mut out: Vec<Wallpaper> = Vec::new();
                let n = es.len();
                let mut i: usize = 0;
                while i < n
                    invariant
                        spec_get(*j, "data"@) == Option::Some(Json::Arr(*es)),
                        n == es@.len(),
                        i <= n,
                        out@.len() == i,
                        forall|k: int| 0 <= k < i ==> spec_wallpaper_ok(es@[k]),
                        forall|k: int| 0 <= k < i ==> wallpaper_matches(out@[k], es@[k]),
                    decreases n - i,
                {
                    match decode_wallpaper(&es[i]) {
                        Option::Some(w) => {
                            out.push(w);
                        },
                        Option::None => {
                            return Option::None;
                        },
                    }
                    i = i + 1;
                }
                out
            },
            _ => {
                return Option::None;
            },
        },
        Option::None => {
            return Option::None;
        },
    };
    let meta = match j.get("meta") {
        Option::Some(m) => match decode_meta(m) {
            Option::Some(v) => v,
            Option::None => {
                return Option::None;
            },
        },
        Option::None => {
            return Option::None;
        },
    };
    Option::Some(SearchResponse { data, meta })
}

pub open spec fn spec_tag_ok(j: Json) -> bool {
    &&& spec_get_i32(j, "id"@) is Some
    &&& spec_get_str(j, "name"@) is Some
    &&& spec_get_str(j, "alias"@) is Some
    &&& spec_get_i32(j, "category_id"@) is Some
    &&& spec_get_str(j, "category"@) is Some
    &&& spec_get_str(j, "purity"@) is Some
    &&& spec_get_str(j, "created_at"@) is Some
}

pub open spec fn tag_matches(t: Tag, j: Json) -> bool {
    &&& Option::Some(t.id as int) == spec_get_i32(j, "id"@)
    &&& Option::Some(t.name@) == spec_get_str(j, "name"@)
    &&& Option::Some(t.alias@) == spec_get_str(j, "alias"@)
    &&& Option::Some(t.category_id as int) == spec_get_i32(j, "category_id"@)
    &&& Option::Some(t.category@) == spec_get_str(j, "category"@)
    &&& Option::Some(t.purity@) == spec_get_str(j, "purity"@)
    &&& Option::Some(t.created_at@) == spec_get_str(j, "created_at"@)
}

fn decode_tag(j: &Json) -> (r: Option<Tag>)
    ensures
        r is Some <==> spec_tag_ok(*j),
        r matches Some(t) ==> tag_matches(t, *j),
{
    let id = match j.get_i32("id") {
        Option::Some(n) => n,
        Option::None => {
            return Option::None;
        },
    };
    let name = match j.get_str("name") {
        Option::Some(s) => s.clone(),
        Option::None => {
            return Option::None;
        },
    };
    let alias = match j.get_str("alias") {
        Option::Some(s) => s.clone(),
        Option::None => {
            return Option::None;
        },
    };
    let category_id = match j.get_i32("category_id") {
        Option::Some(n) => n,
        Option::None => {
            return Option::None;
        },
    };
    let category = match j.get_str("category") {
        Option::Some(s) => s.clone(),
        Option::None => {
            return Option::None;
        },
    };
    let purity = match j.get_str("purity") {
        Option::Some(s) => s.clone(),
        Option::None => {
            return Option::None;
        },
    };
    let created_at = match j.get_str("created_at") {
        Option::Some(s) => s.clone(),
        Option::None => {
            return Option::None;
        },
    };
    Option::Some(Tag { id, name, alias, category_id, category, purity, created_at })
}

pub open spec fn spec_avatar_ok(j: Json) -> bool {
    &&& spec_get_str(j, "200px"@) is Some
    &&& spec_get_str(j, "128px"@) is Some
    &&& spec_get_str(j, "32px"@) is Some
    &&& spec_get_str(j, "20px"@) is Some
}

pub open spec fn avatar_matches(a: Avatar, j: Json) -> bool {
    &&& Option::Some(a._200px@) == spec_get_str(j, "200px"@)
    &&& Option::Some(a._128px@) == spec_get_str(j, "128px"@)
    &&& Option::Some(a._32px@) == spec_get_str(j, "32px"@)
    &&& Option::Some(a._20px@) == spec_get_str(j, "20px"@)
}

fn decode_avatar(j: &Json) -> (r: Option<Avatar>)
    ensures
        r is Some <==> spec_avatar_ok(*j),
        r matches Some(a) ==> avatar_matches(a, *j),
{
    let px200 = match j.get_str("200px") {
        Option::Some(s) => s.clone(),
        Option::None => {
            return Option::None;
        },
    };
    let px128 = match j.get_str("128px") {
        Option::Some(s) => s.clone(),
        Option::None => {
            return Option::None;
        },
    };
    let px32 = match j.get_str("32px") {
        Option::Some(s) => s.clone(),
        Option::None => {
            return Option::None;
        },
    };
    let px20 = match j.get_str("20px") {
        Option::Some(s) => s.clone(),
        Option::None => {
            return Option::None;
        },
    };
    Option::Some(Avatar { _200px: px200, _128px: px128, _32px: px32, _20px: px20 })
}

pub open spec fn spec_uploader_ok(j: Json) -> bool {
    &&& spec_get_str(j, "username"@) is Some
    &&& spec_get_str(j, "group"@) is Some
    &&& (match spec_get(j, "avatar"@) {
        Option::Some(a) => spec_avatar_ok(a),
        Option::None => false,
    })
}

pub open spec fn uploader_matches(u: Uploader, j: Json) -> bool {
    &&& Option::Some(u.username@) == spec_get_str(j, "username"@)
    &&& Option::Some(u.group@) == spec_get_str(j, "group"@)
    &&& avatar_matches(u.avatar, spec_get(j, "avatar"@)->0)
}

fn decode_uploader(j: &Json) -> (r: Option<Uploader>)
    ensures
        r is Some <==> spec_uploader_ok(*j),
        r matches Some(u) ==> uploader_matches(u, *j),
{
    let username = match j.get_str("username") {
        Option::Some(s) => s.clone(),
        Option::None => {
            return Option::None;
        },
    };
    let group = match j.get_str("group") {
        Option::Some(s) => s.clone(),
        Option::None => {
            return Option::None;
        },
    };
    let avatar = match j.get("avatar") {
        Option::Some(a) => match decode_avatar(a) {
            Option::Some(v) => v,
            Option::None => {
                return Option::None;
            },
        },
        Option::None => {
            return Option::None;
        },
    };
    Option::Some(Uploader { username, group, avatar })
}

pub open spec fn spec_tag_arr_ok(es: Seq<Json>) -> bool {
    forall|i: int| 0 <= i < es.len() ==> spec_tag_ok(es[i])
}

pub open spec fn spec_wallpaper_info_ok(j: Json) -> bool {
    &&& spec_wallpaper_ok(j)
    &&& (match spec_get(j, "uploader"@) {
        Option::Some(u) => spec_uploader_ok(u),
        Option::None => false,
    })
    &&& (match spec_get(j, "tags"@) {
        Option::Some(Json::Arr(es)) => spec_tag_arr_ok(es@),
        _ => false,
    })
}

pub open spec fn wallpaper_info_matches(w: WallpaperInfo, j: Json) -> bool {
    &&& Option::Some(w.id@) == spec_get_str(j, "id"@)
    &&& Option::Some(w.url@) == spec_get_str(j, "url"@)
    &&& Option::Some(w.short_url@) == spec_get_str(j, "short_url"@)
    &&& uploader_matches(w.uploader, spec_get(j, "uploader"@)->0)
    &&& Option::Some(w.views as int) == spec_get_i32(j, "views"@)
    &&& Option::Some(w.favorites as int) == spec_get_i32(j, "favorites"@)
    &&& Option::Some(w.source@) == spec_get_str(j, "source"@)
    &&& Option::Some(w.purity@) == spec_get_str(j, "purity"@)
    &&& Option::Some(w.category@) == spec_get_str(j, "category"@)
    &&& Option::Some(w.dimension_x as int) == spec_get_i32(j, "dimension_x"@)
    &&& Option::Some(w.dimension_y as int) == spec_get_i32(j, "dimension_y"@)
    &&& Option::Some(w.resolution@) == spec_get_str(j, "resolution"@)
    &&& Option::Some(w.ratio@) == spec_get_str(j, "ratio"@)
    &&& Option::Some(w.file_size as int) == spec_get_i32(j, "file_size"@)
    &&& Option::Some(w.file_type@) == spec_get_str(j, "file_type"@)
    &&& Option::Some(w.created_at@) == spec_get_str(j, "created_at"@)
    &&& Option::Some(w.colors.deep_view()) == spec_str_arr(spec_get(j, "colors"@)->0)
    &&& Option::Some(w.path@) == spec_get_str(j, "path"@)
    &&& thumbs_matches(w.thumbs, spec_get(j, "thumbs"@)->0)
    &&& (match spec_get(j, "tags"@) {
        Option::Some(Json::Arr(es)) => w.tags@.len() == es@.len() && (forall|i: int|
            0 <= i < es@.len() ==> tag_matches(w.tags@[i], es@[i])),
        _ => false,
    })
}

fn decode_wallpaper_info(j: &Json) -> (r: Option<WallpaperInfo>)
    ensures
        r is Some <==> spec_wallpaper_info_ok(*j),
        r matches Some(w) ==> wallpaper_info_matches(w, *j),
{
    let base = match decode_wallpaper(j) {
        Option::Some(w) => w,
        Option::None => {
            return Option::None;
        },
    };
    let uploader = match j.get("uploader") {
        Option::Some(u) => match decode_uploader(u) {
            Option::Some(v) => v,
            Option::None => {
                return Option::None;
            },
        },
        Option::None => {
            return Option::None;
        },
    };
    let tags = match j.get("tags") {
        Option::Some(t) => match t {
            Json::Arr(es) => {
                let mut out: Vec<Tag> = Vec::new();
                let n = es.len();
                let mut i: usize = 0;
                while i < n
                    invariant
                        spec_get(*j, "tags"@) == Option::Some(Json::Arr(*es)),
                        n == es@.len(),
                        i <= n,
                        out@.len() == i,
                        forall|k: int| 0 <= k < i ==> spec_tag_ok(es@[k]),
                        forall|k: int| 0 <= k < i ==> tag_matches(out@[k], es@[k]),
                    decreases n - i,
                {
                    match decode_tag(&es[i]) {
                        Option::Some(t) => {
                            out.push(t);
                        },
                        Option::None => {
                            return Option::None;
                        },
                    }
                    i = i + 1;
                }
                out
            },
            _ => {
                return Option::None;
            },
        },
        Option::None => {
            return Option::None;
        },
    };
    Option::Some(
        WallpaperInfo {
            id: base.id,
            url: base.url,
            short_url: base.short_url,
            uploader,
            views: base.views,
            favorites: base.favorites,
            source: base.source,
            purity: base.purity,
            category: base.category,
            dimension_x: base.dimension_x,
            dimension_y: base.dimension_y,
            resolution: base.resolution,
            ratio: base.ratio,
            file_size: base.file_size,
            file_type: base.file_type,
            created_at: base.created_at,
            colors: base.colors,
            path: base.path,
            thumbs: base.thumbs,
            tags,
        },
    )
}

pub open spec fn spec_settings_ok(j: Json) -> bool {
    &&& spec_get_str(j, "thumb_size"@) is Some
    &&& spec_get_str(j, "per_page"@) is Some
    &&& (match spec_get(j, "purity"@) {
        Option::Some(v) => spec_str_arr(v) is Some,
        Option::None => false,
    })
    &&& (match spec_get(j, "categories"@) {
        Option::Some(v) => spec_str_arr(v) is Some,
        Option::None => false,
    })
    &&& (match spec_get(j, "resolutions"@) {
        Option::Some(v) => spec_str_arr(v) is Some,
        Option::None => false,
    })
    &&& (match spec_get(j, "aspect_ratios"@) {
        Option::Some(v) => spec_str_arr(v) is Some,
        Option::None => false,
    })
    &&& spec_get_str(j, "toplist_range"@) is Some
    &&& (match spec_get(j, "tag_blacklist"@) {
        Option::Some(v) => spec_str_arr(v) is Some,
        Option::None => false,
    })
    &&& (match spec_get(j, "user_blacklist"@) {
        Option::Some(v) => spec_str_arr(v) is Some,
        Option::None => false,
    })
}

pub open spec fn settings_matches(s: UserSettings, j: Json) -> bool {
    &&& Option::Some(s.thumb_size@) == spec_get_str(j, "thumb_size"@)
    &&& Option::Some(s.per_page@) == spec_get_str(j, "per_page"@)
    &&& Option::Some(s.purity.deep_view()) == spec_str_arr(spec_get(j, "purity"@)->0)
    &&& Option::Some(s.categories.deep_view()) == spec_str_arr(spec_get(j, "categories"@)->0)
    &&& Option::Some(s.resolutions.deep_view()) == spec_str_arr(spec_get(j, "resolutions"@)->0)
    &&& Option::Some(s.aspect_ratios.deep_view()) == spec_str_arr(spec_get(j, "aspect_ratios"@)->0)
    &&& Option::Some(s.toplist_range@) == spec_get_str(j, "toplist_range"@)
    &&& Option::Some(s.tag_blacklist.deep_view()) == spec_str_arr(spec_get(j, "tag_blacklist"@)->0)
    &&& Option::Some(s.user_blacklist.deep_view()) == spec_str_arr(
        spec_get(j, "user_blacklist"@)->0,
    )
}

fn decode_settings(j: &Json) -> (r: Option<UserSettings>)
    ensures
        r is Some <==> spec_settings_ok(*j),
        r matches Some(s) ==> settings_matches(s, *j),
{
    let thumb_size = match j.get_str("thumb_size") {
        Option::Some(s) => s.clone(),
        Option::None => {
            return Option::None;
        },
    };
    let per_page = match j.get_str("per_page") {
        Option::Some(s) => s.clone(),
        Option::None => {
            return Option::None;
        },
    };
    let purity = match j.get("purity") {
        Option::Some(v) => match decode_str_array(v) {
            Option::Some(a) => a,
            Option::None => {
                return Option::None;
            },
        },
        Option::None => {
            return Option::None;
        },
    };
    let categories = match j.get("categories") {
        Option::Some(v) => match decode_str_array(v) {
            Option::Some(a) => a,
            Option::None => {
                return Option::None;
            },
        },
        Option::None => {
            return Option::None;
        },
    };
    let resolutions = match j.get("resolutions") {
        Option::Some(v) => match decode_str_array(v) {
            Option::Some(a) => a,
            Option::None => {
                return Option::None;
            },
        },
        Option::None => {
            return Option::None;
        },
    };
    let aspect_ratios = match j.get("aspect_ratios") {
        Option::Some(v) => match decode_str_array(v) {
            Option::Some(a) => a,
            Option::None => {
                return Option::None;
            },
        },
        Option::None => {
            return Option::None;
        },
    };
    let toplist_range = match j.get_str("toplist_range") {
        Option::Some(s) => s.clone(),
        Option::None => {
            return Option::None;
        },
    };
    let tag_blacklist = match j.get("tag_blacklist") {
        Option::Some(v) => match decode_str_array(v) {
            Option::Some(a) => a,
            Option::None => {
                return Option::None;
            },
        },
        Option::None => {
            return Option::None;
        },
    };
    let user_blacklist = match j.get("user_blacklist") {
        Option::Some(v) => match decode_str_array(v) {
            Option::Some(a) => a,
            Option::None => {
                return Option::None;
            },
        },
        Option::None => {
            return Option::None;
        },
    };
    Option::Some(
        UserSettings {
            thumb_size,
            per_page,
            purity,
            categories,
            resolutions,
            aspect_ratios,
            toplist_range,
            tag_blacklist,
            user_blacklist,
        },
    )
}

pub open spec fn spec_collection_ok(j: Json) -> bool {
    &&& spec_get_i32(j, "id"@) is Some
    &&& spec_get_str(j, "label"@) is Some
    &&& spec_get_i32(j, "views"@) is Some
    &&& spec_get_i32(j, "public"@) is Some
    &&& spec_get_i32(j, "count"@) is Some
}

pub open spec fn collection_matches(c: UserCollections, j: Json) -> bool {
    &&& Option::Some(c.id as int) == spec_get_i32(j, "id"@)
    &&& Option::Some(c.label@) == spec_get_str(j, "label"@)
    &&& Option::Some(c.views as int) == spec_get_i32(j, "views"@)
    &&& Option::Some(c.public as int) == spec_get_i32(j, "public"@)
    &&& Option::Some(c.count as int) == spec_get_i32(j, "count"@)
}

fn decode_collection(j: &Json) -> (r: Option<UserCollections>)
    ensures
        r is Some <==> spec_collection_ok(*j),
        r matches Some(c) ==> collection_matches(c, *j),
{
    let id = match j.get_i32("id") {
        Option::Some(n) => n,
        Option::None => {
            return Option::None;
        },
    };
    let label = match j.get_str("label") {
        Option::Some(s) => s.clone(),
        Option::None => {
            return Option::None;
        },
    };
    let views = match j.get_i32("views") {
        Option::Some(n) => n,
        Option::None => {
            return Option::None;
        },
    };
    let public = match j.get_i32("public") {
        Option::Some(n) => n,
        Option::None => {
            return Option::None;
        },
    };
    let count = match j.get_i32("count") {
        Option::Some(n) => n,
        Option::None => {
            return Option::None;
        },
    };
    Option::Some(UserCollections { id, label, views, public, count })
}

pub open spec fn spec_collection_arr_ok(es: Seq<Json>) -> bool {
    forall|i: int| 0 <= i < es.len() ==> spec_collection_ok(es[i])
}

/// The `{data: ...}` wrapper around a wallpaper detail.
pub open spec fn spec_wallpaper_info_resp_ok(j: Json) -> bool {
    match spec_get(j, "data"@) {
        Option::Some(d) => spec_wallpaper_info_ok(d),
        Option::None => false,
    }
}

pub open spec fn wallpaper_info_resp_matches(r: WallpaperInfoResponse, j: Json) -> bool {
    wallpaper_info_matches(r.data, spec_get(j, "data"@)->0)
}

/// Decodes a wallpaper-detail response.
pub fn decode_wallpaper_info_response(j: &Json) -> (r: Option<WallpaperInfoResponse>)
    ensures
        r is Some <==> spec_wallpaper_info_resp_ok(*j),
        r matches Some(v) ==> wallpaper_info_resp_matches(v, *j),
{
    match j.get("data") {
        Option::Some(d) => match decode_wallpaper_info(d) {
            Option::Some(w) => Option::Some(WallpaperInfoResponse { data: w }),
            Option::None => Option::None,
        },
        Option::None => Option::None,
    }
}

/// The `{data: ...}` wrapper around a tag detail.
pub open spec fn spec_tag_resp_ok(j: Json) -> bool {
    match spec_get(j, "data"@) {
        Option::Some(d) => spec_tag_ok(d),
        Option::None => false,
    }
}

pub open spec fn tag_resp_matches(r: TagResponse, j: Json) -> bool {
    tag_matches(r.data, spec_get(j, "data"@)->0)
}

/// Decodes a tag-detail response.
pub fn decode_tag_response(j: &Json) -> (r: Option<TagResponse>)
    ensures
        r is Some <==> spec_tag_resp_ok(*j),
        r matches Some(v) ==> tag_resp_matches(v, *j),
{
    match j.get("data") {
        Option::Some(d) => match decode_tag(d) {
            Option::Some(t) => Option::Some(TagResponse { data: t }),
            Option::None => Option::None,
        },
        Option::None => Option::None,
    }
}

/// The `{data: ...}` wrapper around the account settings.
pub open spec fn spec_settings_resp_ok(j: Json) -> bool {
    match spec_get(j, "data"@) {
        Option::Some(d) => spec_settings_ok(d),
        Option::None => false,
    }
}

pub open spec fn settings_resp_matches(r: UserSettingsResponse, j: Json) -> bool {
    settings_matches(r.data, spec_get(j, "data"@)->0)
}

/// Decodes an account-settings response.
pub fn decode_settings_response(j: &Json) -> (r: Option<UserSettingsResponse>)
    ensures
        r is Some <==> spec_settings_resp_ok(*j),
        r matches Some(v) ==> settings_resp_matches(v, *j),
{
    match j.get("data") {
        Option::Some(d) => match decode_settings(d) {
            Option::Some(s) => Option::Some(UserSettingsResponse { data: s }),
            Option::None => Option::None,
        },
        Option::None => Option::None,
    }
}

/// The `{data: [...]}` wrapper around a list of collections.
pub open spec fn spec_collections_resp_ok(j: Json) -> bool {
    match spec_get(j, "data"@) {
        Option::Some(Json::Arr(es)) => spec_collection_arr_ok(es@),
        _ => false,
    }
}

pub open spec fn collections_resp_matches(r: UserCollectionsResponse, j: Json) -> bool {
    match spec_get(j, "data"@) {
        Option::Some(Json::Arr(es)) => r.data@.len() == es@.len() && (forall|i: int|
            0 <= i < es@.len() ==> collection_matches(r.data@[i], es@[i])),
        _ => false,
    }
}

/// Decodes a collections response.
pub fn decode_collections_response(j: &Json) -> (r: Option<UserCollectionsResponse>)
    ensures
        r is Some <==> spec_collections_resp_ok(*j),
        r matches Some(v) ==> collections_resp_matches(v, *j),
{
    match j.get("data") {
        Option::Some(d) => match d {
            Json::Arr(es) => {
                let mut out: Vec<UserCollections> = Vec::new();
                let n = es.len();
                let mut i: usize = 0;
                while i < n
                    invariant
                        spec_get(*j, "data"@) == Option::Some(Json::Arr(*es)),
                        n == es@.len(),
                        i <= n,
                        out@.len() == i,
                        forall|k: int| 0 <= k < i ==> spec_collection_ok(es@[k]),
                        forall|k: int| 0 <= k < i ==> collection_matches(out@[k], es@[k]),
                    decreases n - i,
                {
                    match decode_collection(&es[i]) {
                        Option::Some(c) => {
                            out.push(c);
                        },
                        Option::None => {
                            return Option::None;
                        },
                    }
                    i = i + 1;
                }
                Option::Some(UserCollectionsResponse { data: out })
            },
            _ => Option::None,
        },
        Option::None => Option::None,
    }
}

/// Which success shape a command expects back.
#[derive(Debug, Clone, Copy, PartialEq, Eq, Structural)]
pub enum CommandKind {
    Search,
    WallpaperInfo,
    TagInfo,
    UserSettings,
    UserCollections,
}

/// A decoded response: either the error payload the service reported, or
/// the success payload the command expected.
#[derive(Debug)]
pub enum Decoded {
    Error(ErrorResponse),
    Search(SearchResponse),
    WallpaperInfo(WallpaperInfoResponse),
    Tag(TagResponse),
    UserSettings(UserSettingsResponse),
    UserCollections(UserCollectionsResponse),
}

/// Whether a body fits the success shape the command expects.
pub open spec fn spec_expected_ok(kind: CommandKind, j: Json) -> bool {
    match kind {
        CommandKind::Search => spec_search_ok(j),
        CommandKind::WallpaperInfo => spec_wallpaper_info_resp_ok(j),
        CommandKind::TagInfo => spec_tag_resp_ok(j),
        CommandKind::UserSettings => spec_settings_resp_ok(j),
        CommandKind::UserCollections => spec_collections_resp_ok(j),
    }
}

pub open spec fn decoded_matches(kind: CommandKind, d: Decoded, j: Json) -> bool {
    match kind {
        CommandKind::Search => d matches Decoded::Search(s) && search_matches(s, j),
        CommandKind::WallpaperInfo => d matches Decoded::WallpaperInfo(w)
            && wallpaper_info_resp_matches(w, j),
        CommandKind::TagInfo => d matches Decoded::Tag(t) && tag_resp_matches(t, j),
        CommandKind::UserSettings => d matches Decoded::UserSettings(s) && settings_resp_matches(
            s,
            j,
        ),
        CommandKind::UserCollections => d matches Decoded::UserCollections(c)
            && collections_resp_matches(c, j),
    }
}

/// Decodes a response body for a command.
///
/// Law: a body matching the error shape decodes as the reported error,
/// whatever shape the command expected — it never falls through to a
/// decode failure.  Only a body matching neither the error shape nor the
/// expected shape is a decode error.
pub fn decode_response(kind: CommandKind, j: &Json) -> (r: Result<Decoded, WallhavenClientError>)
    ensures
        spec_error_ok(*j) ==> (r matches Ok(d) && d matches Decoded::Error(e) && error_matches(
            e,
            *j,
        )),
        !spec_error_ok(*j) && spec_expected_ok(kind, *j) ==> (r matches Ok(d) && decoded_matches(
            kind,
            d,
            *j,
        )),
        !spec_error_ok(*j) && !spec_expected_ok(kind, *j) ==> (r matches Err(e) && e matches
            WallhavenClientError::DecodeError(m) && m@
            == "response matched neither the error shape nor the expected shape"@),
{
    match decode_error(j) {
        Option::Some(e) => {
            return Result::Ok(Decoded::Error(e));
        },
        Option::None => {},
    }
    let d: Option<Decoded> = match kind {
        CommandKind::Search => match decode_search(j) {
            Option::Some(s) => Option::Some(Decoded::Search(s)),
            Option::None => Option::None,
        },
        CommandKind::WallpaperInfo => match decode_wallpaper_info_response(j) {
            Option::Some(w) => Option::Some(Decoded::WallpaperInfo(w)),
            Option::None => Option::None,
        },
        CommandKind::TagInfo => match decode_tag_response(j) {
            Option::Some(t) => Option::Some(Decoded::Tag(t)),
            Option::None => Option::None,
        },
        CommandKind::UserSettings => match decode_settings_response(j) {
            Option::Some(s) => Option::Some(Decoded::UserSettings(s)),
            Option::None => Option::None,
        },
        CommandKind::UserCollections => match decode_collections_response(j) {
            Option::Some(c) => Option::Some(Decoded::UserCollections(c)),
            Option::None => Option::None,
        },
    };
    match d {
        Option::Some(d) => Result::Ok(d),
        Option::None => Result::Err(
            WallhavenClientError::DecodeError(
                String::from_str("response matched neither the error shape nor the expected shape"),
            ),
        ),
    }
}

} // verus!
