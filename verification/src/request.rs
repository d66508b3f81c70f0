//! Command argument types and the request targets they build.
//!
//! Every command maps to one URL under the API base path.  For a search,
//! the parameters are emitted in a fixed order — credential, categories,
//! purity, page, seed, order, sorting, toplist range, minimum resolution,
//! resolutions, ratios, and finally the search method — and exactly one
//! search method is sent: colors when present, otherwise the query.

use vstd::prelude::*;

use crate::prefs::{ascii_alnum, OverrideFlags, ResolvedPreferences, Seed};
use crate::query::{FileType, QueryModel, SearchQuery};
use crate::strutil::{
    chars_of, dec_int_rep, dec_rep, form_encode, form_encode_seq, i64_dec, join_seqs, join_strings,
    opt_str_view, string_from_chars, u64_dec,
};

verus! {

/// The fixed base path of the remote API.
pub const BASE_URL: &'static str = "https://wallhaven.cc/api/v1";

/// The whole command line: one subcommand per API operation.
#[derive(Debug)]
pub struct CLIArgs {
    pub commands: CLICommands,
}

/// One API operation and its arguments.
#[derive(Debug)]
pub enum CLICommands {
    Search(SearchArgs),
    WallpaperInfo(WallpaperInfoArgs),
    TagInfo(TagInfoArgs),
    UserSettings(UserSettingsArgs),
    UserCollections(UserCollectionsArgs),
}

/// Arguments of a search: a directory to download into, exactly one
/// search method (query or colors), and the explicit preferences.
#[derive(Debug)]
pub struct SearchArgs {
    pub path: Option<String>,
    pub query: Option<SearchQuery>,
    pub categories: Option<crate::prefs::CategoryMask>,
    pub purity: Option<crate::prefs::PurityMask>,
    pub sorting: Option<crate::prefs::Sorting>,
    pub order: Option<crate::prefs::Order>,
    pub toprange: Option<crate::prefs::TopRange>,
    pub atleast: Option<String>,
    pub resolutions: Option<String>,
    pub ratios: Option<String>,
    pub colors: Option<String>,
    pub page: Option<u32>,
    pub seed: Option<Seed>,
}

/// Arguments of a wallpaper-detail request.
#[derive(Debug)]
pub struct WallpaperInfoArgs {
    pub id: String,
}

/// Arguments of a tag-detail request.
#[derive(Debug)]
pub struct TagInfoArgs {
    pub id: i32,
}

/// The account-settings request takes no arguments.
#[derive(Debug)]
pub struct UserSettingsArgs;

/// Arguments of a collections request: a user's public collections, or
/// the credential's own account when no name is given.
#[derive(Debug)]
pub struct UserCollectionsArgs {
    pub username: Option<String>,
}

/// An ASCII hexadecimal digit, either case.
pub open spec fn hex_digit(c: char) -> bool {
    ||| 48 <= c as u32 <= 57
    ||| 97 <= c as u32 <= 102
    ||| 65 <= c as u32 <= 70
}

/// The colour string with one leading `#` removed.
pub open spec fn strip_hash(s: Seq<char>) -> Seq<char> {
    if s.len() > 0 && s[0] == '#' {
        s.drop_first()
    } else {
        s
    }
}

/// The shape of a valid colour: six hexadecimal digits.
pub open spec fn spec_color_ok(s: Seq<char>) -> bool {
    s.len() == 6 && (forall|i: int| 0 <= i < s.len() ==> hex_digit(s[i]))
}

/// Accepts a six-digit hexadecimal colour, with or without a leading `#`,
/// and returns it without the `#`.
pub fn valid_color(s: &str) -> (r: Result<String, String>)
    ensures
        match r {
            Result::Ok(v) => spec_color_ok(strip_hash(s@)) && v@ == strip_hash(s@),
            Result::Err(m) => !spec_color_ok(strip_hash(s@)) && m@ == strip_hash(s@)
                + " is not a valid hex color"@,
        },
{
    let cs = chars_of(s);
    let stripped = if cs.len() > 0 && cs[0] == '#' {
        crate::strutil::subvec_chars(&cs, 1, cs.len())
    } else {
        crate::strutil::subvec_chars(&cs, 0, cs.len())
    };
    proof {
        if cs@.len() > 0 && cs@[0] == '#' {
            assert(stripped@ =~= strip_hash(s@));
        } else {
            assert(stripped@ =~= strip_hash(s@));
        }
    }
    let mut ok = stripped.len() == 6;
    let mut i: usize = 0;
    while i < stripped.len()
        invariant
            i <= stripped@.len(),
            ok == (stripped@.len() == 6 && forall|j: int| 0 <= j < i ==> hex_digit(stripped@[j])),
        decreases stripped@.len() - i,
    {
        let u = stripped[i] as u32;
        let d = (48 <= u && u <= 57) || (97 <= u && u <= 102) || (65 <= u && u <= 70);
        ok = ok && d;
        i = i + 1;
    }
    if ok {
        Result::Ok(string_from_chars(&stripped))
    } else {
        Result::Err(string_from_chars(&stripped).concat(" is not a valid hex color"))
    }
}

/// The shape of a wallpaper identifier: six ASCII letters or digits.
pub open spec fn spec_wallpaper_id_ok(s: Seq<char>) -> bool {
    s.len() == 6 && (forall|i: int| 0 <= i < s.len() ==> ascii_alnum(s[i]))
}

/// Accepts a six-character alphanumeric wallpaper identifier.
pub fn valid_wallpaper_id(s: &str) -> (r: Result<String, String>)
    ensures
        match r {
            Result::Ok(v) => spec_wallpaper_id_ok(s@) && v@ == s@,
            Result::Err(m) => !spec_wallpaper_id_ok(s@) && m@ == s@
                + " is not a valid wallpaper id"@,
        },
{
    let cs = chars_of(s);
    let mut ok = cs.len() == 6;
    let mut i: usize = 0;
    while i < cs.len()
        invariant
            cs@ == s@,
            i <= cs@.len(),
            ok == (cs@.len() == 6 && forall|j: int| 0 <= j < i ==> ascii_alnum(cs@[j])),
        decreases cs@.len() - i,
    {
        let u = cs[i] as u32;
        let d = (48 <= u && u <= 57) || (65 <= u && u <= 90) || (97 <= u && u <= 122);
        ok = ok && d;
        i = i + 1;
    }
    if ok {
        Result::Ok(String::from_str(s))
    } else {
        Result::Err(String::from_str(s).concat(" is not a valid wallpaper id"))
    }
}

impl WallpaperInfoArgs {
    /// The wallpaper-detail URL.
    pub fn to_url(&self, base_url: &str) -> (r: String)
        ensures
            r@ == base_url@ + "/w/"@ + self.id@,
    {
        let r = String::from_str(base_url).concat("/w/").concat(self.id.as_str());
        proof {
            assert(r@ =~= base_url@ + "/w/"@ + self.id@);
        }
        r
    }
}

impl TagInfoArgs {
    /// The tag-detail URL.
    pub fn to_url(&self, base_url: &str) -> (r: String)
        ensures
            r@ == base_url@ + "/tag/"@ + dec_int_rep(self.id as int),
    {
        let digits = i64_dec(self.id as i64);
        let r = String::from_str(base_url).concat("/tag/").concat(digits.as_str());
        proof {
            assert(r@ =~= base_url@ + "/tag/"@ + dec_int_rep(self.id as int));
        }
        r
    }
}

impl UserSettingsArgs {
    /// The account-settings URL.
    pub fn to_url(&self, base_url: &str) -> (r: String)
        ensures
            r@ == base_url@ + "/settings"@,
    {
        let r = String::from_str(base_url).concat("/settings");
        proof {
            assert(r@ =~= base_url@ + "/settings"@);
        }
        r
    }
}

impl UserCollectionsArgs {
    /// The collections URL: a named user's public collections, or the
    /// account's own when no name was given.
    pub fn to_url(&self, base_url: &str) -> (r: String)
        ensures
            match self.username {
                Option::Some(u) => r@ == base_url@ + "/collections/"@ + u@,
                Option::None => r@ == base_url@ + "/collections"@,
            },
    {
        match &self.username {
            Option::Some(u) => {
                let r = String::from_str(base_url).concat("/collections/").concat(u.as_str());
                proof {
                    assert(r@ =~= base_url@ + "/collections/"@ + self.username->0@);
                }
                r
            },
            Option::None => {
                let r = String::from_str(base_url).concat("/collections");
                proof {
                    assert(r@ =~= base_url@ + "/collections"@);
                }
                r
            },
        }
    }
}

/// The serialized tag part of a query value.
pub open spec fn qp_tags(q: QueryModel) -> Seq<Seq<char>> {
    if q.tags.len() > 0 {
        seq![join_seqs(q.tags, ' ')]
    } else {
        Seq::<Seq<char>>::empty()
    }
}

/// The serialized username part of a query value.
pub open spec fn qp_user(q: QueryModel) -> Seq<Seq<char>> {
    match q.username {
        Option::Some(u) => seq!["@"@ + u],
        Option::None => Seq::<Seq<char>>::empty(),
    }
}

/// The serialized file-type part of a query value.
pub open spec fn qp_type(q: QueryModel) -> Seq<Seq<char>> {
    match q.filetype {
        Option::Some(ft) => seq!["type:"@ + ft.wire_spec()],
        Option::None => Seq::<Seq<char>>::empty(),
    }
}

/// The serialized like part of a query value.
pub open spec fn qp_like(q: QueryModel) -> Seq<Seq<char>> {
    match q.like {
        Option::Some(l) => seq!["like:"@ + l],
        Option::None => Seq::<Seq<char>>::empty(),
    }
}

/// The space-separated pieces of a query value without an id.
pub open spec fn query_parts(q: QueryModel) -> Seq<Seq<char>> {
    qp_tags(q) + qp_user(q) + qp_type(q) + qp_like(q)
}

/// The full text of the `q` parameter value, before form encoding: an id
/// query alone, or tags, username, file type and like joined by spaces.
pub open spec fn query_text(q: QueryModel) -> Seq<char> {
    match q.id {
        Option::Some(id) => "id:"@ + id,
        Option::None => join_seqs(query_parts(q), ' '),
    }
}

/// Serializes a parsed query back into the free-text form sent on the wire.
pub fn query_value(q: &SearchQuery) -> (s: String)
    ensures
        s@ == query_text(q@),
{
    match &q.id {
        Option::Some(id) => {
            let s = String::from_str("id:").concat(id.as_str());
            proof {
                assert(s@ =~= "id:"@ + q@.id->0);
            }
            s
        },
        Option::None => {
            let mut parts: Vec<String> = Vec::new();
            match &q.tags {
                Option::Some(tags) => {
                    if tags.len() > 0 {
                        parts.push(join_strings(tags, ' '));
                    }
                },
                Option::None => {},
            }
            proof {
                assert(parts.deep_view() =~~= qp_tags(q@));
            }
            let ghost s1 = parts.deep_view();
            match &q.username {
                Option::Some(u) => {
                    parts.push(String::from_str("@").concat(u.as_str()));
                },
                Option::None => {},
            }
            proof {
                assert(parts.deep_view() =~~= s1 + qp_user(q@));
            }
            let ghost s2 = parts.deep_view();
            match &q.filetype {
                Option::Some(ft) => {
                    parts.push(String::from_str("type:").concat(ft.wire_str()));
                },
                Option::None => {},
            }
            proof {
                assert(parts.deep_view() =~~= s2 + qp_type(q@));
            }
            let ghost s3 = parts.deep_view();
            match &q.like {
                Option::Some(l) => {
                    parts.push(String::from_str("like:").concat(l.as_str()));
                },
                Option::None => {},
            }
            proof {
                assert(parts.deep_view() =~~= s3 + qp_like(q@));
                assert(parts.deep_view() =~~= query_parts(q@));
            }
            join_strings(&parts, ' ')
        },
    }
}

/// One optional `prefix=value` parameter.
pub open spec fn opt_param(prefix: Seq<char>, v: Option<Seq<char>>) -> Seq<Seq<char>> {
    match v {
        Option::Some(x) => seq![prefix + x],
        Option::None => Seq::<Seq<char>>::empty(),
    }
}

/// The one search-method parameter: colors when present, otherwise the
/// encoded query; the query is silently dropped when both are given.
pub open spec fn spec_method_param(colors: Option<String>, query: Option<SearchQuery>) -> Seq<
    Seq<char>,
> {
    match colors {
        Option::Some(c) => seq!["colors="@ + c@],
        Option::None => match query {
            Option::Some(q) => seq!["q="@ + form_encode_seq(query_text(q@))],
            Option::None => Seq::<Seq<char>>::empty(),
        },
    }
}

/// The preference-derived parameters of a search request, in emission
/// order: credential, categories, purity, page, seed, order, sorting,
/// toplist range, minimum resolution, resolutions, ratios.
pub open spec fn spec_pref_params(res: ResolvedPreferences) -> Seq<Seq<char>> {
    opt_param("apikey="@, opt_str_view(res.credential)) + opt_param(
        "categories="@,
        match res.categories {
            Option::Some(m) => Option::Some(m.wire_spec()),
            Option::None => Option::<Seq<char>>::None,
        },
    ) + opt_param(
        "purity="@,
        match res.purity {
            Option::Some(m) => Option::Some(m.wire_spec()),
            Option::None => Option::<Seq<char>>::None,
        },
    ) + seq!["page="@ + dec_rep(res.page as int)] + opt_param(
        "seed="@,
        match res.seed {
            Option::Some(sd) => Option::Some(sd.0@),
            Option::None => Option::<Seq<char>>::None,
        },
    ) + seq!["order="@ + res.order.wire_spec()] + seq!["sorting="@ + res.sorting.wire_spec()]
        + opt_param(
        "topRange="@,
        match res.top_range {
            Option::Some(t) => Option::Some(t.wire_spec()),
            Option::None => Option::<Seq<char>>::None,
        },
    ) + opt_param("atleast="@, opt_str_view(res.at_least)) + opt_param(
        "resolutions="@,
        opt_str_view(res.resolutions),
    ) + opt_param("ratios="@, opt_str_view(res.ratios))
}

/// Every parameter of a search request, in emission order: the
/// preference-derived parameters, then the one search method.
pub open spec fn spec_search_params(
    res: ResolvedPreferences,
    colors: Option<String>,
    query: Option<SearchQuery>,
) -> Seq<Seq<char>> {
    spec_pref_params(res) + spec_method_param(colors, query)
}

/// Builds the preference-derived parameters in their fixed order.
#[verifier::rlimit(100)]
fn pref_params(res: &ResolvedPreferences) -> (params: Vec<String>)
    ensures
        params.deep_view() == spec_pref_params(*res),
{
    let mut params: Vec<String> = Vec::new();
    match &res.credential {
        Option::Some(c) => {
            params.push(String::from_str("apikey=").concat(c.as_str()));
        },
        Option::None => {},
    }
    proof {
        assert(params.deep_view() =~~= opt_param("apikey="@, opt_str_view(res.credential)));
    }
    let ghost c1 = params.deep_view();
    match &res.categories {
        Option::Some(m) => {
            let w = m.to_wire();
            params.push(String::from_str("categories=").concat(w.as_str()));
        },
        Option::None => {},
    }
    proof {
        assert(params.deep_view() =~~= c1 + opt_param(
            "categories="@,
            match res.categories {
                Option::Some(m) => Option::Some(m.wire_spec()),
                Option::None => Option::<Seq<char>>::None,
            },
        ));
    }
    let ghost c2 = params.deep_view();
    match &res.purity {
        Option::Some(m) => {
            let w = m.to_wire();
            params.push(String::from_str("purity=").concat(w.as_str()));
        },
        Option::None => {},
    }
    proof {
        assert(params.deep_view() =~~= c2 + opt_param(
            "purity="@,
            match res.purity {
                Option::Some(m) => Option::Some(m.wire_spec()),
                Option::None => Option::<Seq<char>>::None,
            },
        ));
    }
    let ghost c3 = params.deep_view();
    let page_digits = u64_dec(res.page as u64);
    params.push(String::from_str("page=").concat(page_digits.as_str()));
    proof {
        assert(params.deep_view() =~~= c3 + seq!["page="@ + dec_rep(res.page as int)]);
    }
    let ghost c4 = params.deep_view();
    match &res.seed {
        Option::Some(sd) => {
            params.push(String::from_str("seed=").concat(sd.0.as_str()));
        },
        Option::None => {},
    }
    proof {
        assert(params.deep_view() =~~= c4 + opt_param(
            "seed="@,
            match res.seed {
                Option::Some(sd) => Option::Some(sd.0@),
                Option::None => Option::<Seq<char>>::None,
            },
        ));
    }
    let ghost c5 = params.deep_view();
    params.push(String::from_str("order=").concat(res.order.wire_str()));
    proof {
        assert(params.deep_view() =~~= c5 + seq!["order="@ + res.order.wire_spec()]);
    }
    let ghost c6 = params.deep_view();
    params.push(String::from_str("sorting=").concat(res.sorting.wire_str()));
    proof {
        assert(params.deep_view() =~~= c6 + seq!["sorting="@ + res.sorting.wire_spec()]);
    }
    let ghost c7 = params.deep_view();
    match &res.top_range {
        Option::Some(t) => {
            params.push(String::from_str("topRange=").concat(t.wire_str()));
        },
        Option::None => {},
    }
    proof {
        assert(params.deep_view() =~~= c7 + opt_param(
            "topRange="@,
            match res.top_range {
                Option::Some(t) => Option::Some(t.wire_spec()),
                Option::None => Option::<Seq<char>>::None,
            },
        ));
    }
    let ghost c8 = params.deep_view();
    match &res.at_least {
        Option::Some(s) => {
            params.push(String::from_str("atleast=").concat(s.as_str()));
        },
        Option::None => {},
    }
    proof {
        assert(params.deep_view() =~~= c8 + opt_param("atleast="@, opt_str_view(res.at_least)));
    }
    let ghost c9 = params.deep_view();
    match &res.resolutions {
        Option::Some(s) => {
            params.push(String::from_str("resolutions=").concat(s.as_str()));
        },
        Option::None => {},
    }
    proof {
        assert(params.deep_view() =~~= c9 + opt_param(
            "resolutions="@,
            opt_str_view(res.resolutions),
        ));
    }
    let ghost c10 = params.deep_view();
    match &res.ratios {
        Option::Some(s) => {
            params.push(String::from_str("ratios=").concat(s.as_str()));
        },
        Option::None => {},
    }
    proof {
        assert(params.deep_view() =~~= c10 + opt_param("ratios="@, opt_str_view(res.ratios)));
    }
    params
}

/// Builds the search parameters in their fixed emission order.
pub fn search_params(
    res: &ResolvedPreferences,
    colors: &Option<String>,
    query: &Option<SearchQuery>,
) -> (params: Vec<String>)
    ensures
        params.deep_view() == spec_search_params(*res, *colors, *query),
{
    let mut params = pref_params(res);
    let ghost c11 = params.deep_view();
    match colors {
        Option::Some(c) => {
            params.push(String::from_str("colors=").concat(c.as_str()));
        },
        Option::None => {
            match query {
                Option::Some(q) => {
                    let text = query_value(q);
                    let encoded = form_encode(text.as_str());
                    params.push(String::from_str("q=").concat(encoded.as_str()));
                },
                Option::None => {},
            }
        },
    }
    proof {
        assert(params.deep_view() =~~= c11 + spec_method_param(*colors, *query));
    }
    params
}

impl SearchArgs {
    /// The explicit preferences of this search, as handed to resolution.
    pub fn preferences(&self) -> (p: crate::prefs::SearchPreferences)
        ensures
            p.categories == self.categories,
            p.purity == self.purity,
            p.sorting == self.sorting,
            p.order == self.order,
            p.top_range == self.toprange,
            p.at_least == self.atleast,
            p.resolutions == self.resolutions,
            p.ratios == self.ratios,
            p.page == self.page,
            p.seed == self.seed,
    {
        crate::prefs::SearchPreferences {
            categories: self.categories,
            purity: self.purity,
            sorting: self.sorting,
            order: self.order,
            top_range: self.toprange,
            at_least: clone_opt_string(&self.atleast),
            resolutions: clone_opt_string(&self.resolutions),
            ratios: clone_opt_string(&self.ratios),
            page: self.page,
            seed: match &self.seed {
                Option::Some(sd) => Option::Some(Seed(sd.0.clone())),
                Option::None => Option::None,
            },
        }
    }

    /// The search URL: base path, `/search?`, and the parameters joined
    /// with `&` in their fixed order.
    pub fn to_url(&self, base_url: &str, resolved: &ResolvedPreferences) -> (r: String)
        ensures
            r@ == base_url@ + "/search?"@ + join_seqs(
                spec_search_params(*resolved, self.colors, self.query),
                '&',
            ),
    {
        let params = search_params(resolved, &self.colors, &self.query);
        let joined = join_strings(&params, '&');
        let r = String::from_str(base_url).concat("/search?").concat(joined.as_str());
        proof {
            assert(r@ =~= base_url@ + "/search?"@ + joined@);
        }
        r
    }
}

fn clone_opt_string(o: &Option<String>) -> (r: Option<String>)
    ensures
        r == *o,
{
    match o {
        Option::Some(s) => Option::Some(s.clone()),
        Option::None => Option::None,
    }
}

/// The URL a command requests, under the given base path.
pub open spec fn spec_command_url(
    cmd: CLICommands,
    base: Seq<char>,
    res: ResolvedPreferences,
) -> Seq<char> {
    match cmd {
        CLICommands::Search(s) => base + "/search?"@ + join_seqs(
            spec_search_params(res, s.colors, s.query),
            '&',
        ),
        CLICommands::WallpaperInfo(w) => base + "/w/"@ + w.id@,
        CLICommands::TagInfo(t) => base + "/tag/"@ + dec_int_rep(t.id as int),
        CLICommands::UserSettings(_) => base + "/settings"@,
        CLICommands::UserCollections(u) => match u.username {
            Option::Some(n) => base + "/collections/"@ + n@,
            Option::None => base + "/collections"@,
        },
    }
}

/// Dispatches a command to the URL it requests.  The resolved preferences
/// matter only for a search.
pub fn command_url(cmd: &CLICommands, base_url: &str, resolved: &ResolvedPreferences) -> (r: String)
    ensures
        r@ == spec_command_url(*cmd, base_url@, *resolved),
{
    match cmd {
        CLICommands::Search(s) => s.to_url(base_url, resolved),
        CLICommands::WallpaperInfo(w) => w.to_url(base_url),
        CLICommands::TagInfo(t) => t.to_url(base_url),
        CLICommands::UserSettings(u) => u.to_url(base_url),
        CLICommands::UserCollections(u) => u.to_url(base_url),
    }
}

proof fn lemma_head_is_prefix(pre: Seq<char>, t: Seq<char>)
    ensures
        pre.is_prefix_of(pre + t),
{
    assert(pre =~= (pre + t).subrange(0, pre.len() as int));
}

proof fn lemma_two_prefixes_agree(a: Seq<char>, b: Seq<char>, x: Seq<char>, k: int)
    requires
        a.is_prefix_of(x),
        b.is_prefix_of(x),
        0 <= k < a.len(),
        k < b.len(),
    ensures
        a[k] == b[k],
{
    assert(a[k] == x.subrange(0, a.len() as int)[k]);
    assert(b[k] == x.subrange(0, b.len() as int)[k]);
}

/// Every emitted parameter starts with one of the fixed parameter names.
proof fn lemma_param_shape(
    res: ResolvedPreferences,
    colors: Option<String>,
    query: Option<SearchQuery>,
    i: int,
)
    requires
        0 <= i < spec_search_params(res, colors, query).len(),
    ensures
        ({
            let x = spec_search_params(res, colors, query)[i];
            ||| ("apikey="@.is_prefix_of(x) && res.credential is Some)
            ||| "categories="@.is_prefix_of(x)
            ||| "purity="@.is_prefix_of(x)
            ||| "page="@.is_prefix_of(x)
            ||| "seed="@.is_prefix_of(x)
            ||| "order="@.is_prefix_of(x)
            ||| "sorting="@.is_prefix_of(x)
            ||| ("topRange="@.is_prefix_of(x) && res.top_range is Some)
            ||| "atleast="@.is_prefix_of(x)
            ||| "resolutions="@.is_prefix_of(x)
            ||| "ratios="@.is_prefix_of(x)
            ||| ("colors="@.is_prefix_of(x) && colors is Some)
            ||| ("q="@.is_prefix_of(x) && colors is None && query is Some)
        }),
{
    let p1 = opt_param("apikey="@, opt_str_view(res.credential));
    let p2 = opt_param(
        "categories="@,
        match res.categories {
            Option::Some(m) => Option::Some(m.wire_spec()),
            Option::None => Option::<Seq<char>>::None,
        },
    );
    let p3 = opt_param(
        "purity="@,
        match res.purity {
            Option::Some(m) => Option::Some(m.wire_spec()),
            Option::None => Option::<Seq<char>>::None,
        },
    );
    let p4 = seq!["page="@ + dec_rep(res.page as int)];
    let p5 = opt_param(
        "seed="@,
        match res.seed {
            Option::Some(sd) => Option::Some(sd.0@),
            Option::None => Option::<Seq<char>>::None,
        },
    );
    let p6 = seq!["order="@ + res.order.wire_spec()];
    let p7 = seq!["sorting="@ + res.sorting.wire_spec()];
    let p8 = opt_param(
        "topRange="@,
        match res.top_range {
            Option::Some(t) => Option::Some(t.wire_spec()),
            Option::None => Option::<Seq<char>>::None,
        },
    );
    let p9 = opt_param("atleast="@, opt_str_view(res.at_least));
    let p10 = opt_param("resolutions="@, opt_str_view(res.resolutions));
    let p11 = opt_param("ratios="@, opt_str_view(res.ratios));
    let p12 = spec_method_param(colors, query);
    let p = spec_search_params(res, colors, query);
    assert(p == p1 + p2 + p3 + p4 + p5 + p6 + p7 + p8 + p9 + p10 + p11 + p12);
    let n1 = p1.len();
    let n2 = n1 + p2.len();
    let n3 = n2 + p3.len();
    let n4 = n3 + p4.len();
    let n5 = n4 + p5.len();
    let n6 = n5 + p6.len();
    let n7 = n6 + p7.len();
    let n8 = n7 + p8.len();
    let n9 = n8 + p9.len();
    let n10 = n9 + p10.len();
    let n11 = n10 + p11.len();
    if i < n1 {
        lemma_head_is_prefix("apikey="@, opt_str_view(res.credential)->0);
    } else if i < n2 {
        lemma_head_is_prefix("categories="@, res.categories->0.wire_spec());
    } else if i < n3 {
        lemma_head_is_prefix("purity="@, res.purity->0.wire_spec());
    } else if i < n4 {
        lemma_head_is_prefix("page="@, dec_rep(res.page as int));
    } else if i < n5 {
        lemma_head_is_prefix("seed="@, (res.seed->0).0@);
    } else if i < n6 {
        lemma_head_is_prefix("order="@, res.order.wire_spec());
    } else if i < n7 {
        lemma_head_is_prefix("sorting="@, res.sorting.wire_spec());
    } else if i < n8 {
        lemma_head_is_prefix("topRange="@, res.top_range->0.wire_spec());
    } else if i < n9 {
        lemma_head_is_prefix("atleast="@, opt_str_view(res.at_least)->0);
    } else if i < n10 {
        lemma_head_is_prefix("resolutions="@, opt_str_view(res.resolutions)->0);
    } else if i < n11 {
        lemma_head_is_prefix("ratios="@, opt_str_view(res.ratios)->0);
    } else {
        match colors {
            Option::Some(c) => {
                lemma_head_is_prefix("colors="@, c@);
            },
            Option::None => {
                lemma_head_is_prefix("q="@, form_encode_seq(query_text(query->0@)));
            },
        }
    }
}

/// Law: when the resolved preferences carry no credential — it is absent,
/// or the caller asked for it to be ignored — no emitted parameter is the
/// credential parameter.
pub proof fn lemma_absent_credential_omitted(
    res: ResolvedPreferences,
    colors: Option<String>,
    query: Option<SearchQuery>,
)
    requires
        res.credential is None,
    ensures
        forall|i: int|
            0 <= i < spec_search_params(res, colors, query).len() ==> !("apikey="@.is_prefix_of(
                #[trigger] spec_search_params(res, colors, query)[i],
            )),
{
    reveal_strlit("apikey=");
    reveal_strlit("categories=");
    reveal_strlit("purity=");
    reveal_strlit("page=");
    reveal_strlit("seed=");
    reveal_strlit("order=");
    reveal_strlit("sorting=");
    reveal_strlit("topRange=");
    reveal_strlit("atleast=");
    reveal_strlit("resolutions=");
    reveal_strlit("ratios=");
    reveal_strlit("colors=");
    reveal_strlit("q=");
    let p = spec_search_params(res, colors, query);
    assert forall|i: int| 0 <= i < p.len() implies !("apikey="@.is_prefix_of(p[i])) by {
        lemma_param_shape(res, colors, query, i);
        let x = p[i];
        if "apikey="@.is_prefix_of(x) {
            if "categories="@.is_prefix_of(x) {
                lemma_two_prefixes_agree("apikey="@, "categories="@, x, 0);
            } else if "purity="@.is_prefix_of(x) {
                lemma_two_prefixes_agree("apikey="@, "purity="@, x, 0);
            } else if "page="@.is_prefix_of(x) {
                lemma_two_prefixes_agree("apikey="@, "page="@, x, 0);
            } else if "seed="@.is_prefix_of(x) {
                lemma_two_prefixes_agree("apikey="@, "seed="@, x, 0);
            } else if "order="@.is_prefix_of(x) {
                lemma_two_prefixes_agree("apikey="@, "order="@, x, 0);
            } else if "sorting="@.is_prefix_of(x) {
                lemma_two_prefixes_agree("apikey="@, "sorting="@, x, 0);
            } else if "topRange="@.is_prefix_of(x) {
                lemma_two_prefixes_agree("apikey="@, "topRange="@, x, 0);
            } else if "atleast="@.is_prefix_of(x) {
                lemma_two_prefixes_agree("apikey="@, "atleast="@, x, 1);
            } else if "resolutions="@.is_prefix_of(x) {
                lemma_two_prefixes_agree("apikey="@, "resolutions="@, x, 0);
            } else if "ratios="@.is_prefix_of(x) {
                lemma_two_prefixes_agree("apikey="@, "ratios="@, x, 0);
            } else if "colors="@.is_prefix_of(x) {
                lemma_two_prefixes_agree("apikey="@, "colors="@, x, 0);
            } else {
                lemma_two_prefixes_agree("apikey="@, "q="@, x, 0);
            }
        }
    }
}

/// Law: a request without a resolved toplist range — in particular, any
/// request whose sorting is not toplist — never emits a `topRange`
/// parameter.
pub proof fn lemma_top_range_omitted(
    res: ResolvedPreferences,
    colors: Option<String>,
    query: Option<SearchQuery>,
)
    requires
        res.top_range is None,
    ensures
        forall|i: int|
            0 <= i < spec_search_params(res, colors, query).len() ==> !("topRange="@.is_prefix_of(
                #[trigger] spec_search_params(res, colors, query)[i],
            )),
{
    reveal_strlit("apikey=");
    reveal_strlit("categories=");
    reveal_strlit("purity=");
    reveal_strlit("page=");
    reveal_strlit("seed=");
    reveal_strlit("order=");
    reveal_strlit("sorting=");
    reveal_strlit("topRange=");
    reveal_strlit("atleast=");
    reveal_strlit("resolutions=");
    reveal_strlit("ratios=");
    reveal_strlit("colors=");
    reveal_strlit("q=");
    let p = spec_search_params(res, colors, query);
    assert forall|i: int| 0 <= i < p.len() implies !("topRange="@.is_prefix_of(p[i])) by {
        lemma_param_shape(res, colors, query, i);
        let x = p[i];
        if "topRange="@.is_prefix_of(x) {
            if "apikey="@.is_prefix_of(x) {
                lemma_two_prefixes_agree("topRange="@, "apikey="@, x, 0);
            } else if "categories="@.is_prefix_of(x) {
                lemma_two_prefixes_agree("topRange="@, "categories="@, x, 0);
            } else if "purity="@.is_prefix_of(x) {
                lemma_two_prefixes_agree("topRange="@, "purity="@, x, 0);
            } else if "page="@.is_prefix_of(x) {
                lemma_two_prefixes_agree("topRange="@, "page="@, x, 0);
            } else if "seed="@.is_prefix_of(x) {
                lemma_two_prefixes_agree("topRange="@, "seed="@, x, 0);
            } else if "order="@.is_prefix_of(x) {
                lemma_two_prefixes_agree("topRange="@, "order="@, x, 0);
            } else if "sorting="@.is_prefix_of(x) {
                lemma_two_prefixes_agree("topRange="@, "sorting="@, x, 0);
            } else if "atleast="@.is_prefix_of(x) {
                lemma_two_prefixes_agree("topRange="@, "atleast="@, x, 0);
            } else if "resolutions="@.is_prefix_of(x) {
                lemma_two_prefixes_agree("topRange="@, "resolutions="@, x, 0);
            } else if "ratios="@.is_prefix_of(x) {
                lemma_two_prefixes_agree("topRange="@, "ratios="@, x, 0);
            } else if "colors="@.is_prefix_of(x) {
                lemma_two_prefixes_agree("topRange="@, "colors="@, x, 0);
            } else {
                lemma_two_prefixes_agree("topRange="@, "q="@, x, 0);
            }
        }
    }
}

/// Law: when colors are supplied the query is silently dropped — the
/// request is the same as if no query had been given — and the search
/// method actually sent is the colors parameter, which comes last.
pub proof fn lemma_colors_beat_query(
    res: ResolvedPreferences,
    c: String,
    query: Option<SearchQuery>,
)
    ensures
        spec_search_params(res, Option::Some(c), query) == spec_search_params(
            res,
            Option::Some(c),
            Option::None,
        ),
        spec_search_params(res, Option::Some(c), query).last() == "colors="@ + c@,
{
    assert(spec_method_param(Option::Some(c), query) == spec_method_param(
        Option::Some(c),
        Option::None,
    ));
    assert(spec_search_params(res, Option::Some(c), query) =~~= spec_search_params(
        res,
        Option::Some(c),
        Option::None,
    ));
    let p = spec_search_params(res, Option::Some(c), query);
    let m = spec_method_param(Option::Some(c), query);
    assert(m.len() == 1);
    assert(p.last() == m[0]);
}

} // verus!
