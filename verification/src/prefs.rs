//! Search preferences and their resolution against a stored credential.
//!
//! A present, valid credential normally lets the account's own defaults
//! decide categories, purity, resolutions, ratios and the toplist range;
//! explicit override flags (or a missing credential) switch to the local
//! preferences instead.  The toplist range is only ever sent together with
//! toplist sorting.

use vstd::prelude::*;

use crate::strutil::{chars_of, lower_seq, opt_str_view, to_ascii_lower};

verus! {

/// The result orderings the API accepts.
#[derive(Debug, Clone, Copy, PartialEq, Eq, Structural)]
pub enum Sorting {
    DateAdded,
    Relevance,
    Random,
    Views,
    Favorites,
    Toplist,
}

impl Sorting {
    /// The parameter value naming this sorting on the wire.
    pub open spec fn wire_spec(self) -> Seq<char> {
        match self {
            Sorting::DateAdded => "date_added"@,
            Sorting::Relevance => "relevance"@,
            Sorting::Random => "random"@,
            Sorting::Views => "views"@,
            Sorting::Favorites => "favorites"@,
            Sorting::Toplist => "toplist"@,
        }
    }

    pub fn wire_str(&self) -> (r: &'static str)
        ensures
            r@ == self.wire_spec(),
    {
        match self {
            Sorting::DateAdded => "date_added",
            Sorting::Relevance => "relevance",
            Sorting::Random => "random",
            Sorting::Views => "views",
            Sorting::Favorites => "favorites",
            Sorting::Toplist => "toplist",
        }
    }
}

/// Ascending or descending results.
#[derive(Debug, Clone, Copy, PartialEq, Eq, Structural)]
pub enum Order {
    Asc,
    Desc,
}

impl Order {
    pub open spec fn wire_spec(self) -> Seq<char> {
        match self {
            Order::Asc => "asc"@,
            Order::Desc => "desc"@,
        }
    }

    pub fn wire_str(&self) -> (r: &'static str)
        ensures
            r@ == self.wire_spec(),
    {
        match self {
            Order::Asc => "asc",
            Order::Desc => "desc",
        }
    }
}

/// The time window of a toplist search.
#[derive(Debug, Clone, Copy, PartialEq, Eq, Structural)]
pub enum TopRange {
    OneDay,
    ThreeDays,
    OneWeek,
    OneMonth,
    ThreeMonths,
    SixMonths,
    OneYear,
}

impl TopRange {
    pub open spec fn wire_spec(self) -> Seq<char> {
        match self {
            TopRange::OneDay => "1d"@,
            TopRange::ThreeDays => "3d"@,
            TopRange::OneWeek => "1w"@,
            TopRange::OneMonth => "1m"@,
            TopRange::ThreeMonths => "3m"@,
            TopRange::SixMonths => "6m"@,
            TopRange::OneYear => "1y"@,
        }
    }

    pub fn wire_str(&self) -> (r: &'static str)
        ensures
            r@ == self.wire_spec(),
    {
        match self {
            TopRange::OneDay => "1d",
            TopRange::ThreeDays => "3d",
            TopRange::OneWeek => "1w",
            TopRange::OneMonth => "1m",
            TopRange::ThreeMonths => "3m",
            TopRange::SixMonths => "6m",
            TopRange::OneYear => "1y",
        }
    }
}

/// The character for one mask bit.
pub open spec fn mask_bit(b: bool) -> char {
    if b {
        '1'
    } else {
        '0'
    }
}

fn mask_bit_exec(b: bool) -> (c: char)
    ensures
        c == mask_bit(b),
{
    if b {
        '1'
    } else {
        '0'
    }
}

/// Which wallpaper categories a search includes, sent as a three-character
/// `1`/`0` string in the order general, anime, people.
#[derive(Debug, Clone, Copy, PartialEq, Eq, Structural)]
pub struct CategoryMask {
    pub general: bool,
    pub anime: bool,
    pub people: bool,
}

impl CategoryMask {
    pub open spec fn wire_spec(self) -> Seq<char> {
        seq![mask_bit(self.general), mask_bit(self.anime), mask_bit(self.people)]
    }

    pub fn to_wire(&self) -> (r: String)
        ensures
            r@ == self.wire_spec(),
    {
        let mut r = String::new();
        crate::strutil::push_char(&mut r, mask_bit_exec(self.general));
        crate::strutil::push_char(&mut r, mask_bit_exec(self.anime));
        crate::strutil::push_char(&mut r, mask_bit_exec(self.people));
        proof {
            assert(r@ =~= self.wire_spec());
        }
        r
    }

    /// Reads a three-character `1`/`0` mask.
    pub fn parse(s: &str) -> (r: Option<CategoryMask>)
        ensures
            match r {
                Option::Some(m) => m.wire_spec() == s@,
                Option::None => !spec_mask_shape(s@),
            },
    {
        match parse_mask_bits(s) {
            Option::Some((a, b, c)) => Option::Some(
                CategoryMask { general: a, anime: b, people: c },
            ),
            Option::None => Option::None,
        }
    }
}

/// Which purities a search includes, sent as a three-character `1`/`0`
/// string in the order sfw, sketchy, nsfw.
#[derive(Debug, Clone, Copy, PartialEq, Eq, Structural)]
pub struct PurityMask {
    pub sfw: bool,
    pub sketchy: bool,
    pub nsfw: bool,
}

impl PurityMask {
    pub open spec fn wire_spec(self) -> Seq<char> {
        seq![mask_bit(self.sfw), mask_bit(self.sketchy), mask_bit(self.nsfw)]
    }

    pub fn to_wire(&self) -> (r: String)
        ensures
            r@ == self.wire_spec(),
    {
        let mut r = String::new();
        crate::strutil::push_char(&mut r, mask_bit_exec(self.sfw));
        crate::strutil::push_char(&mut r, mask_bit_exec(self.sketchy));
        crate::strutil::push_char(&mut r, mask_bit_exec(self.nsfw));
        proof {
            assert(r@ =~= self.wire_spec());
        }
        r
    }

    /// Reads a three-character `1`/`0` mask.
    pub fn parse(s: &str) -> (r: Option<PurityMask>)
        ensures
            match r {
                Option::Some(m) => m.wire_spec() == s@,
                Option::None => !spec_mask_shape(s@),
            },
    {
        match parse_mask_bits(s) {
            Option::Some((a, b, c)) => Option::Some(PurityMask { sfw: a, sketchy: b, nsfw: c }),
            Option::None => Option::None,
        }
    }
}

/// Three characters, each `0` or `1`.
pub open spec fn spec_mask_shape(s: Seq<char>) -> bool {
    s.len() == 3 && (forall|i: int| 0 <= i < 3 ==> s[i] == '0' || s[i] == '1')
}

fn parse_mask_bits(s: &str) -> (r: Option<(bool, bool, bool)>)
    ensures
        match r {
            Option::Some((a, b, c)) => seq![mask_bit(a), mask_bit(b), mask_bit(c)] == s@,
            Option::None => !spec_mask_shape(s@),
        },
{
    if s.unicode_len() != 3 {
        return Option::None;
    }
    let mut bits: [bool; 3] = [false, false, false];
    let mut i: usize = 0;
    while i < 3
        invariant
            s@.len() == 3,
            i <= 3,
            forall|j: int| 0 <= j < i ==> mask_bit(bits@[j]) == s@[j],
        decreases 3 - i,
    {
        let c = s.get_char(i);
        if c == '1' {
            bits[i] = true;
        } else if c == '0' {
            bits[i] = false;
        } else {
            return Option::None;
        }
        i = i + 1;
    }
    proof {
        assert(seq![mask_bit(bits@[0]), mask_bit(bits@[1]), mask_bit(bits@[2])] =~= s@);
    }
    Option::Some((bits[0], bits[1], bits[2]))
}

/// An ASCII letter or digit.
pub open spec fn ascii_alnum(c: char) -> bool {
    ||| 48 <= c as u32 <= 57
    ||| 65 <= c as u32 <= 90
    ||| 97 <= c as u32 <= 122
}

/// Whether every character of the string is an ASCII letter or digit.
fn all_ascii_alnum(s: &str) -> (r: bool)
    ensures
        r == (forall|i: int| 0 <= i < s@.len() ==> ascii_alnum(s@[i])),
{
    let cs = chars_of(s);
    let mut i: usize = 0;
    while i < cs.len()
        invariant
            cs@ == s@,
            i <= cs@.len(),
            forall|j: int| 0 <= j < i ==> ascii_alnum(s@[j]),
        decreases cs@.len() - i,
    {
        let c = cs[i];
        let u = c as u32;
        if !((48 <= u && u <= 57) || (65 <= u && u <= 90) || (97 <= u && u <= 122)) {
            return false;
        }
        i = i + 1;
    }
    true
}

/// A six-character alphanumeric token that keeps random ordering stable
/// across pages.
#[derive(Debug, Clone)]
pub struct Seed(pub String);

/// The shape a seed must have.
pub open spec fn spec_seed_ok(s: Seq<char>) -> bool {
    s.len() == 6 && (forall|i: int| 0 <= i < s.len() ==> ascii_alnum(s[i]))
}

impl Seed {
    pub open spec fn wf(self) -> bool {
        spec_seed_ok(self.0@)
    }

    /// Accepts exactly six ASCII letters or digits.
    pub fn parse(s: &str) -> (r: Result<Seed, String>)
        ensures
            match r {
                Result::Ok(seed) => seed.0@ == s@ && spec_seed_ok(s@),
                Result::Err(m) => !spec_seed_ok(s@) && m@ == s@ + " is an invalid seed"@,
            },
    {
        if s.unicode_len() == 6 && all_ascii_alnum(s) {
            Result::Ok(Seed(String::from_str(s)))
        } else {
            Result::Err(String::from_str(s).concat(" is an invalid seed"))
        }
    }
}

/// The shape a stored credential must have to count as present: non-empty
/// and fully ASCII alphanumeric.
pub open spec fn spec_credential_ok(s: Seq<char>) -> bool {
    s.len() > 0 && (forall|i: int| 0 <= i < s.len() ==> ascii_alnum(s[i]))
}

/// Whether a string is usable as a credential.
pub fn credential_valid(s: &str) -> (r: bool)
    ensures
        r == spec_credential_ok(s@),
{
    s.unicode_len() > 0 && all_ascii_alnum(s)
}

/// A credential read from storage: anything malformed counts as absent
/// rather than as an error.
pub fn normalize_credential(c: Option<String>) -> (r: Option<String>)
    ensures
        match c {
            Option::Some(s) => if spec_credential_ok(s@) {
                r == Option::Some(s)
            } else {
                r is None
            },
            Option::None => r is None,
        },
{
    match c {
        Option::Some(s) => {
            if credential_valid(s.as_str()) {
                Option::Some(s)
            } else {
                Option::None
            }
        },
        Option::None => Option::None,
    }
}

/// The explicit command-line preferences, before resolution.
#[derive(Debug, Clone)]
pub struct SearchPreferences {
    pub categories: Option<CategoryMask>,
    pub purity: Option<PurityMask>,
    pub sorting: Option<Sorting>,
    pub order: Option<Order>,
    pub top_range: Option<TopRange>,
    pub at_least: Option<String>,
    pub resolutions: Option<String>,
    pub ratios: Option<String>,
    pub page: Option<u32>,
    pub seed: Option<Seed>,
}

/// How the caller overrides the account-default behaviour.
#[derive(Debug, Clone, Copy, PartialEq, Eq, Structural, Default)]
pub struct OverrideFlags {
    /// Leave the credential out of the request altogether.
    pub ignore_credential: bool,
    /// Send the local preferences even though a credential is present.
    pub override_preferences: bool,
}

/// A diagnostic emitted while resolving, for the caller to report.
#[derive(Debug, Clone, Copy, PartialEq, Eq, Structural)]
pub enum Notice {
    CredentialMissing,
    CredentialIgnored,
    PreferencesOverridden,
}

impl Notice {
    pub fn message(&self) -> (r: &'static str)
        ensures
            self is CredentialMissing ==> r@ == "api key missing or invalid - using local preferences"@,
            self is CredentialIgnored ==> r@ == "api key ignored"@,
            self is PreferencesOverridden ==> r@ == "account preferences overridden"@,
    {
        match self {
            Notice::CredentialMissing => "api key missing or invalid - using local preferences",
            Notice::CredentialIgnored => "api key ignored",
            Notice::PreferencesOverridden => "account preferences overridden",
        }
    }
}

/// What a search request actually sends, after the credential rules have
/// been applied.
#[derive(Debug, Clone)]
pub struct ResolvedPreferences {
    /// Attached only when present and not ignored.
    pub credential: Option<String>,
    pub categories: Option<CategoryMask>,
    pub purity: Option<PurityMask>,
    pub page: u32,
    pub seed: Option<Seed>,
    pub order: Order,
    pub sorting: Sorting,
    pub top_range: Option<TopRange>,
    pub at_least: Option<String>,
    pub resolutions: Option<String>,
    pub ratios: Option<String>,
}

/// Whether the local preference fields are sent rather than left to the
/// account defaults.
pub open spec fn spec_uses_local(cred: Option<String>, flags: OverrideFlags) -> bool {
    cred is None || flags.ignore_credential || flags.override_preferences
}

/// The effective sorting, defaulting to date added.
pub open spec fn spec_sorting_eff(prefs: SearchPreferences) -> Sorting {
    match prefs.sorting {
        Option::Some(s) => s,
        Option::None => Sorting::DateAdded,
    }
}

/// The diagnostics resolution reports.
pub open spec fn spec_notices(cred: Option<String>, flags: OverrideFlags) -> Seq<Notice> {
    if cred is None {
        seq![Notice::CredentialMissing]
    } else if flags.ignore_credential {
        seq![Notice::CredentialIgnored]
    } else if flags.override_preferences {
        seq![Notice::PreferencesOverridden]
    } else {
        Seq::empty()
    }
}

/// Applies the credential rules to the explicit preferences.
///
/// With a present credential and no override flags, categories, purity,
/// resolutions, ratios and the toplist range are all omitted so that the
/// account defaults apply; otherwise the explicit values are kept, with
/// resolution and ratio lists lower-cased for the wire.  The toplist range
/// survives only under toplist sorting.  The credential itself is attached
/// exactly when it is present and not ignored.
pub fn resolve(prefs: &SearchPreferences, credential: &Option<String>, flags: &OverrideFlags) -> (r:
    (ResolvedPreferences, Vec<Notice>))
    ensures
        ({
            let res = r.0;
            let local = spec_uses_local(*credential, *flags);
            &&& res.credential == (if credential is Some && !flags.ignore_credential {
                *credential
            } else {
                Option::None
            })
            &&& res.categories == (if local {
                prefs.categories
            } else {
                Option::None
            })
            &&& res.purity == (if local {
                prefs.purity
            } else {
                Option::None
            })
            &&& res.page == (match prefs.page {
                Option::Some(p) => p,
                Option::None => 1u32,
            })
            &&& res.seed == prefs.seed
            &&& res.order == (match prefs.order {
                Option::Some(o) => o,
                Option::None => Order::Desc,
            })
            &&& res.sorting == spec_sorting_eff(*prefs)
            &&& res.top_range == (if local && spec_sorting_eff(*prefs) == Sorting::Toplist {
                prefs.top_range
            } else {
                Option::<TopRange>::None
            })
            &&& opt_str_view(res.at_least) == (match prefs.at_least {
                Option::Some(s) => Option::Some(lower_seq(s@)),
                Option::None => Option::<Seq<char>>::None,
            })
            &&& opt_str_view(res.resolutions) == (if local {
                match prefs.resolutions {
                    Option::Some(s) => Option::Some(lower_seq(s@)),
                    Option::None => Option::<Seq<char>>::None,
                }
            } else {
                Option::<Seq<char>>::None
            })
            &&& opt_str_view(res.ratios) == (if local {
                match prefs.ratios {
                    Option::Some(s) => Option::Some(lower_seq(s@)),
                    Option::None => Option::<Seq<char>>::None,
                }
            } else {
                Option::<Seq<char>>::None
            })
            &&& r.1@ == spec_notices(*credential, *flags)
        }),
{
    let local = credential.is_none() || flags.ignore_credential || flags.override_preferences;

    let mut notices: Vec<Notice> = Vec::new();
    if credential.is_none() {
        notices.push(Notice::CredentialMissing);
    } else if flags.ignore_credential {
        notices.push(Notice::CredentialIgnored);
    } else if flags.override_preferences {
        notices.push(Notice::PreferencesOverridden);
    }
    proof {
        assert(notices@ =~= spec_notices(*credential, *flags));
    }

    let cred_out: Option<String> = if flags.ignore_credential {
        Option::None
    } else {
        match credential {
            Option::Some(c) => Option::Some(c.clone()),
            Option::None => Option::None,
        }
    };

    let sorting = match &prefs.sorting {
        Option::Some(s) => *s,
        Option::None => Sorting::DateAdded,
    };
    let order = match &prefs.order {
        Option::Some(o) => *o,
        Option::None => Order::Desc,
    };
    let page = match prefs.page {
        Option::Some(p) => p,
        Option::None => 1,
    };
    let seed = match &prefs.seed {
        Option::Some(sd) => Option::Some(Seed(sd.0.clone())),
        Option::None => Option::None,
    };
    let at_least = match &prefs.at_least {
        Option::Some(s) => Option::Some(to_ascii_lower(s.as_str())),
        Option::None => Option::None,
    };
    let top_range = if local && matches!(sorting, Sorting::Toplist) {
        prefs.top_range
    } else {
        Option::None
    };
    let resolutions = if local {
        match &prefs.resolutions {
            Option::Some(s) => Option::Some(to_ascii_lower(s.as_str())),
            Option::None => Option::None,
        }
    } else {
        Option::None
    };
    let ratios = if local {
        match &prefs.ratios {
            Option::Some(s) => Option::Some(to_ascii_lower(s.as_str())),
            Option::None => Option::None,
        }
    } else {
        Option::None
    };

    let res = ResolvedPreferences {
        credential: cred_out,
        categories: if local {
            prefs.categories
        } else {
            Option::None
        },
        purity: if local {
            prefs.purity
        } else {
            Option::None
        },
        page,
        seed,
        order,
        sorting,
        top_range,
        at_least,
        resolutions,
        ratios,
    };
    (res, notices)
}

} // verus!
