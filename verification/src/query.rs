//! The free-text search grammar: space-separated tokens, where a token
//! with exactly one `:` is a `key:value` directive (`id`, `type`, `like`),
//! a token starting with `@` names a user, and anything else is a tag kept
//! verbatim.  An `id:` directive discards everything else and ends the
//! parse; empty tokens are dropped, so an empty input parses to a query
//! with every field absent.

use vstd::prelude::*;

use crate::strutil::{chars_eq_str, chars_of, opt_str_view, string_from_chars, subvec_chars};

verus! {

/// The wallpaper file types the `type:` directive accepts.
#[derive(Debug, Clone, Copy, PartialEq, Eq, Structural)]
pub enum FileType {
    Png,
    Jpg,
}

impl FileType {
    /// How the file type is written in a query string.
    pub open spec fn wire_spec(self) -> Seq<char> {
        match self {
            FileType::Png => "png"@,
            FileType::Jpg => "jpg"@,
        }
    }

    pub fn wire_str(&self) -> (r: &'static str)
        ensures
            r@ == self.wire_spec(),
    {
        match self {
            FileType::Png => "png",
            FileType::Jpg => "jpg",
        }
    }
}

/// A parsed free-text search query.
#[derive(Debug, Clone)]
pub struct SearchQuery {
    /// Tag tokens in input order, with their `+`/`-` prefixes kept as
    /// written; `None` rather than an empty list when there are none.
    pub tags: Option<Vec<String>>,
    /// The name after the last `@` token, if any.
    pub username: Option<String>,
    /// The value of an `id:` directive; excludes every other field.
    pub id: Option<String>,
    /// The value of a `type:` directive.
    pub filetype: Option<FileType>,
    /// The value of a `like:` directive.
    pub like: Option<String>,
}

/// The mathematical shape of a parsed query: absent tags are the empty
/// sequence.
#[verifier::ext_equal]
pub struct QueryModel {
    pub tags: Seq<Seq<char>>,
    pub username: Option<Seq<char>>,
    pub id: Option<Seq<char>>,
    pub filetype: Option<FileType>,
    pub like: Option<Seq<char>>,
}

impl View for SearchQuery {
    type V = QueryModel;

    open spec fn view(&self) -> QueryModel {
        QueryModel {
            tags: match self.tags {
                Option::Some(v) => v.deep_view(),
                Option::None => Seq::empty(),
            },
            username: match self.username {
                Option::Some(u) => Option::Some(u@),
                Option::None => Option::None,
            },
            id: match self.id {
                Option::Some(u) => Option::Some(u@),
                Option::None => Option::None,
            },
            filetype: self.filetype,
            like: match self.like {
                Option::Some(u) => Option::Some(u@),
                Option::None => Option::None,
            },
        }
    }
}

impl SearchQuery {
    /// An `id:` directive excludes every other field, and tags are never
    /// stored as an empty list.
    pub open spec fn wf(self) -> bool {
        &&& (self.id is Some ==> self@.tags.len() == 0 && self.username is None
            && self.filetype is None && self.like is None)
        &&& (self.tags matches Some(v) ==> v@.len() > 0)
    }
}

/// Why a query string was rejected.
#[derive(Debug, Clone)]
pub enum ParseError {
    /// A `type:` directive named something other than `png` or `jpg`.
    InvalidFiletype,
    /// A directive whose key is none of `id`, `type` and `like`.
    UnrecognizedDirective { key: String, value: String },
}

/// The mathematical shape of a parse error.
#[verifier::ext_equal]
pub enum QueryParseErr {
    BadFiletype,
    BadDirective { key: Seq<char>, value: Seq<char> },
}

impl View for ParseError {
    type V = QueryParseErr;

    open spec fn view(&self) -> QueryParseErr {
        match self {
            ParseError::InvalidFiletype => QueryParseErr::BadFiletype,
            ParseError::UnrecognizedDirective { key, value } => QueryParseErr::BadDirective {
                key: key@,
                value: value@,
            },
        }
    }
}

/// How many times the character occurs in the sequence.
pub open spec fn count_char(s: Seq<char>, c: char) -> int
    decreases s.len(),
{
    if s.len() == 0 {
        0
    } else {
        count_char(s.drop_last(), c) + if s.last() == c {
            1int
        } else {
            0int
        }
    }
}

/// The index of the first occurrence of the character, or the length of
/// the sequence when it does not occur.
pub open spec fn find_char(s: Seq<char>, c: char) -> int
    decreases s.len(),
{
    if s.len() == 0 {
        0
    } else if s[0] == c {
        0
    } else {
        1 + find_char(s.drop_first(), c)
    }
}

pub proof fn lemma_find_char_props(s: Seq<char>, c: char)
    ensures
        0 <= find_char(s, c) <= s.len(),
        find_char(s, c) < s.len() ==> s[find_char(s, c)] == c,
        forall|j: int| 0 <= j < find_char(s, c) ==> s[j] != c,
        find_char(s, c) == s.len() ==> forall|j: int| 0 <= j < s.len() ==> s[j] != c,
    decreases s.len(),
{
    if s.len() == 0 {
    } else if s[0] == c {
    } else {
        lemma_find_char_props(s.drop_first(), c);
        let f = find_char(s, c);
        let t = s.drop_first();
        assert forall|j: int| 0 <= j < f implies s[j] != c by {
            if j > 0 {
                assert(s[j] == t[j - 1]);
            }
        }
        if f == s.len() {
            assert forall|j: int| 0 <= j < s.len() implies s[j] != c by {
                if j > 0 {
                    assert(s[j] == t[j - 1]);
                }
            }
        }
    }
}

/// The input split on every occurrence of the separator: always at least
/// one part, and `n` separators yield `n + 1` parts.
pub open spec fn split_at_sep(s: Seq<char>, sep: char) -> Seq<Seq<char>>
    decreases s.len(),
{
    if s.len() == 0 {
        seq![Seq::empty()]
    } else {
        let rest = split_at_sep(s.drop_first(), sep);
        if s[0] == sep {
            seq![Seq::<char>::empty()] + rest
        } else {
            seq![seq![s[0]] + rest[0]] + rest.drop_first()
        }
    }
}

pub proof fn lemma_split_nonempty(s: Seq<char>, sep: char)
    ensures
        split_at_sep(s, sep).len() >= 1,
    decreases s.len(),
{
    if s.len() > 0 {
        lemma_split_nonempty(s.drop_first(), sep);
    }
}

/// Splits a character vector on a separator character.
pub fn split_chars(v: &Vec<char>, sep: char) -> (r: Vec<Vec<char>>)
    ensures
        r.deep_view() == split_at_sep(v@, sep),
{
    let mut done: Vec<Vec<char>> = Vec::new();
    let mut cur: Vec<char> = Vec::new();
    let mut i: usize = 0;
    proof {
        lemma_split_nonempty(v@, sep);
        assert(v@.subrange(0, v@.len() as int) =~= v@);
        assert(done.deep_view() + cons_first(cur@, split_at_sep(v@, sep)) =~~= split_at_sep(
            v@,
            sep,
        ));
    }
    while i < v.len()
        invariant
            i <= v@.len(),
            split_at_sep(v@, sep) == done.deep_view() + cons_first(
                cur@,
                split_at_sep(v@.subrange(i as int, v@.len() as int), sep),
            ),
        decreases v@.len() - i,
    {
        let ghost rem = v@.subrange(i as int, v@.len() as int);
        let ghost rem2 = v@.subrange(i + 1 as int, v@.len() as int);
        proof {
            assert(rem.len() > 0);
            assert(rem[0] == v@[i as int]);
            assert(rem.drop_first() =~= rem2);
            lemma_split_nonempty(rem2, sep);
        }
        let c = v[i];
        let ghost prev_done = done.deep_view();
        let ghost prev_cur = cur@;
        if c == sep {
            proof {
                assert(split_at_sep(rem, sep) == seq![Seq::<char>::empty()] + split_at_sep(
                    rem2,
                    sep,
                ));
            }
            done.push(cur);
            cur = Vec::new();
            proof {
                assert(prev_done + cons_first(prev_cur, split_at_sep(rem, sep))
                    =~~= done.deep_view() + cons_first(cur@, split_at_sep(rem2, sep)));
            }
        } else {
            proof {
                let rest = split_at_sep(rem2, sep);
                assert(split_at_sep(rem, sep) == seq![seq![rem[0]] + rest[0]] + rest.drop_first());
            }
            cur.push(c);
            proof {
                assert(prev_done + cons_first(prev_cur, split_at_sep(rem, sep))
                    =~~= done.deep_view() + cons_first(cur@, split_at_sep(rem2, sep)));
            }
        }
        i = i + 1;
    }
    let ghost prev_done = done.deep_view();
    let ghost prev_cur = cur@;
    proof {
        let rem = v@.subrange(i as int, v@.len() as int);
        assert(rem =~= Seq::<char>::empty());
        assert(split_at_sep(rem, sep) == seq![Seq::<char>::empty()]);
    }
    done.push(cur);
    proof {
        assert(done.deep_view() =~~= prev_done + cons_first(prev_cur, seq![Seq::<char>::empty()]));
    }
    done
}

/// The first part extended at the front by `a`.
pub open spec fn cons_first(a: Seq<char>, parts: Seq<Seq<char>>) -> Seq<Seq<char>> {
    seq![a + parts[0]] + parts.drop_first()
}

/// No occurrences means a count of zero, and conversely.
pub proof fn lemma_count_zero(s: Seq<char>, c: char)
    ensures
        (count_char(s, c) == 0) <==> (forall|j: int| 0 <= j < s.len() ==> s[j] != c),
        count_char(s, c) >= 0,
    decreases s.len(),
{
    if s.len() > 0 {
        lemma_count_zero(s.drop_last(), c);
        if count_char(s, c) == 0 {
            assert forall|j: int| 0 <= j < s.len() implies s[j] != c by {
                if j < s.len() - 1 {
                    assert(s[j] == s.drop_last()[j]);
                }
            }
        }
        if forall|j: int| 0 <= j < s.len() ==> s[j] != c {
            assert(forall|j: int| 0 <= j < s.len() - 1 ==> s.drop_last()[j] == s[j]);
        }
    }
}

/// How one token of the grammar is classified.
pub enum TokenKind {
    Empty,
    Directive { key: Seq<char>, value: Seq<char> },
    User { name: Seq<char> },
    Plain,
}

/// Tokens holding exactly one `:` are directives; otherwise a leading `@`
/// names a user, the empty token is dropped, and the rest are tags.
pub open spec fn token_kind(t: Seq<char>) -> TokenKind {
    if t.len() == 0 {
        TokenKind::Empty
    } else if count_char(t, ':') == 1 {
        TokenKind::Directive {
            key: t.subrange(0, find_char(t, ':')),
            value: t.subrange(find_char(t, ':') + 1, t.len() as int),
        }
    } else if t[0] == '@' {
        TokenKind::User { name: t.drop_first() }
    } else {
        TokenKind::Plain
    }
}

/// The query with every field absent.
pub open spec fn empty_model() -> QueryModel {
    QueryModel {
        tags: Seq::empty(),
        username: Option::None,
        id: Option::None,
        filetype: Option::None,
        like: Option::None,
    }
}

/// The query an `id:` directive short-circuits to.
pub open spec fn id_only(value: Seq<char>) -> QueryModel {
    QueryModel {
        tags: Seq::empty(),
        username: Option::None,
        id: Option::Some(value),
        filetype: Option::None,
        like: Option::None,
    }
}

/// One pass over the tokens, from the left, accumulating into `acc`;
/// an `id:` directive returns immediately with only `id` set.
pub open spec fn parse_toks(toks: Seq<Seq<char>>, acc: QueryModel) -> Result<
    QueryModel,
    QueryParseErr,
>
    decreases toks.len(),
{
    if toks.len() == 0 {
        Result::Ok(acc)
    } else {
        let rest = toks.drop_first();
        match token_kind(toks[0]) {
            TokenKind::Empty => parse_toks(rest, acc),
            TokenKind::Directive { key, value } => {
                if key == "id"@ {
                    Result::Ok(id_only(value))
                } else if key == "type"@ {
                    if value == "png"@ {
                        parse_toks(
                            rest,
                            QueryModel { filetype: Option::Some(FileType::Png), ..acc },
                        )
                    } else if value == "jpg"@ {
                        parse_toks(
                            rest,
                            QueryModel { filetype: Option::Some(FileType::Jpg), ..acc },
                        )
                    } else {
                        Result::Err(QueryParseErr::BadFiletype)
                    }
                } else if key == "like"@ {
                    parse_toks(rest, QueryModel { like: Option::Some(value), ..acc })
                } else {
                    Result::Err(QueryParseErr::BadDirective { key, value })
                }
            },
            TokenKind::User { name } => parse_toks(
                rest,
                QueryModel { username: Option::Some(name), ..acc },
            ),
            TokenKind::Plain => parse_toks(rest, QueryModel { tags: acc.tags.push(toks[0]), ..acc }),
        }
    }
}

/// What parsing a whole query string means.
pub open spec fn spec_parse_query(s: Seq<char>) -> Result<QueryModel, QueryParseErr> {
    parse_toks(split_at_sep(s, ' '), empty_model())
}

pub open spec fn acc_model(
    tags: Seq<Seq<char>>,
    username: Option<String>,
    filetype: Option<FileType>,
    like: Option<String>,
) -> QueryModel {
    QueryModel {
        tags: tags,
        username: opt_str_view(username),
        id: Option::None,
        filetype: filetype,
        like: opt_str_view(like),
    }
}

impl SearchQuery {
    /// Parses the free-text search grammar.
    pub fn parse(s: &str) -> (r: Result<SearchQuery, ParseError>)
        ensures
            match (r, spec_parse_query(s@)) {
                (Result::Ok(q), Result::Ok(m)) => q@ == m && q.wf(),
                (Result::Err(e), Result::Err(m)) => e@ == m,
                _ => false,
            },
    {
        let cs = chars_of(s);
        let toks = split_chars(&cs, ' ');
        let ghost all = toks.deep_view();
        let mut tags: Vec<String> = Vec::new();
        let mut username: Option<String> = Option::None;
        let mut filetype: Option<FileType> = Option::None;
        let mut like: Option<String> = Option::None;
        let mut ti: usize = 0;
        proof {
            assert(all.subrange(0, all.len() as int) =~= all);
            assert(acc_model(tags.deep_view(), username, filetype, like) =~~= empty_model());
        }
        while ti < toks.len()
            invariant
                ti <= toks@.len(),
                all == toks.deep_view(),
                all == split_at_sep(s@, ' '),
                all.len() == toks@.len(),
                parse_toks(all, empty_model()) == parse_toks(
                    all.subrange(ti as int, all.len() as int),
                    acc_model(tags.deep_view(), username, filetype, like),
                ),
            decreases toks@.len() - ti,
        {
            let t = &toks[ti];
            let ghost tv = all[ti as int];
            let ghost suffix = all.subrange(ti as int, all.len() as int);
            let ghost acc0 = acc_model(tags.deep_view(), username, filetype, like);
            proof {
                assert(tv =~= toks@[ti as int]@);
                assert(suffix[0] == tv);
                assert(suffix.len() > 0);
                assert(suffix.drop_first() =~= all.subrange(ti + 1 as int, all.len() as int));
            }
            let n = t.len();
            // Count the colons and locate the first one.
            let mut cnt: usize = 0;
            let mut first: usize = n;
            let mut j: usize = 0;
            while j < n
                invariant
                    j <= n,
                    n == tv.len(),
                    tv == t@,
                    cnt == count_char(tv.subrange(0, j as int), ':'),
                    cnt <= j,
                    first == n || first < j,
                    first == n ==> forall|k: int| 0 <= k < j ==> tv[k] != ':',
                    first < n ==> tv[first as int] == ':' && (forall|k: int|
                        0 <= k < first ==> tv[k] != ':'),
                decreases n - j,
            {
                if t[j] == ':' {
                    if first == n {
                        first = j;
                    }
                    cnt = cnt + 1;
                }
                proof {
                    assert(tv.subrange(0, j + 1 as int).drop_last() =~= tv.subrange(0, j as int));
                    assert(tv.subrange(0, j + 1 as int).last() == tv[j as int]);
                }
                j = j + 1;
            }
            proof {
                assert(tv.subrange(0, n as int) =~= tv);
            }
            if n == 0 {
                proof {
                    assert(token_kind(tv) is Empty);
                    assert(parse_toks(suffix, acc0) == parse_toks(suffix.drop_first(), acc0));
                }
            } else if cnt == 1 {
                proof {
                    lemma_count_zero(tv, ':');
                    lemma_find_char_props(tv, ':');
                    assert(first < n);
                    assert(find_char(tv, ':') == first);
                }
                let key = subvec_chars(t, 0, first);
                let value = subvec_chars(t, first + 1, n);
                let ghost kind = token_kind(tv);
                proof {
                    assert(kind matches TokenKind::Directive { key: k, value: v } && k == key@ && v
                        == value@);
                }
                if chars_eq_str(&key, "id") {
                    let q = SearchQuery {
                        tags: Option::None,
                        username: Option::None,
                        id: Option::Some(string_from_chars(&value)),
                        filetype: Option::None,
                        like: Option::None,
                    };
                    proof {
                        assert(parse_toks(suffix, acc0) == Result::<
                            QueryModel,
                            QueryParseErr,
                        >::Ok(id_only(value@)));
                        assert(q@ =~~= id_only(value@));
                    }
                    return Result::Ok(q);
                } else if chars_eq_str(&key, "type") {
                    if chars_eq_str(&value, "png") {
                        filetype = Option::Some(FileType::Png);
                    } else if chars_eq_str(&value, "jpg") {
                        filetype = Option::Some(FileType::Jpg);
                    } else {
                        return Result::Err(ParseError::InvalidFiletype);
                    }
                    proof {
                        assert(acc_model(tags.deep_view(), username, filetype, like) =~~= QueryModel {
                            filetype: filetype,
                            ..acc0
                        });
                        assert(parse_toks(suffix, acc0) == parse_toks(
                            suffix.drop_first(),
                            acc_model(tags.deep_view(), username, filetype, like),
                        ));
                    }
                } else if chars_eq_str(&key, "like") {
                    like = Option::Some(string_from_chars(&value));
                    proof {
                        assert(acc_model(tags.deep_view(), username, filetype, like) =~~= QueryModel {
                            like: Option::Some(value@),
                            ..acc0
                        });
                        assert(parse_toks(suffix, acc0) == parse_toks(
                            suffix.drop_first(),
                            acc_model(tags.deep_view(), username, filetype, like),
                        ));
                    }
                } else {
                    return Result::Err(
                        ParseError::UnrecognizedDirective {
                            key: string_from_chars(&key),
                            value: string_from_chars(&value),
                        },
                    );
                }
            } else if t[0] == '@' {
                let name = subvec_chars(t, 1, n);
                username = Option::Some(string_from_chars(&name));
                proof {
                    assert(tv.subrange(1, n as int) =~= tv.drop_first());
                    assert(token_kind(tv) matches TokenKind::User { name: m } && m == name@);
                    assert(acc_model(tags.deep_view(), username, filetype, like) =~~= QueryModel {
                        username: Option::Some(name@),
                        ..acc0
                    });
                    assert(parse_toks(suffix, acc0) == parse_toks(
                        suffix.drop_first(),
                        acc_model(tags.deep_view(), username, filetype, like),
                    ));
                }
            } else {
                let ghost prev_tags = tags.deep_view();
                tags.push(string_from_chars(t));
                proof {
                    assert(token_kind(tv) is Plain);
                    assert(tags.deep_view() =~~= prev_tags.push(tv));
                    assert(acc_model(tags.deep_view(), username, filetype, like) =~~= QueryModel {
                        tags: acc0.tags.push(tv),
                        ..acc0
                    });
                    assert(parse_toks(suffix, acc0) == parse_toks(
                        suffix.drop_first(),
                        acc_model(tags.deep_view(), username, filetype, like),
                    ));
                }
            }
            ti = ti + 1;
        }
        proof {
            assert(all.subrange(ti as int, all.len() as int) =~= Seq::<Seq<char>>::empty());
        }
        let q = if tags.len() > 0 {
            SearchQuery {
                tags: Option::Some(tags),
                username: username,
                id: Option::None,
                filetype: filetype,
                like: like,
            }
        } else {
            SearchQuery {
                tags: Option::None,
                username: username,
                id: Option::None,
                filetype: filetype,
                like: like,
            }
        };
        proof {
            assert(q@ =~~= acc_model(
                match q.tags {
                    Option::Some(v) => v.deep_view(),
                    Option::None => Seq::empty(),
                },
                username,
                filetype,
                like,
            ));
        }
        Result::Ok(q)
    }
}

impl ParseError {
    /// A human-readable account of the error, as the command line prints it.
    pub fn message(&self) -> (m: String)
        ensures
            self is InvalidFiletype ==> m@ == "Invalid file type - only accept png or jpg"@,
            (self matches ParseError::UnrecognizedDirective { key, value } ==> m@ == key@ + ":"@
                + value@ + " is not a valid query"@),
    {
        match self {
            ParseError::InvalidFiletype => String::from_str(
                "Invalid file type - only accept png or jpg",
            ),
            ParseError::UnrecognizedDirective { key, value } => {
                let mut m = key.clone();
                m.append(":");
                m.append(value.as_str());
                m.append(" is not a valid query");
                proof {
                    assert(m@ =~= key@ + ":"@ + value@ + " is not a valid query"@);
                }
                m
            },
        }
    }
}

/// Whether a token is an `id:` directive.
pub open spec fn is_id_directive(t: Seq<char>) -> bool {
    token_kind(t) matches TokenKind::Directive { key, .. } && key == "id"@
}

proof fn lemma_parse_toks_id(toks: Seq<Seq<char>>, acc: QueryModel)
    requires
        parse_toks(toks, acc) is Ok,
        exists|i: int| 0 <= i < toks.len() && is_id_directive(toks[i]),
    ensures
        (parse_toks(toks, acc)->Ok_0).id is Some,
        (parse_toks(toks, acc)->Ok_0).tags.len() == 0,
        (parse_toks(toks, acc)->Ok_0).username is None,
        (parse_toks(toks, acc)->Ok_0).filetype is None,
        (parse_toks(toks, acc)->Ok_0).like is None,
    decreases toks.len(),
{
    let i = choose|i: int| 0 <= i < toks.len() && is_id_directive(toks[i]);
    if is_id_directive(toks[0]) {
    } else {
        assert(toks.drop_first()[i - 1] == toks[i]);
        match token_kind(toks[0]) {
            TokenKind::Empty => lemma_parse_toks_id(toks.drop_first(), acc),
            TokenKind::Directive { key, value } => {
                if key == "type"@ {
                    if value == "png"@ {
                        lemma_parse_toks_id(
                            toks.drop_first(),
                            QueryModel { filetype: Option::Some(FileType::Png), ..acc },
                        );
                    } else if value == "jpg"@ {
                        lemma_parse_toks_id(
                            toks.drop_first(),
                            QueryModel { filetype: Option::Some(FileType::Jpg), ..acc },
                        );
                    }
                } else if key == "like"@ {
                    lemma_parse_toks_id(
                        toks.drop_first(),
                        QueryModel { like: Option::Some(value), ..acc },
                    );
                }
            },
            TokenKind::User { name } => {
                lemma_parse_toks_id(
                    toks.drop_first(),
                    QueryModel { username: Option::Some(name), ..acc },
                );
            },
            TokenKind::Plain => {
                lemma_parse_toks_id(
                    toks.drop_first(),
                    QueryModel { tags: acc.tags.push(toks[0]), ..acc },
                );
            },
        }
    }
}

/// Law: a query string holding an `id:` directive that parses successfully
/// parses to a query with only `id` set, whatever stands around it.
pub proof fn lemma_id_directive_excludes_others(s: Seq<char>)
    requires
        spec_parse_query(s) is Ok,
        exists|i: int|
            0 <= i < split_at_sep(s, ' ').len() && is_id_directive(split_at_sep(s, ' ')[i]),
    ensures
        (spec_parse_query(s)->Ok_0).id is Some,
        (spec_parse_query(s)->Ok_0).tags.len() == 0,
        (spec_parse_query(s)->Ok_0).username is None,
        (spec_parse_query(s)->Ok_0).filetype is None,
        (spec_parse_query(s)->Ok_0).like is None,
{
    lemma_parse_toks_id(split_at_sep(s, ' '), empty_model());
}

/// The tokens classified as plain tags, in order.
pub open spec fn plain_tags(toks: Seq<Seq<char>>) -> Seq<Seq<char>>
    decreases toks.len(),
{
    if toks.len() == 0 {
        Seq::empty()
    } else {
        (if token_kind(toks[0]) is Plain {
            seq![toks[0]]
        } else {
            Seq::<Seq<char>>::empty()
        }) + plain_tags(toks.drop_first())
    }
}

proof fn lemma_parse_toks_no_directive(toks: Seq<Seq<char>>, acc: QueryModel)
    requires
        forall|i: int| 0 <= i < toks.len() ==> !(token_kind(toks[i]) is Directive),
    ensures
        parse_toks(toks, acc) is Ok,
        (parse_toks(toks, acc)->Ok_0).tags == acc.tags + plain_tags(toks),
    decreases toks.len(),
{
    if toks.len() == 0 {
        assert(acc.tags + plain_tags(toks) =~= acc.tags);
    } else {
        let rest = toks.drop_first();
        assert(forall|i: int| 0 <= i < rest.len() ==> rest[i] == toks[i + 1]);
        match token_kind(toks[0]) {
            TokenKind::Empty => {
                lemma_parse_toks_no_directive(rest, acc);
            },
            TokenKind::Directive { .. } => {
                assert(false);
            },
            TokenKind::User { name } => {
                lemma_parse_toks_no_directive(
                    rest,
                    QueryModel { username: Option::Some(name), ..acc },
                );
            },
            TokenKind::Plain => {
                let acc2 = QueryModel { tags: acc.tags.push(toks[0]), ..acc };
                lemma_parse_toks_no_directive(rest, acc2);
                assert(acc.tags.push(toks[0]) + plain_tags(rest) =~= acc.tags + plain_tags(toks));
            },
        }
    }
}

/// Law: a query string without directives always parses, and its tags are
/// exactly the plain tokens in input order.
pub proof fn lemma_tag_order_preserved(s: Seq<char>)
    requires
        forall|i: int|
            0 <= i < split_at_sep(s, ' ').len() ==> !(token_kind(split_at_sep(s, ' ')[i])
                is Directive),
    ensures
        spec_parse_query(s) is Ok,
        (spec_parse_query(s)->Ok_0).tags == plain_tags(split_at_sep(s, ' ')),
{
    lemma_parse_toks_no_directive(split_at_sep(s, ' '), empty_model());
    assert(empty_model().tags + plain_tags(split_at_sep(s, ' ')) =~= plain_tags(
        split_at_sep(s, ' '),
    ));
}

} // verus!
