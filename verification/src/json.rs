//! A plain tree model of JSON values.
//!
//! The decoder works on this type; the surrounding program parses response
//! text into it.  Numbers that are not integers (or do not fit `i64`) keep
//! their lexeme as text: the API's schemas never put them in a field the
//! client reads, but they must survive inside ignored fields.

use vstd::prelude::*;

use crate::strutil::{in_i32_range, parse_i32, spec_parse_int, str_eq};

verus! {

/// One JSON value.
#[derive(Debug)]
pub enum Json {
    Null,
    Bool(bool),
    Int(i64),
    /// A numeric literal outside the `i64` range, or not an integer,
    /// kept as written.
    BigNum(String),
    Str(String),
    Arr(Vec<Json>),
    Obj(Vec<(String, Json)>),
}

/// The first value under the key, searching left to right.
pub open spec fn obj_lookup(fields: Seq<(String, Json)>, key: Seq<char>) -> Option<Json>
    decreases fields.len(),
{
    if fields.len() == 0 {
        Option::None
    } else if fields[0].0@ == key {
        Option::Some(fields[0].1)
    } else {
        obj_lookup(fields.drop_first(), key)
    }
}

/// The value a key holds in an object; `None` for a missing key or a
/// value that is not an object.
pub open spec fn spec_get(j: Json, key: Seq<char>) -> Option<Json> {
    match j {
        Json::Obj(fields) => obj_lookup(fields@, key),
        _ => Option::None,
    }
}

/// The string a key holds, when it holds one.
pub open spec fn spec_get_str(j: Json, key: Seq<char>) -> Option<Seq<char>> {
    match spec_get(j, key) {
        Option::Some(Json::Str(s)) => Option::Some(s@),
        _ => Option::None,
    }
}

/// The 32-bit integer a key holds, when it holds one.
pub open spec fn spec_get_i32(j: Json, key: Seq<char>) -> Option<int> {
    match spec_get(j, key) {
        Option::Some(Json::Int(n)) => if in_i32_range(n as int) {
            Option::Some(n as int)
        } else {
            Option::<int>::None
        },
        _ => Option::None,
    }
}

impl Json {
    /// Looks a key up in an object value.
    pub fn get<'a>(&'a self, key: &str) -> (r: Option<&'a Json>)
        ensures
            match r {
                Option::Some(v) => spec_get(*self, key@) == Option::Some(*v),
                Option::None => spec_get(*self, key@) is None,
            },
    {
        match self {
            Json::Obj(fields) => {
                let n = fields.len();
                let mut i: usize = 0;
                proof {
                    assert(fields@.subrange(0, n as int) =~= fields@);
                }
                while i < n
                    invariant
                        n == fields@.len(),
                        i <= n,
                        spec_get(*self, key@) == obj_lookup(fields@, key@),
                        obj_lookup(fields@, key@) == obj_lookup(
                            fields@.subrange(i as int, n as int),
                            key@,
                        ),
                    decreases n - i,
                {
                    let ghost suffix = fields@.subrange(i as int, n as int);
                    proof {
                        assert(suffix[0] == fields@[i as int]);
                        assert(suffix.drop_first() =~= fields@.subrange(i + 1 as int, n as int));
                    }
                    if str_eq(fields[i].0.as_str(), key) {
                        proof {
                            assert(obj_lookup(suffix, key@) == Option::Some(suffix[0].1));
                        }
                        return Option::Some(&fields[i].1);
                    }
                    i = i + 1;
                }
                proof {
                    assert(fields@.subrange(n as int, n as int) =~= Seq::<(String, Json)>::empty());
                }
                Option::None
            },
            _ => Option::None,
        }
    }

    /// The string under the key, when there is one.
    pub fn get_str<'a>(&'a self, key: &str) -> (r: Option<&'a String>)
        ensures
            match r {
                Option::Some(s) => spec_get_str(*self, key@) == Option::Some(s@),
                Option::None => spec_get_str(*self, key@) is None,
            },
    {
        match self.get(key) {
            Option::Some(v) => match v {
                Json::Str(s) => Option::Some(s),
                _ => Option::None,
            },
            Option::None => Option::None,
        }
    }

    /// The 32-bit integer under the key, when there is one.
    pub fn get_i32(&self, key: &str) -> (r: Option<i32>)
        ensures
            match r {
                Option::Some(n) => spec_get_i32(*self, key@) == Option::Some(n as int),
                Option::None => spec_get_i32(*self, key@) is None,
            },
    {
        match self.get(key) {
            Option::Some(v) => match v {
                Json::Int(n) => {
                    let n = *n;
                    if -0x8000_0000i64 <= n && n <= 0x7fff_ffffi64 {
                        Option::Some(n as i32)
                    } else {
                        Option::None
                    }
                },
                _ => Option::None,
            },
            Option::None => Option::None,
        }
    }
    /// The 32-bit integer under the key, also accepting a numeral written
    /// as a string — the server serializes some counters that way.
    pub fn get_i32_lenient(&self, key: &str) -> (r: Option<i32>)
        ensures
            match r {
                Option::Some(n) => spec_get_i32_lenient(*self, key@) == Option::Some(n as int),
                Option::None => spec_get_i32_lenient(*self, key@) is None,
            },
    {
        match self.get(key) {
            Option::Some(v) => match v {
                Json::Int(n) => {
                    let n = *n;
                    if -0x8000_0000i64 <= n && n <= 0x7fff_ffffi64 {
                        Option::Some(n as i32)
                    } else {
                        Option::None
                    }
                },
                Json::Str(s) => parse_i32(s.as_str()),
                _ => Option::None,
            },
            Option::None => Option::None,
        }
    }
}

/// As [`spec_get_i32`], but a string holding a well-formed decimal
/// numeral in range counts too.
pub open spec fn spec_get_i32_lenient(j: Json, key: Seq<char>) -> Option<int> {
    match spec_get(j, key) {
        Option::Some(Json::Int(n)) => if in_i32_range(n as int) {
            Option::Some(n as int)
        } else {
            Option::<int>::None
        },
        Option::Some(Json::Str(s)) => match spec_parse_int(s@) {
            Option::Some(v) => if in_i32_range(v) {
                Option::Some(v)
            } else {
                Option::<int>::None
            },
            Option::None => Option::<int>::None,
        },
        _ => Option::None,
    }
}

/// The strings of an array of strings; `None` when the value is not an
/// array or some element is not a string.
pub open spec fn spec_str_arr(j: Json) -> Option<Seq<Seq<char>>> {
    match j {
        Json::Arr(es) => if forall|i: int| 0 <= i < es@.len() ==> es@[i] is Str {
            Option::Some(Seq::new(es@.len(), |i: int| es@[i]->Str_0@))
        } else {
            Option::<Seq<Seq<char>>>::None
        },
        _ => Option::None,
    }
}

/// Copies an array of strings out of a JSON value.
pub fn decode_str_array(j: &Json) -> (r: Option<Vec<String>>)
    ensures
        match r {
            Option::Some(v) => spec_str_arr(*j) == Option::Some(v.deep_view()),
            Option::None => spec_str_arr(*j) is None,
        },
{
    match j {
        Json::Arr(es) => {
            let mut out: Vec<String> = Vec::new();
            let n = es.len();
            let mut i: usize = 0;
            while i < n
                invariant
                    *j == Json::Arr(*es),
                    n == es@.len(),
                    i <= n,
                    out@.len() == i,
                    forall|k: int| 0 <= k < i ==> es@[k] is Str,
                    forall|k: int| 0 <= k < i ==> out@[k]@ == es@[k]->Str_0@,
                decreases n - i,
            {
                match &es[i] {
                    Json::Str(s) => {
                        out.push(s.clone());
                    },
                    _ => {
                        return Option::None;
                    },
                }
                i = i + 1;
            }
            proof {
                assert(out.deep_view() =~~= Seq::new(es@.len(), |k: int| es@[k]->Str_0@));
            }
            Option::Some(out)
        },
        _ => Option::None,
    }
}

} // verus!
