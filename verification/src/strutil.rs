//! Small verified helpers over strings and character sequences that the
//! rest of the crate builds on: converting between `&str` and `Vec<char>`,
//! equality of string slices, and decimal rendering of integers.

use vstd::prelude::*;

verus! {

/// Relies on `String::push`: appends the character at the end of the string.
#[verifier::external_body]
pub(crate) fn push_char(s: &mut String, c: char)
    ensures
        final(s)@ == old(s)@.push(c),
{
    s.push(c);
}

/// The characters of a string slice, in order.
pub fn chars_of(s: &str) -> (v: Vec<char>)
    ensures
        v@ == s@,
{
    let n = s.unicode_len();
    let mut v: Vec<char> = Vec::new();
    let mut i: usize = 0;
    while i < n
        invariant
            n == s@.len(),
            i <= n,
            v@ == s@.subrange(0, i as int),
        decreases n - i,
    {
        v.push(s.get_char(i));
        proof {
            assert(v@ =~= s@.subrange(0, i + 1 as int));
        }
        i = i + 1;
    }
    proof {
        assert(s@.subrange(0, n as int) =~= s@);
    }
    v
}

/// A freshly allocated string holding exactly the given characters.
pub fn string_from_chars(v: &Vec<char>) -> (s: String)
    ensures
        s@ == v@,
{
    let mut s = String::new();
    let mut i: usize = 0;
    while i < v.len()
        invariant
            i <= v@.len(),
            s@ == v@.subrange(0, i as int),
        decreases v@.len() - i,
    {
        push_char(&mut s, v[i]);
        proof {
            assert(s@ =~= v@.subrange(0, i + 1 as int));
        }
        i = i + 1;
    }
    proof {
        assert(v@.subrange(0, v@.len() as int) =~= v@);
    }
    s
}

/// ASCII lower-casing of a single character; everything else is untouched.
pub open spec fn lower_char(c: char) -> char {
    if 65 <= c as int <= 90 {
        (c as u8 + 32) as char
    } else {
        c
    }
}

/// ASCII lower-casing of a character sequence.
pub open spec fn lower_seq(s: Seq<char>) -> Seq<char>
    decreases s.len(),
{
    if s.len() == 0 {
        Seq::empty()
    } else {
        lower_seq(s.drop_last()).push(lower_char(s.last()))
    }
}

/// A copy of the string with ASCII upper-case letters lowered.
pub fn to_ascii_lower(s: &str) -> (r: String)
    ensures
        r@ == lower_seq(s@),
{
    let n = s.unicode_len();
    let mut r = String::new();
    let mut i: usize = 0;
    while i < n
        invariant
            n == s@.len(),
            i <= n,
            r@ == lower_seq(s@.subrange(0, i as int)),
        decreases n - i,
    {
        let c = s.get_char(i);
        let u = c as u32;
        if 65 <= u && u <= 90 {
            push_char(&mut r, (c as u8 + 32) as char);
        } else {
            push_char(&mut r, c);
        }
        proof {
            assert(s@.subrange(0, i + 1 as int).drop_last() =~= s@.subrange(0, i as int));
            assert(s@.subrange(0, i + 1 as int).last() == s@[i as int]);
        }
        i = i + 1;
    }
    proof {
        assert(s@.subrange(0, n as int) =~= s@);
    }
    r
}

/// Whether two string slices hold the same characters.
pub fn str_eq(a: &str, b: &str) -> (r: bool)
    ensures
        r == (a@ == b@),
{
    let na = a.unicode_len();
    let nb = b.unicode_len();
    if na != nb {
        return false;
    }
    let mut i: usize = 0;
    while i < na
        invariant
            na == a@.len(),
            na == b@.len(),
            i <= na,
            forall|j: int| 0 <= j < i ==> a@[j] == b@[j],
        decreases na - i,
    {
        if a.get_char(i) != b.get_char(i) {
            return false;
        }
        i = i + 1;
    }
    proof {
        assert(a@ =~= b@);
    }
    true
}

/// The view of an optional string.
pub open spec fn opt_str_view(o: Option<String>) -> Option<Seq<char>> {
    match o {
        Option::Some(s) => Option::Some(s@),
        Option::None => Option::None,
    }
}

/// Whether a character vector holds exactly the characters of a string.
pub fn chars_eq_str(v: &Vec<char>, s: &str) -> (r: bool)
    ensures
        r == (v@ == s@),
{
    let n = s.unicode_len();
    if v.len() != n {
        return false;
    }
    let mut i: usize = 0;
    while i < n
        invariant
            n == s@.len(),
            n == v@.len(),
            i <= n,
            forall|j: int| 0 <= j < i ==> v@[j] == s@[j],
        decreases n - i,
    {
        if v[i] != s.get_char(i) {
            return false;
        }
        i = i + 1;
    }
    proof {
        assert(v@ =~= s@);
    }
    true
}

/// The characters of `v` from `a` (inclusive) to `b` (exclusive).
pub fn subvec_chars(v: &Vec<char>, a: usize, b: usize) -> (r: Vec<char>)
    requires
        a <= b <= v@.len(),
    ensures
        r@ == v@.subrange(a as int, b as int),
{
    let mut r: Vec<char> = Vec::new();
    let mut i: usize = a;
    while i < b
        invariant
            a <= i <= b <= v@.len(),
            r@ == v@.subrange(a as int, i as int),
        decreases b - i,
    {
        r.push(v[i]);
        proof {
            assert(r@ =~= v@.subrange(a as int, i + 1 as int));
        }
        i = i + 1;
    }
    r
}

/// The character for one decimal digit.
pub open spec fn digit_char(d: int) -> char {
    if d == 0 {
        '0'
    } else if d == 1 {
        '1'
    } else if d == 2 {
        '2'
    } else if d == 3 {
        '3'
    } else if d == 4 {
        '4'
    } else if d == 5 {
        '5'
    } else if d == 6 {
        '6'
    } else if d == 7 {
        '7'
    } else if d == 8 {
        '8'
    } else {
        '9'
    }
}

/// The usual decimal notation of a non-negative integer, most significant
/// digit first and without leading zeroes.
pub open spec fn dec_rep(n: int) -> Seq<char>
    decreases n,
{
    if n < 10 {
        seq![digit_char(n)]
    } else {
        dec_rep(n / 10).push(digit_char(n % 10))
    }
}

/// Decimal notation of a possibly negative integer.
pub open spec fn dec_int_rep(n: int) -> Seq<char> {
    if n < 0 {
        seq!['-'] + dec_rep(-n)
    } else {
        dec_rep(n)
    }
}

fn digit_char_exec(d: u64) -> (c: char)
    requires
        d < 10,
    ensures
        c == digit_char(d as int),
{
    if d == 0 {
        '0'
    } else if d == 1 {
        '1'
    } else if d == 2 {
        '2'
    } else if d == 3 {
        '3'
    } else if d == 4 {
        '4'
    } else if d == 5 {
        '5'
    } else if d == 6 {
        '6'
    } else if d == 7 {
        '7'
    } else if d == 8 {
        '8'
    } else {
        '9'
    }
}

/// The decimal notation of an unsigned integer.
pub fn u64_dec(n: u64) -> (s: String)
    ensures
        s@ == dec_rep(n as int),
    decreases n,
{
    if n < 10 {
        let mut s = String::new();
        push_char(&mut s, digit_char_exec(n));
        s
    } else {
        let mut s = u64_dec(n / 10);
        push_char(&mut s, digit_char_exec(n % 10));
        s
    }
}

/// The decimal notation of a signed integer.
pub fn i64_dec(n: i64) -> (s: String)
    ensures
        s@ == dec_int_rep(n as int),
{
    if n >= 0 {
        u64_dec(n as u64)
    } else {
        let magnitude: u64 = if n == i64::MIN {
            9223372036854775808u64
        } else {
            (-n) as u64
        };
        let mut s = String::new();
        push_char(&mut s, '-');
        let digits = u64_dec(magnitude);
        s.append(digits.as_str());
        proof {
            assert(s@ =~= seq!['-'] + dec_rep(-(n as int)));
        }
        s
    }
}

/// An ASCII decimal digit.
pub open spec fn is_digit(c: char) -> bool {
    48 <= c as u32 <= 57
}

/// The value of one decimal digit.
pub open spec fn digit_val(c: char) -> int {
    c as u32 - 48
}

/// Every character is a decimal digit.
pub open spec fn all_digits(s: Seq<char>) -> bool {
    forall|i: int| 0 <= i < s.len() ==> is_digit(s[i])
}

/// The integer a string of decimal digits denotes.
pub open spec fn dec_val(s: Seq<char>) -> int
    decreases s.len(),
{
    if s.len() == 0 {
        0
    } else {
        dec_val(s.drop_last()) * 10 + digit_val(s.last())
    }
}

/// Whether an integer fits the 32-bit signed range.
pub open spec fn in_i32_range(n: int) -> bool {
    -0x8000_0000 <= n <= 0x7fff_ffff
}

/// The integer a decimal literal with an optional sign denotes, when it is
/// well-formed: an optional `+` or `-`, then at least one digit.
pub open spec fn spec_parse_int(s: Seq<char>) -> Option<int> {
    let neg = s.len() > 0 && s[0] == '-';
    let digits = if s.len() > 0 && (s[0] == '-' || s[0] == '+') {
        s.drop_first()
    } else {
        s
    };
    if digits.len() > 0 && all_digits(digits) {
        Option::Some(
            if neg {
                -dec_val(digits)
            } else {
                dec_val(digits)
            },
        )
    } else {
        Option::None
    }
}

pub proof fn lemma_dec_val_nonneg(s: Seq<char>)
    requires
        all_digits(s),
    ensures
        dec_val(s) >= 0,
    decreases s.len(),
{
    if s.len() > 0 {
        assert(forall|i: int| 0 <= i < s.len() - 1 ==> s.drop_last()[i] == s[i]);
        lemma_dec_val_nonneg(s.drop_last());
    }
}

/// A digit string is worth at least any of its prefixes.
pub proof fn lemma_dec_val_prefix_bound(s: Seq<char>, i: int)
    requires
        all_digits(s),
        0 <= i <= s.len(),
    ensures
        dec_val(s) >= dec_val(s.subrange(0, i)),
    decreases s.len() - i,
{
    if i == s.len() {
        assert(s.subrange(0, i) =~= s);
    } else {
        lemma_dec_val_prefix_bound(s, i + 1);
        let a = s.subrange(0, i);
        let b = s.subrange(0, i + 1);
        assert(b.drop_last() =~= a);
        assert(forall|j: int| 0 <= j < a.len() ==> a[j] == s[j]);
        lemma_dec_val_nonneg(a);
        assert(dec_val(b) == dec_val(a) * 10 + digit_val(s[i]));
    }
}

/// Reads a signed 32-bit integer from decimal text, rejecting anything
/// malformed or out of range.
pub fn parse_i32(s: &str) -> (r: Option<i32>)
    ensures
        ({
            let p = spec_parse_int(s@);
            match r {
                Option::Some(n) => p == Option::Some(n as int),
                Option::None => p is None || !in_i32_range(p->0),
            }
        }),
{
    let cs = chars_of(s);
    let n = cs.len();
    let mut start: usize = 0;
    let mut neg = false;
    if n > 0 && (cs[0] == '-' || cs[0] == '+') {
        neg = cs[0] == '-';
        start = 1;
    }
    let ghost digits = s@.subrange(start as int, n as int);
    proof {
        if start == 0 {
            assert(digits =~= s@);
        } else {
            assert(digits =~= s@.drop_first());
        }
    }
    if start == n {
        return Option::None;
    }
    let mut acc: u64 = 0;
    let mut i: usize = start;
    proof {
        assert(s@.subrange(start as int, start as int) =~= Seq::<char>::empty());
    }
    while i < n
        invariant
            start <= i <= n,
            n == cs@.len(),
            cs@ == s@,
            start == 0 || start == 1,
            (start == 1) == (s@.len() > 0 && (s@[0] == '-' || s@[0] == '+')),
            neg == (s@.len() > 0 && s@[0] == '-'),
            digits == s@.subrange(start as int, n as int),
            all_digits(s@.subrange(start as int, i as int)),
            acc == dec_val(s@.subrange(start as int, i as int)),
            acc <= 0x8000_0000,
        decreases n - i,
    {
        proof {
            if start == 1 {
                assert(digits =~= s@.drop_first());
            } else {
                assert(digits =~= s@);
            }
        }
        let c = cs[i];
        let u = c as u32;
        if !(48 <= u && u <= 57) {
            proof {
                assert(digits[i - start] == s@[i as int]);
                assert(!all_digits(digits));
            }
            return Option::None;
        }
        let d = (u - 48) as u64;
        let new_acc = acc * 10 + d;
        proof {
            let pre = s@.subrange(start as int, i as int);
            let ext = s@.subrange(start as int, i + 1 as int);
            assert(ext.drop_last() =~= pre);
            assert(ext.last() == s@[i as int]);
            assert(forall|j: int| 0 <= j < pre.len() ==> pre[j] == ext[j]);
            assert(all_digits(ext));
            assert(new_acc == dec_val(ext));
        }
        if new_acc > 0x8000_0000 {
            proof {
                if all_digits(digits) {
                    lemma_dec_val_prefix_bound(digits, i + 1 - start as int);
                    assert(digits.subrange(0, i + 1 - start as int) =~= s@.subrange(
                        start as int,
                        i + 1 as int,
                    ));
                    assert(dec_val(digits) >= new_acc);
                }
            }
            return Option::None;
        }
        acc = new_acc;
        i = i + 1;
    }
    proof {
        assert(s@.subrange(start as int, i as int) =~= digits);
    }
    if neg {
        if acc == 0x8000_0000 {
            Option::Some(i32::MIN)
        } else {
            Option::Some(-(acc as i32))
        }
    } else {
        if acc > 0x7fff_ffff {
            Option::None
        } else {
            Option::Some(acc as i32)
        }
    }
}

/// The parts joined by the separator: empty for no parts, and one
/// separator between each two neighbours otherwise.
pub open spec fn join_seqs(parts: Seq<Seq<char>>, sep: char) -> Seq<char>
    decreases parts.len(),
{
    if parts.len() == 0 {
        Seq::empty()
    } else if parts.len() == 1 {
        parts[0]
    } else {
        join_seqs(parts.drop_last(), sep).push(sep) + parts.last()
    }
}

/// Joins the strings with the separator character between neighbours.
pub fn join_strings(parts: &Vec<String>, sep: char) -> (s: String)
    ensures
        s@ == join_seqs(parts.deep_view(), sep),
{
    let mut s = String::new();
    let mut i: usize = 0;
    while i < parts.len()
        invariant
            i <= parts@.len(),
            parts.deep_view().len() == parts@.len(),
            s@ == join_seqs(parts.deep_view().subrange(0, i as int), sep),
        decreases parts@.len() - i,
    {
        if i > 0 {
            push_char(&mut s, sep);
        }
        s.append(parts[i].as_str());
        proof {
            let dv = parts.deep_view();
            assert(dv.subrange(0, i + 1 as int).drop_last() =~= dv.subrange(0, i as int));
            assert(dv.subrange(0, i + 1 as int).last() == dv[i as int]);
            assert(dv[i as int] == parts@[i as int]@);
            if i == 0 {
                assert(s@ =~= join_seqs(dv.subrange(0, 1), sep));
            }
        }
        i = i + 1;
    }
    proof {
        assert(parts.deep_view().subrange(0, parts.deep_view().len() as int) =~= parts.deep_view());
    }
    s
}

/// The character for one hexadecimal digit, upper case.
pub open spec fn hex_char(d: int) -> char {
    if d < 10 {
        digit_char(d)
    } else if d == 10 {
        'A'
    } else if d == 11 {
        'B'
    } else if d == 12 {
        'C'
    } else if d == 13 {
        'D'
    } else if d == 14 {
        'E'
    } else {
        'F'
    }
}

fn hex_char_exec(d: u32) -> (c: char)
    requires
        d < 16,
    ensures
        c == hex_char(d as int),
{
    if d < 10 {
        digit_char_exec(d as u64)
    } else if d == 10 {
        'A'
    } else if d == 11 {
        'B'
    } else if d == 12 {
        'C'
    } else if d == 13 {
        'D'
    } else if d == 14 {
        'E'
    } else {
        'F'
    }
}

/// Characters that a form-encoded query value keeps as they are.
pub open spec fn unreserved(c: char) -> bool {
    ||| 97 <= c as int <= 122
    ||| 65 <= c as int <= 90
    ||| 48 <= c as int <= 57
    ||| c == '-'
    ||| c == '_'
    ||| c == '.'
    ||| c == '~'
}

/// Form encoding of one character: unreserved characters stand for
/// themselves, a space becomes `+`, any other ASCII character becomes a
/// percent escape, and characters beyond ASCII pass through unchanged.
pub open spec fn encode_char(c: char) -> Seq<char> {
    if unreserved(c) {
        seq![c]
    } else if c == ' ' {
        seq!['+']
    } else if (c as int) < 128 {
        seq!['%', hex_char(c as int / 16), hex_char(c as int % 16)]
    } else {
        seq![c]
    }
}

/// Form encoding of a character sequence.
pub open spec fn form_encode_seq(s: Seq<char>) -> Seq<char>
    decreases s.len(),
{
    if s.len() == 0 {
        Seq::empty()
    } else {
        form_encode_seq(s.drop_last()) + encode_char(s.last())
    }
}

/// Form-encodes a string for use as a URL query value.
pub fn form_encode(s: &str) -> (r: String)
    ensures
        r@ == form_encode_seq(s@),
{
    let n = s.unicode_len();
    let mut r = String::new();
    let mut i: usize = 0;
    while i < n
        invariant
            n == s@.len(),
            i <= n,
            r@ == form_encode_seq(s@.subrange(0, i as int)),
        decreases n - i,
    {
        let c = s.get_char(i);
        let u = c as u32;
        let is_unreserved = (97 <= u && u <= 122) || (65 <= u && u <= 90) || (48 <= u && u <= 57)
            || c == '-' || c == '_' || c == '.' || c == '~';
        if is_unreserved {
            push_char(&mut r, c);
        } else if c == ' ' {
            push_char(&mut r, '+');
        } else if u < 128 {
            push_char(&mut r, '%');
            push_char(&mut r, hex_char_exec(u / 16));
            push_char(&mut r, hex_char_exec(u % 16));
        } else {
            push_char(&mut r, c);
        }
        proof {
            assert(s@.subrange(0, i + 1 as int).drop_last() =~= s@.subrange(0, i as int));
            assert(s@.subrange(0, i + 1 as int).last() == s@[i as int]);
            assert(r@ =~= form_encode_seq(s@.subrange(0, i + 1 as int)));
        }
        i = i + 1;
    }
    proof {
        assert(s@.subrange(0, n as int) =~= s@);
    }
    r
}

} // verus!
