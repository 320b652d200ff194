//! Small verified text utilities shared by the parsers and prompt builders.

use vstd::prelude::*;
use vstd::string::*;

verus! {

/// Relies on std's `String::push`: appends exactly the given character.
#[verifier::external_body]
pub(crate) fn push_char(s: &mut String, c: char)
    ensures
        final(s)@ == old(s)@.push(c),
{
    s.push(c)
}

/// Copy the characters of a string slice into a vector, in order.
pub fn chars_vec(s: &str) -> (r: Vec<char>)
    ensures
        r@ == s@,
{
    let n = s.unicode_len();
    let mut r: Vec<char> = Vec::new();
    let mut i: usize = 0;
    while i < n
        invariant
            n == s@.len(),
            i <= n,
            r@ == s@.subrange(0, i as int),
        decreases n - i,
    {
        let c = s.get_char(i);
        r.push(c);
        proof {
            assert(r@ =~= s@.subrange(0, i + 1 as int));
        }
        i = i + 1;
    }
    proof {
        assert(r@ =~= s@);
    }
    r
}

/// Build a string from a range of a character vector.
pub fn string_from_range(v: &Vec<char>, from: usize, to: usize) -> (r: String)
    requires
        from <= to <= v@.len(),
    ensures
        r@ == v@.subrange(from as int, to as int),
{
    let mut r = String::new();
    let mut i: usize = from;
    while i < to
        invariant
            from <= i <= to <= v@.len(),
            r@ == v@.subrange(from as int, i as int),
        decreases to - i,
    {
        push_char(&mut r, v[i]);
        proof {
            assert(r@ =~= v@.subrange(from as int, i + 1 as int));
        }
        i = i + 1;
    }
    r
}

/// Character-wise equality of two string slices.
pub fn str_eq_str(a: &str, b: &str) -> (r: bool)
    ensures
        r == (a@ == b@),
{
    let na = a.unicode_len();
    let nb = b.unicode_len();
    if na != nb {
        return false;
    }
    let mut i: usize = 0;
    while i < na
        invariant
            na == a@.len(),
            na == b@.len(),
            i <= na,
            forall|k: int| 0 <= k < i ==> a@[k] == b@[k],
        decreases na - i,
    {
        if a.get_char(i) != b.get_char(i) {
            return false;
        }
        i = i + 1;
    }
    proof {
        assert(a@ =~= b@);
    }
    true
}

/// The decimal digit character for a value below ten.
pub open spec fn digit_char(d: int) -> char {
    if d == 0 {
        '0'
    } else if d == 1 {
        '1'
    } else if d == 2 {
        '2'
    } else if d == 3 {
        '3'
    } else if d == 4 {
        '4'
    } else if d == 5 {
        '5'
    } else if d == 6 {
        '6'
    } else if d == 7 {
        '7'
    } else if d == 8 {
        '8'
    } else {
        '9'
    }
}

/// Decimal rendering of a natural number, most significant digit first.
pub open spec fn spec_udec(n: nat) -> Seq<char>
    decreases n,
{
    if n < 10 {
        seq![digit_char(n as int)]
    } else {
        spec_udec(n / 10).push(digit_char((n % 10) as int))
    }
}

fn digit_of(d: u64) -> (c: char)
    requires
        d < 10,
    ensures
        c == digit_char(d as int),
{
    if d == 0 {
        '0'
    } else if d == 1 {
        '1'
    } else if d == 2 {
        '2'
    } else if d == 3 {
        '3'
    } else if d == 4 {
        '4'
    } else if d == 5 {
        '5'
    } else if d == 6 {
        '6'
    } else if d == 7 {
        '7'
    } else if d == 8 {
        '8'
    } else {
        '9'
    }
}

/// Render an unsigned integer in decimal.
pub fn u64_to_dec(n: u64) -> (r: String)
    ensures
        r@ == spec_udec(n as nat),
    decreases n,
{
    if n < 10 {
        let mut s = String::new();
        push_char(&mut s, digit_of(n));
        proof {
            assert(s@ =~= seq![digit_char(n as int)]);
        }
        s
    } else {
        proof {
            assert(n / 10 < n) by (nonlinear_arith)
                requires
                    n >= 10,
            ;
        }
        let mut s = u64_to_dec(n / 10);
        push_char(&mut s, digit_of(n % 10));
        s
    }
}

/// Decimal rendering of a signed integer.
pub open spec fn spec_idec(n: int) -> Seq<char> {
    if n < 0 {
        seq!['-'] + spec_udec((-n) as nat)
    } else {
        spec_udec(n as nat)
    }
}

/// Render a signed integer in decimal.
pub fn i64_to_dec(n: i64) -> (r: String)
    ensures
        r@ == spec_idec(n as int),
{
    if n < 0 {
        let mut s = String::new();
        push_char(&mut s, '-');
        let m: u64 = ((-(n as i128)) as u64);
        let d = u64_to_dec(m);
        s.append(d.as_str());
        proof {
            assert(s@ =~= seq!['-'] + spec_udec((-(n as int)) as nat));
        }
        s
    } else {
        u64_to_dec(n as u64)
    }
}

/// A similarity score in hundredths, rendered with two decimal places,
/// as in `0.87` or `1.00`.
pub open spec fn spec_score_dec(s: nat) -> Seq<char> {
    spec_udec(s / 100) + seq!['.', digit_char(((s / 10) % 10) as int), digit_char((s % 10) as int)]
}

/// Render a score held in hundredths with two decimal places.
pub fn score_to_dec(s: u32) -> (r: String)
    ensures
        r@ == spec_score_dec(s as nat),
{
    let mut r = u64_to_dec((s / 100) as u64);
    push_char(&mut r, '.');
    push_char(&mut r, digit_of(((s / 10) % 10) as u64));
    push_char(&mut r, digit_of((s % 10) as u64));
    proof {
        assert(r@ =~= spec_score_dec(s as nat));
    }
    r
}

/// The value of an all-digit run folded onto `acc`, refused at the cap
/// or on a non-digit.
pub open spec fn spec_digits_value(s: Seq<char>, acc: int) -> Option<int>
    decreases s.len(),
{
    if s.len() == 0 {
        Some(acc)
    } else if '0' <= s[0] && s[0] <= '9' {
        if acc >= 100_000_000_000_000_000 {
            None
        } else {
            spec_digits_value(s.drop_first(), acc * 10 + (s[0] as int - 48))
        }
    } else {
        None
    }
}

/// The signed integer a whole string denotes: an optional minus sign
/// and at least one digit, nothing else.
pub open spec fn spec_parse_i64(s: Seq<char>) -> Option<i64> {
    if s.len() == 0 {
        None
    } else if s[0] == '-' {
        if s.len() == 1 {
            None
        } else {
            match spec_digits_value(s.drop_first(), 0) {
                Some(n) => Some((-n) as i64),
                None => None,
            }
        }
    } else {
        match spec_digits_value(s, 0) {
            Some(n) => Some(n as i64),
            None => None,
        }
    }
}

fn digits_value(v: &Vec<char>, i: usize, acc: u64) -> (r: Option<u64>)
    requires
        i <= v@.len(),
        acc < 1_000_000_000_000_000_010,
    ensures
        match r {
            Some(n) => spec_digits_value(v@.skip(i as int), acc as int) == Some(n as int) && n
                < 1_000_000_000_000_000_010,
            None => spec_digits_value(v@.skip(i as int), acc as int) is None,
        },
    decreases v@.len() - i,
{
    if i == v.len() {
        proof {
            assert(v@.skip(i as int) =~= Seq::<char>::empty());
        }
        return Some(acc);
    }
    proof {
        assert(v@.skip(i as int)[0] == v@[i as int]);
        assert(v@.skip(i as int).drop_first() =~= v@.skip(i + 1));
    }
    let c = v[i];
    if '0' <= c && c <= '9' {
        if acc >= 100_000_000_000_000_000 {
            None
        } else {
            let d: u64 = (c as u32 - 48) as u64;
            digits_value(v, i + 1, acc * 10 + d)
        }
    } else {
        None
    }
}

/// Parse a whole string as a signed decimal integer.
pub fn parse_i64_dec(s: &str) -> (r: Option<i64>)
    ensures
        r == spec_parse_i64(s@),
{
    let v = chars_vec(s);
    if v.len() == 0 {
        return None;
    }
    if v[0] == '-' {
        if v.len() == 1 {
            return None;
        }
        proof {
            assert(v@.skip(1) =~= v@.drop_first());
        }
        match digits_value(&v, 1, 0) {
            Some(n) => Some(-(n as i64)),
            None => None,
        }
    } else {
        proof {
            assert(v@.skip(0) =~= v@);
        }
        match digits_value(&v, 0, 0) {
            Some(n) => Some(n as i64),
            None => None,
        }
    }
}

/// Whether `needle` occurs as a contiguous run inside `hay`.
pub open spec fn spec_contains(hay: Seq<char>, needle: Seq<char>) -> bool {
    exists|k: int|
        0 <= k <= hay.len() - needle.len() && #[trigger] hay.subrange(k, k + needle.len())
            =~= needle
}

/// Substring search: does `hay` contain `needle`?
pub fn contains_sub(hay: &str, needle: &str) -> (r: bool)
    ensures
        r == spec_contains(hay@, needle@),
{
    let hv = chars_vec(hay);
    let nv = chars_vec(needle);
    let hn = hv.len();
    let nn = nv.len();
    if nn > hn {
        proof {
            assert(!spec_contains(hay@, needle@));
        }
        return false;
    }
    let mut k: usize = 0;
    while k <= hn - nn
        invariant
            hv@ == hay@,
            nv@ == needle@,
            hn == hay@.len(),
            nn == needle@.len(),
            nn <= hn,
            k <= hn - nn + 1,
            forall|q: int|
                0 <= q < k ==> !(#[trigger] hay@.subrange(q, q + needle@.len()) =~= needle@),
        decreases hn + 1 - nn - k,
    {
        let mut j: usize = 0;
        let mut all_eq: bool = true;
        while j < nn
            invariant
                hv@ == hay@,
                nv@ == needle@,
                hn == hay@.len(),
                nn == needle@.len(),
                nn <= hn,
                k <= hn - nn,
                j <= nn,
                all_eq <==> (forall|q: int| 0 <= q < j ==> hay@[k + q] == needle@[q]),
            decreases nn - j,
        {
            if hv[k + j] != nv[j] {
                all_eq = false;
                j = nn;
            } else {
                j = j + 1;
            }
        }
        if all_eq {
            proof {
                assert(hay@.subrange(k as int, k + needle@.len()) =~= needle@);
            }
            return true;
        }
        proof {
            assert(!(hay@.subrange(k as int, k + needle@.len()) =~= needle@));
        }
        k = k + 1;
    }
    proof {
        assert forall|q: int|
            0 <= q <= hay@.len() - needle@.len() implies !(#[trigger] hay@.subrange(
            q,
            q + needle@.len(),
        ) =~= needle@) by {
            assert(q < k);
        }
        assert(!spec_contains(hay@, needle@));
    }
    false
}

} // verus!
