//! Verified parser for the interchange format the pipeline expects from the
//! text generator.
//!
//! The generator is asked to answer with a single JSON value.  The grammar
//! accepted here is JSON restricted to null, booleans, integers (at most
//! seventeen leading digits), strings with the single-character escapes
//! (`\"`, `\\`, `\/`, `\n`, `\t`, `\r`, `\b`, `\f`), arrays and objects.
//! The spec functions `sp_value`, `sp_elems` and `sp_members` are the
//! definition of the grammar; every executable parser is proved to return
//! exactly what they denote.

use vstd::prelude::*;

use crate::text::push_char;

verus! {

/// A parsed value of the interchange format.
pub enum JsonValue {
    Null,
    Bool(bool),
    Int(i64),
    Text(String),
    Arr(Vec<JsonValue>),
    Obj(Vec<(String, JsonValue)>),
}

/// Spec-level counterpart of `JsonValue`.
#[verifier::ext_equal]
pub enum JsonV {
    Null,
    Bool(bool),
    Int(i64),
    Text(Seq<char>),
    Arr(Seq<JsonV>),
    Obj(Seq<(Seq<char>, JsonV)>),
}

/// Spec-level view of a sequence of parsed values.
pub open spec fn seq_v(items: Seq<JsonValue>) -> Seq<JsonV> {
    Seq::new(
        items.len(),
        |k: int|
            if 0 <= k < items.len() {
                items[k].v()
            } else {
                JsonV::Null
            },
    )
}

/// Spec-level view of a sequence of parsed object fields.
pub open spec fn fields_v(fields: Seq<(String, JsonValue)>) -> Seq<(Seq<char>, JsonV)> {
    Seq::new(
        fields.len(),
        |k: int|
            if 0 <= k < fields.len() {
                (fields[k].0@, fields[k].1.v())
            } else {
                (Seq::<char>::empty(), JsonV::Null)
            },
    )
}

impl JsonValue {
    /// The spec-level value this parse tree stands for.
    pub open spec fn v(self) -> JsonV
        decreases self,
        via Self::v_decreases
    {
        match self {
            JsonValue::Null => JsonV::Null,
            JsonValue::Bool(b) => JsonV::Bool(b),
            JsonValue::Int(n) => JsonV::Int(n),
            JsonValue::Text(s) => JsonV::Text(s@),
            JsonValue::Arr(items) => JsonV::Arr(
                Seq::new(
                    items@.len(),
                    |k: int|
                        if 0 <= k < items@.len() {
                            items@[k].v()
                        } else {
                            JsonV::Null
                        },
                ),
            ),
            JsonValue::Obj(fields) => JsonV::Obj(
                Seq::new(
                    fields@.len(),
                    |k: int|
                        if 0 <= k < fields@.len() {
                            (fields@[k].0@, fields@[k].1.v())
                        } else {
                            (Seq::<char>::empty(), JsonV::Null)
                        },
                ),
            ),
        }
    }

    #[via_fn]
    proof fn v_decreases(self) {
        broadcast use vstd::std_specs::vec::axiom_vec_index_decreases;

    }
}

/// The view of an array node is the view of its element vector.
pub proof fn lemma_arr_view(items: Vec<JsonValue>)
    ensures
        JsonValue::Arr(items).v() == JsonV::Arr(seq_v(items@)),
{
    let av = JsonValue::Arr(items).v();
    match av {
        JsonV::Arr(s) => {
            assert forall|k: int| 0 <= k < s.len() implies s[k] == seq_v(items@)[k] by {}
            assert(s =~= seq_v(items@));
        },
        _ => {
            assert(false);
        },
    }
}

/// The view of an object node is the view of its field vector.
pub proof fn lemma_obj_view(fields: Vec<(String, JsonValue)>)
    ensures
        JsonValue::Obj(fields).v() == JsonV::Obj(fields_v(fields@)),
{
    let fv = JsonValue::Obj(fields).v();
    match fv {
        JsonV::Obj(s) => {
            assert forall|k: int| 0 <= k < s.len() implies s[k] == fields_v(fields@)[k] by {}
            assert(s =~= fields_v(fields@));
        },
        _ => {
            assert(false);
        },
    }
}

// ---------------------------------------------------------------------------
// Character classes
// ---------------------------------------------------------------------------
/// JSON whitespace.
pub open spec fn is_ws(c: char) -> bool {
    c == ' ' || c == '\n' || c == '\t' || c == '\r'
}

/// A decimal digit.
pub open spec fn is_digit(c: char) -> bool {
    '0' <= c && c <= '9'
}

/// The numeric value of a decimal digit.
pub open spec fn dval(c: char) -> int {
    c as int - 48
}

/// What a backslash escape decodes to, or `None` for an escape the
/// grammar does not accept.
pub open spec fn esc(c: char) -> Option<char> {
    if c == '"' {
        Some('"')
    } else if c == '\\' {
        Some('\\')
    } else if c == '/' {
        Some('/')
    } else if c == 'n' {
        Some('\n')
    } else if c == 't' {
        Some('\t')
    } else if c == 'r' {
        Some('\r')
    } else if c == 'b' {
        Some('\u{8}')
    } else if c == 'f' {
        Some('\u{c}')
    } else {
        None
    }
}

// ---------------------------------------------------------------------------
// The grammar, as spec functions
// ---------------------------------------------------------------------------
/// The first position at or after `i` holding a non-whitespace character.
pub open spec fn sp_ws(s: Seq<char>, i: int) -> int
    decreases s.len() - i,
{
    if 0 <= i < s.len() && is_ws(s[i]) {
        sp_ws(s, i + 1)
    } else {
        i
    }
}

/// The body of a string literal, after the opening quote: characters and
/// escapes accumulate into `acc` until the closing quote.
pub open spec fn sp_str_body(s: Seq<char>, i: int, acc: Seq<char>) -> Option<(Seq<char>, int)>
    decreases s.len() - i,
{
    if !(0 <= i < s.len()) {
        None
    } else if s[i] == '"' {
        Some((acc, i + 1))
    } else if s[i] == '\\' {
        if i + 1 < s.len() {
            match esc(s[i + 1]) {
                Some(c) => sp_str_body(s, i + 2, acc.push(c)),
                None => None,
            }
        } else {
            None
        }
    } else {
        sp_str_body(s, i + 1, acc.push(s[i]))
    }
}

/// A string literal starting at `i`.
pub open spec fn sp_string(s: Seq<char>, i: int) -> Option<(Seq<char>, int)> {
    if 0 <= i < s.len() && s[i] == '"' {
        sp_str_body(s, i + 1, Seq::empty())
    } else {
        None
    }
}

/// The digit cap: a run whose value would reach this bound is refused.
pub open spec fn digit_cap() -> int {
    100_000_000_000_000_000
}

/// A run of digits accumulating onto `acc`, refused once the value
/// reaches the cap.
pub open spec fn sp_digits(s: Seq<char>, i: int, acc: int) -> Option<(int, int)>
    decreases s.len() - i,
{
    if 0 <= i < s.len() && is_digit(s[i]) {
        if acc >= digit_cap() {
            None
        } else {
            sp_digits(s, i + 1, acc * 10 + dval(s[i]))
        }
    } else {
        Some((acc, i))
    }
}

/// An integer literal: an optional minus sign and at least one digit.
pub open spec fn sp_int(s: Seq<char>, i: int) -> Option<(int, int)> {
    if 0 <= i < s.len() && s[i] == '-' {
        if i + 1 < s.len() && is_digit(s[i + 1]) {
            match sp_digits(s, i + 1, 0) {
                Some((n, j)) => Some((-n, j)),
                None => None,
            }
        } else {
            None
        }
    } else if 0 <= i < s.len() && is_digit(s[i]) {
        sp_digits(s, i, 0)
    } else {
        None
    }
}

/// Whether the characters of `w` occur verbatim at position `i` of `s`.
pub open spec fn sp_match_at(s: Seq<char>, i: int, w: Seq<char>) -> bool {
    0 <= i && i + w.len() <= s.len() && s.subrange(i, i + w.len()) =~= w
}

/// A value of the grammar, after optional leading whitespace.
pub open spec fn sp_value(s: Seq<char>, i: int) -> Option<(JsonV, int)>
    decreases s.len() - i, 0int,
{
    let j = sp_ws(s, i);
    if !(i <= j < s.len()) {
        None
    } else if s[j] == '"' {
        match sp_string(s, j) {
            Some((t, k)) => Some((JsonV::Text(t), k)),
            None => None,
        }
    } else if s[j] == '-' || is_digit(s[j]) {
        match sp_int(s, j) {
            Some((n, k)) => Some((JsonV::Int(n as i64), k)),
            None => None,
        }
    } else if sp_match_at(s, j, "true"@) {
        Some((JsonV::Bool(true), j + 4))
    } else if sp_match_at(s, j, "false"@) {
        Some((JsonV::Bool(false), j + 5))
    } else if sp_match_at(s, j, "null"@) {
        Some((JsonV::Null, j + 4))
    } else if s[j] == '[' {
        let k = sp_ws(s, j + 1);
        if k < s.len() && s[k] == ']' {
            Some((JsonV::Arr(Seq::empty()), k + 1))
        } else if j + 1 > i {
            match sp_elems(s, j + 1) {
                Some((items, m)) => Some((JsonV::Arr(items), m)),
                None => None,
            }
        } else {
            None
        }
    } else if s[j] == '{' {
        let k = sp_ws(s, j + 1);
        if k < s.len() && s[k] == '}' {
            Some((JsonV::Obj(Seq::empty()), k + 1))
        } else if j + 1 > i {
            match sp_members(s, j + 1) {
                Some((fields, m)) => Some((JsonV::Obj(fields), m)),
                None => None,
            }
        } else {
            None
        }
    } else {
        None
    }
}

/// The elements of a non-empty array, up to and including the closing
/// bracket.
pub open spec fn sp_elems(s: Seq<char>, i: int) -> Option<(Seq<JsonV>, int)>
    decreases s.len() - i, 1int,
{
    match sp_value(s, i) {
        Some((v, j)) => {
            let k = sp_ws(s, j);
            if !(i <= k < s.len()) {
                None
            } else if s[k] == ']' {
                Some((seq![v], k + 1))
            } else if s[k] == ',' && k + 1 > i {
                match sp_elems(s, k + 1) {
                    Some((rest, m)) => Some((seq![v] + rest, m)),
                    None => None,
                }
            } else {
                None
            }
        },
        None => None,
    }
}

/// The fields of a non-empty object, up to and including the closing
/// brace.
pub open spec fn sp_members(s: Seq<char>, i: int) -> Option<(Seq<(Seq<char>, JsonV)>, int)>
    decreases s.len() - i, 2int,
{
    let j = sp_ws(s, i);
    if !(i <= j) {
        None
    } else {
        match sp_string(s, j) {
            Some((key, p)) => {
                let q = sp_ws(s, p);
                if !(i <= q < s.len() && s[q] == ':') {
                    None
                } else if !(q + 1 > i) {
                    None
                } else {
                    match sp_value(s, q + 1) {
                        Some((v, r)) => {
                            let t = sp_ws(s, r);
                            if !(i <= t < s.len()) {
                                None
                            } else if s[t] == '}' {
                                Some((seq![(key, v)], t + 1))
                            } else if s[t] == ',' && t + 1 > i {
                                match sp_members(s, t + 1) {
                                    Some((rest, m)) => Some((seq![(key, v)] + rest, m)),
                                    None => None,
                                }
                            } else {
                                None
                            }
                        },
                        None => None,
                    }
                }
            },
            None => None,
        }
    }
}

// ---------------------------------------------------------------------------
// Executable parsers
// ---------------------------------------------------------------------------
/// Skip whitespace from `i`.
fn skip_ws(v: &Vec<char>, i: usize) -> (r: usize)
    requires
        i <= v@.len(),
    ensures
        r == sp_ws(v@, i as int),
        i <= r <= v@.len(),
    decreases v@.len() - i,
{
    if i < v.len() {
        let c = v[i];
        if c == ' ' || c == '\n' || c == '\t' || c == '\r' {
            return skip_ws(v, i + 1);
        }
    }
    i
}

/// Parse a string body after its opening quote.
fn p_str_body(v: &Vec<char>, i: usize, acc: String) -> (r: Option<(String, usize)>)
    requires
        i <= v@.len(),
    ensures
        match r {
            Some((t, j)) => sp_str_body(v@, i as int, acc@) == Some((t@, j as int)) && i <= j
                <= v@.len(),
            None => sp_str_body(v@, i as int, acc@) is None,
        },
    decreases v@.len() - i,
{
    if i >= v.len() {
        return None;
    }
    let c = v[i];
    if c == '"' {
        Some((acc, i + 1))
    } else if c == '\\' {
        if i + 1 < v.len() {
            let e = v[i + 1];
            let dec: Option<char> = if e == '"' {
                Some('"')
            } else if e == '\\' {
                Some('\\')
            } else if e == '/' {
                Some('/')
            } else if e == 'n' {
                Some('\n')
            } else if e == 't' {
                Some('\t')
            } else if e == 'r' {
                Some('\r')
            } else if e == 'b' {
                Some('\u{8}')
            } else if e == 'f' {
                Some('\u{c}')
            } else {
                None
            };
            match dec {
                Some(d) => {
                    let mut acc2 = acc;
                    push_char(&mut acc2, d);
                    p_str_body(v, i + 2, acc2)
                },
                None => None,
            }
        } else {
            None
        }
    } else {
        let mut acc2 = acc;
        push_char(&mut acc2, c);
        p_str_body(v, i + 1, acc2)
    }
}

/// Parse a string literal at `i`.
fn p_string(v: &Vec<char>, i: usize) -> (r: Option<(String, usize)>)
    requires
        i <= v@.len(),
    ensures
        match r {
            Some((t, j)) => sp_string(v@, i as int) == Some((t@, j as int)) && i <= j <= v@.len(),
            None => sp_string(v@, i as int) is None,
        },
{
    if i < v.len() && v[i] == '"' {
        p_str_body(v, i + 1, String::new())
    } else {
        None
    }
}

/// Parse a digit run onto `acc`.
fn p_digits(v: &Vec<char>, i: usize, acc: u64) -> (r: Option<(u64, usize)>)
    requires
        i <= v@.len(),
        acc < 1_000_000_000_000_000_010,
    ensures
        match r {
            Some((n, j)) => sp_digits(v@, i as int, acc as int) == Some((n as int, j as int)) && i
                <= j <= v@.len() && n < 1_000_000_000_000_000_010,
            None => sp_digits(v@, i as int, acc as int) is None,
        },
    decreases v@.len() - i,
{
    if i < v.len() {
        let c = v[i];
        if '0' <= c && c <= '9' {
            if acc >= 100_000_000_000_000_000 {
                return None;
            }
            let d: u64 = (c as u32 - 48) as u64;
            return p_digits(v, i + 1, acc * 10 + d);
        }
    }
    Some((acc, i))
}

/// Parse an integer literal at `i`.
fn p_int(v: &Vec<char>, i: usize) -> (r: Option<(i64, usize)>)
    requires
        i <= v@.len(),
    ensures
        match r {
            Some((n, j)) => sp_int(v@, i as int) == Some((n as int, j as int)) && i <= j
                <= v@.len(),
            None => sp_int(v@, i as int) is None,
        },
{
    if i < v.len() && v[i] == '-' {
        if i + 1 < v.len() && '0' <= v[i + 1] && v[i + 1] <= '9' {
            match p_digits(v, i + 1, 0) {
                Some((n, j)) => Some((-(n as i64), j)),
                None => None,
            }
        } else {
            None
        }
    } else if i < v.len() && '0' <= v[i] && v[i] <= '9' {
        match p_digits(v, i, 0) {
            Some((n, j)) => Some((n as i64, j)),
            None => None,
        }
    } else {
        None
    }
}

/// Whether the characters of `w` occur verbatim at position `i`.
fn matches_at(v: &Vec<char>, i: usize, w: &str) -> (r: bool)
    requires
        i <= v@.len(),
    ensures
        r == sp_match_at(v@, i as int, w@),
{
    let wv = crate::text::chars_vec(w);
    let wn = wv.len();
    if wn > v.len() - i {
        return false;
    }
    let mut k: usize = 0;
    while k < wn
        invariant
            wv@ == w@,
            wn == w@.len(),
            i + wn <= v@.len(),
            v@.len() <= usize::MAX,
            k <= wn,
            forall|q: int| 0 <= q < k ==> v@[i + q] == w@[q],
        decreases wn - k,
    {
        if v[i + k] != wv[k] {
            return false;
        }
        k = k + 1;
    }
    proof {
        assert(v@.subrange(i as int, i + w@.len()) =~= w@);
    }
    true
}

/// Parse one value of the grammar, after optional leading whitespace.
pub fn p_value(v: &Vec<char>, i: usize) -> (r: Option<(JsonValue, usize)>)
    requires
        i <= v@.len(),
    ensures
        match r {
            Some((jv, j)) => sp_value(v@, i as int) == Some((jv.v(), j as int)) && i <= j
                <= v@.len(),
            None => sp_value(v@, i as int) is None,
        },
    decreases v@.len() - i, 0int,
{
    proof {
        reveal_strlit("true");
        reveal_strlit("false");
        reveal_strlit("null");
    }
    let j = skip_ws(v, i);
    if !(j < v.len()) {
        return None;
    }
    let c = v[j];
    if c == '"' {
        match p_string(v, j) {
            Some((t, k)) => Some((JsonValue::Text(t), k)),
            None => None,
        }
    } else if c == '-' || ('0' <= c && c <= '9') {
        match p_int(v, j) {
            Some((n, k)) => Some((JsonValue::Int(n), k)),
            None => None,
        }
    } else if matches_at(v, j, "true") {
        Some((JsonValue::Bool(true), j + 4))
    } else if matches_at(v, j, "false") {
        Some((JsonValue::Bool(false), j + 5))
    } else if matches_at(v, j, "null") {
        Some((JsonValue::Null, j + 4))
    } else if c == '[' {
        let k = skip_ws(v, j + 1);
        if k < v.len() && v[k] == ']' {
            let items: Vec<JsonValue> = Vec::new();
            proof {
                lemma_arr_view(items);
                assert(seq_v(items@) =~= Seq::<JsonV>::empty());
            }
            Some((JsonValue::Arr(items), k + 1))
        } else if j + 1 > i {
            match p_elems(v, j + 1) {
                Some((items, m)) => {
                    proof {
                        lemma_arr_view(items);
                    }
                    Some((JsonValue::Arr(items), m))
                },
                None => None,
            }
        } else {
            None
        }
    } else if c == '{' {
        let k = skip_ws(v, j + 1);
        if k < v.len() && v[k] == '}' {
            let fields: Vec<(String, JsonValue)> = Vec::new();
            proof {
                lemma_obj_view(fields);
                assert(fields_v(fields@) =~= Seq::<(Seq<char>, JsonV)>::empty());
            }
            Some((JsonValue::Obj(fields), k + 1))
        } else if j + 1 > i {
            match p_members(v, j + 1) {
                Some((fields, m)) => {
                    proof {
                        lemma_obj_view(fields);
                    }
                    Some((JsonValue::Obj(fields), m))
                },
                None => None,
            }
        } else {
            None
        }
    } else {
        None
    }
}

/// Parse the elements of a non-empty array, closing bracket included.
fn p_elems(v: &Vec<char>, i: usize) -> (r: Option<(Vec<JsonValue>, usize)>)
    requires
        i <= v@.len(),
    ensures
        match r {
            Some((items, j)) => sp_elems(v@, i as int) == Some((seq_v(items@), j as int)) && i <= j
                <= v@.len(),
            None => sp_elems(v@, i as int) is None,
        },
    decreases v@.len() - i, 1int,
{
    match p_value(v, i) {
        Some((val, j)) => {
            let k = skip_ws(v, j);
            if !(k < v.len()) {
                None
            } else if v[k] == ']' {
                let mut items: Vec<JsonValue> = Vec::new();
                items.push(val);
                proof {
                    assert(seq_v(items@) =~= seq![val.v()]);
                }
                Some((items, k + 1))
            } else if v[k] == ',' && k + 1 > i {
                match p_elems(v, k + 1) {
                    Some((rest, m)) => {
                        let ghost rest_view = seq_v(rest@);
                        let mut items = rest;
                        items.insert(0, val);
                        proof {
                            assert(seq_v(items@) =~= seq![val.v()] + rest_view);
                        }
                        Some((items, m))
                    },
                    None => None,
                }
            } else {
                None
            }
        },
        None => None,
    }
}

/// Parse the fields of a non-empty object, closing brace included.
fn p_members(v: &Vec<char>, i: usize) -> (r: Option<(Vec<(String, JsonValue)>, usize)>)
    requires
        i <= v@.len(),
    ensures
        match r {
            Some((fields, j)) => sp_members(v@, i as int) == Some((fields_v(fields@), j as int))
                && i <= j <= v@.len(),
            None => sp_members(v@, i as int) is None,
        },
    decreases v@.len() - i, 2int,
{
    let j = skip_ws(v, i);
    match p_string(v, j) {
        Some((key, p)) => {
            let q = skip_ws(v, p);
            if !(q < v.len() && v[q] == ':') {
                None
            } else {
                match p_value(v, q + 1) {
                    Some((val, r2)) => {
                        let t = skip_ws(v, r2);
                        if !(t < v.len()) {
                            None
                        } else if v[t] == '}' {
                            let mut fields: Vec<(String, JsonValue)> = Vec::new();
                            let ghost kv = (key@, val.v());
                            fields.push((key, val));
                            proof {
                                assert(fields_v(fields@) =~= seq![kv]);
                            }
                            Some((fields, t + 1))
                        } else if v[t] == ',' && t + 1 > i {
                            match p_members(v, t + 1) {
                                Some((rest, m)) => {
                                    let ghost rest_view = fields_v(rest@);
                                    let ghost kv = (key@, val.v());
                                    let mut fields = rest;
                                    fields.insert(0, (key, val));
                                    proof {
                                        assert(fields_v(fields@) =~= seq![kv] + rest_view);
                                    }
                                    Some((fields, m))
                                },
                                None => None,
                            }
                        } else {
                            None
                        }
                    },
                    None => None,
                }
            }
        },
        None => None,
    }
}

// ---------------------------------------------------------------------------
// Extracting the value span from free text
// ---------------------------------------------------------------------------
/// The first position at or after `i` holding `c`.
pub open spec fn sp_find(s: Seq<char>, i: int, c: char) -> Option<int>
    decreases s.len() - i,
{
    if !(0 <= i < s.len()) {
        None
    } else if s[i] == c {
        Some(i)
    } else {
        sp_find(s, i + 1, c)
    }
}

/// The last position at or before `i` holding `c`.
pub open spec fn sp_rfind(s: Seq<char>, i: int, c: char) -> Option<int>
    decreases i + 1,
{
    if !(0 <= i < s.len()) {
        None
    } else if s[i] == c {
        Some(i)
    } else {
        sp_rfind(s, i - 1, c)
    }
}

/// A whole input that is exactly one value, padded by whitespace.
pub open spec fn sp_exact(s: Seq<char>) -> Option<JsonV> {
    match sp_value(s, 0) {
        Some((v, j)) => if sp_ws(s, j) == s.len() {
            Some(v)
        } else {
            None
        },
        None => None,
    }
}

/// The value denoted by the span running from the first `open` character
/// to the last `close` character of the text, if that span is exactly one
/// value of the grammar.
pub open spec fn sp_span(s: Seq<char>, open: char, close: char) -> Option<JsonV> {
    match sp_find(s, 0, open) {
        Some(a) => match sp_rfind(s, s.len() - 1, close) {
            Some(b) => if a < b {
                sp_exact(s.subrange(a, b + 1))
            } else {
                None
            },
            None => None,
        },
        None => None,
    }
}

fn find_char(v: &Vec<char>, c: char) -> (r: Option<usize>)
    ensures
        match r {
            Some(a) => sp_find(v@, 0, c) == Some(a as int) && a < v@.len(),
            None => sp_find(v@, 0, c) is None,
        },
{
    let mut i: usize = 0;
    while i < v.len()
        invariant
            i <= v@.len(),
            sp_find(v@, 0, c) == sp_find(v@, i as int, c),
        decreases v@.len() - i,
    {
        if v[i] == c {
            return Some(i);
        }
        i = i + 1;
    }
    None
}

fn rfind_char(v: &Vec<char>, c: char) -> (r: Option<usize>)
    ensures
        match r {
            Some(b) => sp_rfind(v@, v@.len() - 1, c) == Some(b as int) && b < v@.len(),
            None => sp_rfind(v@, v@.len() - 1, c) is None,
        },
{
    let mut i: usize = v.len();
    while i > 0
        invariant
            i <= v@.len(),
            sp_rfind(v@, v@.len() - 1, c) == sp_rfind(v@, i as int - 1, c),
        decreases i,
    {
        let j = i - 1;
        if v[j] == c {
            return Some(j);
        }
        i = j;
    }
    None
}

pub(crate) fn subvec(v: &Vec<char>, a: usize, b: usize) -> (r: Vec<char>)
    requires
        a <= b <= v@.len(),
    ensures
        r@ == v@.subrange(a as int, b as int),
{
    let mut r: Vec<char> = Vec::new();
    let mut i: usize = a;
    while i < b
        invariant
            a <= i <= b <= v@.len(),
            r@ == v@.subrange(a as int, i as int),
        decreases b - i,
    {
        r.push(v[i]);
        proof {
            assert(r@ =~= v@.subrange(a as int, i + 1 as int));
        }
        i = i + 1;
    }
    r
}

/// Parse a whole character vector as exactly one value.
pub fn parse_exact(v: &Vec<char>) -> (r: Option<JsonValue>)
    ensures
        match r {
            Some(jv) => sp_exact(v@) == Some(jv.v()),
            None => sp_exact(v@) is None,
        },
{
    match p_value(v, 0) {
        Some((jv, j)) => {
            let e = skip_ws(v, j);
            if e == v.len() {
                Some(jv)
            } else {
                None
            }
        },
        None => None,
    }
}

fn parse_span(text: &str, open: char, close: char) -> (r: Option<JsonValue>)
    ensures
        match r {
            Some(jv) => sp_span(text@, open, close) == Some(jv.v()),
            None => sp_span(text@, open, close) is None,
        },
{
    let v = crate::text::chars_vec(text);
    match find_char(&v, open) {
        Some(a) => match rfind_char(&v, close) {
            Some(b) => {
                if a < b {
                    let sub = subvec(&v, a, b + 1);
                    parse_exact(&sub)
                } else {
                    None
                }
            },
            None => None,
        },
        None => None,
    }
}

/// Extract and parse the span from the first opening brace to the last
/// closing brace.
pub fn parse_object_span(text: &str) -> (r: Option<JsonValue>)
    ensures
        match r {
            Some(jv) => sp_span(text@, '{', '}') == Some(jv.v()),
            None => sp_span(text@, '{', '}') is None,
        },
{
    parse_span(text, '{', '}')
}

/// Extract and parse the span from the first opening bracket to the last
/// closing bracket.
pub fn parse_array_span(text: &str) -> (r: Option<JsonValue>)
    ensures
        match r {
            Some(jv) => sp_span(text@, '[', ']') == Some(jv.v()),
            None => sp_span(text@, '[', ']') is None,
        },
{
    parse_span(text, '[', ']')
}

// ---------------------------------------------------------------------------
// Reading parsed objects
// ---------------------------------------------------------------------------
/// The value under the first field named `key`.
pub open spec fn sp_lookup(fs: Seq<(Seq<char>, JsonV)>, key: Seq<char>) -> Option<JsonV>
    decreases fs.len(),
{
    if fs.len() == 0 {
        None
    } else if fs[0].0 == key {
        Some(fs[0].1)
    } else {
        sp_lookup(fs.drop_first(), key)
    }
}

/// Field lookup on a value that must be an object.
pub open spec fn sp_get(v: JsonV, key: Seq<char>) -> Option<JsonV> {
    match v {
        JsonV::Obj(fs) => sp_lookup(fs, key),
        _ => None,
    }
}

/// A string field of an object, or `None` when absent or not a string.
pub open spec fn sp_get_text(v: JsonV, key: Seq<char>) -> Option<Seq<char>> {
    match sp_get(v, key) {
        Some(JsonV::Text(t)) => Some(t),
        _ => None,
    }
}

/// An integer field of an object, or `None` when absent or not an integer.
pub open spec fn sp_get_int(v: JsonV, key: Seq<char>) -> Option<i64> {
    match sp_get(v, key) {
        Some(JsonV::Int(n)) => Some(n),
        _ => None,
    }
}

/// An array field of an object, or `None` when absent or not an array.
pub open spec fn sp_get_arr(v: JsonV, key: Seq<char>) -> Option<Seq<JsonV>> {
    match sp_get(v, key) {
        Some(JsonV::Arr(items)) => Some(items),
        _ => None,
    }
}

impl JsonValue {
    /// Look up the first field with the given key, if this is an object.
    pub fn get<'a>(&'a self, key: &str) -> (r: Option<&'a JsonValue>)
        ensures
            match r {
                Some(f) => sp_get(self.v(), key@) == Some(f.v()),
                None => sp_get(self.v(), key@) is None,
            },
    {
        match self {
            JsonValue::Obj(fields) => {
                proof {
                    assert(*self == JsonValue::Obj(*fields));
                    lemma_obj_view(*fields);
                    assert(fields_v(fields@).skip(0) =~= fields_v(fields@));
                }
                let mut i: usize = 0;
                while i < fields.len()
                    invariant
                        i <= fields@.len(),
                        self.v() == JsonV::Obj(fields_v(fields@)),
                        sp_lookup(fields_v(fields@), key@) == sp_lookup(
                            fields_v(fields@).skip(i as int),
                            key@,
                        ),
                    decreases fields@.len() - i,
                {
                    let hit = crate::text::str_eq_str(fields[i].0.as_str(), key);
                    proof {
                        assert(fields_v(fields@).skip(i as int)[0] == fields_v(fields@)[i as int]);
                        assert(fields_v(fields@).skip(i as int).drop_first() =~= fields_v(
                            fields@,
                        ).skip(i + 1));
                    }
                    if hit {
                        proof {
                            assert(fields_v(fields@).skip(i as int).len() > 0);
                            assert(sp_lookup(fields_v(fields@).skip(i as int), key@) == Some(
                                fields_v(fields@)[i as int].1,
                            ));
                            assert(fields_v(fields@)[i as int].1 == fields@[i as int].1.v());
                            assert(self.v() == JsonV::Obj(fields_v(fields@)));
                        }
                        return Some(&fields[i].1);
                    }
                    i = i + 1;
                }
                None
            },
            _ => None,
        }
    }

    /// A string field of this object.
    pub fn get_text(&self, key: &str) -> (r: Option<String>)
        ensures
            match r {
                Some(t) => sp_get_text(self.v(), key@) == Some(t@),
                None => sp_get_text(self.v(), key@) is None,
            },
    {
        match self.get(key) {
            Some(JsonValue::Text(t)) => Some(t.clone()),
            _ => None,
        }
    }

    /// An integer field of this object.
    pub fn get_int(&self, key: &str) -> (r: Option<i64>)
        ensures
            match r {
                Some(n) => sp_get_int(self.v(), key@) == Some(n),
                None => sp_get_int(self.v(), key@) is None,
            },
    {
        match self.get(key) {
            Some(JsonValue::Int(n)) => Some(*n),
            _ => None,
        }
    }

    /// An array field of this object.
    pub fn get_arr<'a>(&'a self, key: &str) -> (r: Option<&'a Vec<JsonValue>>)
        ensures
            match r {
                Some(items) => sp_get_arr(self.v(), key@) == Some(seq_v(items@)),
                None => sp_get_arr(self.v(), key@) is None,
            },
    {
        match self.get(key) {
            Some(JsonValue::Arr(items)) => {
                proof {
                    lemma_arr_view(*items);
                }
                Some(items)
            },
            _ => None,
        }
    }
}

/// The strings of an array whose elements are all strings.
pub open spec fn sp_texts(items: Seq<JsonV>) -> Option<Seq<Seq<char>>>
    decreases items.len(),
{
    if items.len() == 0 {
        Some(Seq::empty())
    } else {
        match items[0] {
            JsonV::Text(t) => match sp_texts(items.drop_first()) {
                Some(rest) => Some(seq![t] + rest),
                None => None,
            },
            _ => None,
        }
    }
}

/// Collect the strings of an array of string values; `None` when an
/// element is not a string.
pub fn texts_of(items: &Vec<JsonValue>) -> (r: Option<Vec<String>>)
    ensures
        match r {
            Some(ts) => sp_texts(seq_v(items@)) == Some(
                Seq::new(ts@.len(), |k: int| ts@[k]@),
            ) && ts@.len() == items@.len(),
            None => sp_texts(seq_v(items@)) is None,
        },
{
    let mut ts: Vec<String> = Vec::new();
    let mut i: usize = 0;
    while i < items.len()
        invariant
            i <= items@.len(),
            ts@.len() == i,
            forall|k: int|
                0 <= k < i ==> (#[trigger] items@[k].v() matches JsonV::Text(t) && ts@[k]@ == t),
        decreases items@.len() - i,
    {
        match &items[i] {
            JsonValue::Text(t) => {
                ts.push(t.clone());
            },
            _ => {
                proof {
                    lemma_texts_none(seq_v(items@), i as int);
                }
                return None;
            },
        }
        i = i + 1;
    }
    proof {
        lemma_texts_some(seq_v(items@), Seq::new(ts@.len(), |k: int| ts@[k]@));
    }
    Some(ts)
}

/// If some element of `items` is not a string, the array has no string
/// collection.
proof fn lemma_texts_none(items: Seq<JsonV>, bad: int)
    requires
        0 <= bad < items.len(),
        !(items[bad] is Text),
    ensures
        sp_texts(items) is None,
    decreases items.len(),
{
    if items.len() > 0 {
        if bad == 0 {
        } else {
            match items[0] {
                JsonV::Text(_) => {
                    lemma_texts_none(items.drop_first(), bad - 1);
                },
                _ => {},
            }
        }
    }
}

/// If every element of `items` is the string at the same index of `ts`,
/// the collection is exactly `ts`.
proof fn lemma_texts_some(items: Seq<JsonV>, ts: Seq<Seq<char>>)
    requires
        items.len() == ts.len(),
        forall|k: int|
            0 <= k < items.len() ==> (#[trigger] items[k] matches JsonV::Text(t) && ts[k] == t),
    ensures
        sp_texts(items) == Some(ts),
    decreases items.len(),
{
    if items.len() == 0 {
        assert(ts =~= Seq::<Seq<char>>::empty());
    } else {
        lemma_texts_some(items.drop_first(), ts.drop_first());
        match items[0] {
            JsonV::Text(t) => {
                assert(seq![t] + ts.drop_first() =~= ts);
            },
            _ => {},
        }
    }
}

} // verus!
