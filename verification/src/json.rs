use vstd::prelude::*;
use vstd::string::*;

verus! {

/// Relies on std's `String::push`: appends exactly the given character to
/// the end of the string.
#[verifier::external_body]
pub(crate) fn push_char(out: &mut String, c: char)
    ensures
        final(out)@ == old(out)@ + seq![c],
{
    out.push(c);
}

/// The lower-case hexadecimal digit for `d`.
pub open spec fn hex_char(d: int) -> char {
    if d == 0 { '0' }
    else if d == 1 { '1' }
    else if d == 2 { '2' }
    else if d == 3 { '3' }
    else if d == 4 { '4' }
    else if d == 5 { '5' }
    else if d == 6 { '6' }
    else if d == 7 { '7' }
    else if d == 8 { '8' }
    else if d == 9 { '9' }
    else if d == 10 { 'a' }
    else if d == 11 { 'b' }
    else if d == 12 { 'c' }
    else if d == 13 { 'd' }
    else if d == 14 { 'e' }
    else { 'f' }
}

/// How one character is written inside a JSON string literal: quote and
/// backslash get a backslash, the named control characters get their short
/// escapes, other control characters get `\u00XX`, and everything else
/// stands for itself.
pub open spec fn esc_char(c: char) -> Seq<char> {
    if c == '"' { seq!['\\', '"'] }
    else if c == '\\' { seq!['\\', '\\'] }
    else if c == '\u{8}' { seq!['\\', 'b'] }
    else if c == '\u{c}' { seq!['\\', 'f'] }
    else if c == '\n' { seq!['\\', 'n'] }
    else if c == '\r' { seq!['\\', 'r'] }
    else if c == '\t' { seq!['\\', 't'] }
    else if (c as u32) < 0x20 {
        seq!['\\', 'u', '0', '0', hex_char((c as u32) as int / 16), hex_char((c as u32) as int % 16)]
    }
    else { seq![c] }
}

/// The JSON escaping of the characters of `s` from index `i` on.
pub open spec fn escaped_from(s: Seq<char>, i: int) -> Seq<char>
    decreases s.len() - i when 0 <= i <= s.len()
{
    if i >= s.len() {
        Seq::<char>::empty()
    } else {
        esc_char(s[i]) + escaped_from(s, i + 1)
    }
}

/// The JSON escaping of all of `s`.
pub open spec fn escaped(s: Seq<char>) -> Seq<char> {
    escaped_from(s, 0)
}

/// A JSON string literal: quotes around the escaped characters.
pub open spec fn json_string(s: Seq<char>) -> Seq<char> {
    seq!['"'] + escaped(s) + seq!['"']
}

/// Appends the lower-case hexadecimal digit for `d`.
fn push_hex(out: &mut String, d: u32)
    requires
        d < 16,
    ensures
        final(out)@ == old(out)@ + seq![hex_char(d as int)],
{
    if d == 0 { push_char(out, '0') }
    else if d == 1 { push_char(out, '1') }
    else if d == 2 { push_char(out, '2') }
    else if d == 3 { push_char(out, '3') }
    else if d == 4 { push_char(out, '4') }
    else if d == 5 { push_char(out, '5') }
    else if d == 6 { push_char(out, '6') }
    else if d == 7 { push_char(out, '7') }
    else if d == 8 { push_char(out, '8') }
    else if d == 9 { push_char(out, '9') }
    else if d == 10 { push_char(out, 'a') }
    else if d == 11 { push_char(out, 'b') }
    else if d == 12 { push_char(out, 'c') }
    else if d == 13 { push_char(out, 'd') }
    else if d == 14 { push_char(out, 'e') }
    else { push_char(out, 'f') }
}

/// Appends the JSON escaping of the one character `c`.
fn push_esc_char(out: &mut String, c: char)
    ensures
        final(out)@ == old(out)@ + esc_char(c),
{
    if c == '"' {
        push_char(out, '\\');
        push_char(out, '"');
        proof { assert(out@ =~= old(out)@ + esc_char(c)); }
    } else if c == '\\' {
        push_char(out, '\\');
        push_char(out, '\\');
        proof { assert(out@ =~= old(out)@ + esc_char(c)); }
    } else if c == '\u{8}' {
        push_char(out, '\\');
        push_char(out, 'b');
        proof { assert(out@ =~= old(out)@ + esc_char(c)); }
    } else if c == '\u{c}' {
        push_char(out, '\\');
        push_char(out, 'f');
        proof { assert(out@ =~= old(out)@ + esc_char(c)); }
    } else if c == '\n' {
        push_char(out, '\\');
        push_char(out, 'n');
        proof { assert(out@ =~= old(out)@ + esc_char(c)); }
    } else if c == '\r' {
        push_char(out, '\\');
        push_char(out, 'r');
        proof { assert(out@ =~= old(out)@ + esc_char(c)); }
    } else if c == '\t' {
        push_char(out, '\\');
        push_char(out, 't');
        proof { assert(out@ =~= old(out)@ + esc_char(c)); }
    } else if (c as u32) < 0x20 {
        let u = c as u32;
        push_char(out, '\\');
        push_char(out, 'u');
        push_char(out, '0');
        push_char(out, '0');
        push_hex(out, u / 16);
        push_hex(out, u % 16);
        proof { assert(out@ =~= old(out)@ + esc_char(c)); }
    } else {
        push_char(out, c);
        proof { assert(out@ =~= old(out)@ + esc_char(c)); }
    }
}

/// Appends the JSON escaping of the characters of `s` from index `i` on.
fn push_escaped_from(s: &str, i: usize, out: &mut String)
    requires
        i <= s@.len(),
    ensures
        final(out)@ == old(out)@ + escaped_from(s@, i as int),
    decreases s@.len() - i,
{
    let n = s.unicode_len();
    if i < n {
        let c = s.get_char(i);
        push_esc_char(out, c);
        push_escaped_from(s, i + 1, out);
        proof { assert(out@ =~= old(out)@ + escaped_from(s@, i as int)); }
    } else {
        proof { assert(out@ =~= old(out)@ + escaped_from(s@, i as int)); }
    }
}

/// Appends `s` as a JSON string literal: quoted and escaped.
pub(crate) fn push_json_string(s: &str, out: &mut String)
    ensures
        final(out)@ == old(out)@ + json_string(s@),
{
    push_char(out, '"');
    push_escaped_from(s, 0, out);
    push_char(out, '"');
    proof { assert(out@ =~= old(out)@ + json_string(s@)); }
}

/// The decimal digits of `n`, most significant first.
pub open spec fn dec_digits(n: nat) -> Seq<char>
    decreases n,
{
    if n < 10 {
        seq![hex_char(n as int)]
    } else {
        dec_digits(n / 10) + seq![hex_char((n % 10) as int)]
    }
}

/// The decimal rendering of `n`, with a leading minus sign when negative.
pub open spec fn int_dec(n: int) -> Seq<char> {
    if n < 0 {
        seq!['-'] + dec_digits((-n) as nat)
    } else {
        dec_digits(n as nat)
    }
}

/// Appends the decimal digits of `n`.
fn push_dec_u32(out: &mut String, n: u32)
    ensures
        final(out)@ == old(out)@ + dec_digits(n as nat),
    decreases n,
{
    if n < 10 {
        push_hex(out, n);
    } else {
        push_dec_u32(out, n / 10);
        push_hex(out, n % 10);
        proof { assert(out@ =~= old(out)@ + dec_digits(n as nat)); }
    }
}

/// Appends the decimal rendering of `n`.
pub(crate) fn push_dec_i32(out: &mut String, n: i32)
    ensures
        final(out)@ == old(out)@ + int_dec(n as int),
{
    if n < 0 {
        push_char(out, '-');
        let m: u32 = (-(n as i64)) as u32;
        proof { assert(m as nat == (-(n as int)) as nat); }
        push_dec_u32(out, m);
        proof { assert(out@ =~= old(out)@ + int_dec(n as int)); }
    } else {
        push_dec_u32(out, n as u32);
    }
}

// ------------------------------------------------------------------
// Reading the fixed response envelope: a scanner over JSON text.
// ------------------------------------------------------------------

/// The fuel every scan of `s` starts with. Scanning consumes at most one
/// unit of fuel per recursive step and never needs more than two steps per
/// character, so this bound never runs out on a string a machine can hold.
pub open spec fn json_fuel(s: Seq<char>) -> nat {
    if s.len() >= (usize::MAX - 2) / 2 {
        usize::MAX as nat
    } else {
        (2 * s.len() + 2) as nat
    }
}

/// Whether `c` is insignificant JSON whitespace.
pub open spec fn is_ws(c: char) -> bool {
    c == ' ' || c == '\t' || c == '\n' || c == '\r'
}

/// The first position at or after `i` holding something other than
/// whitespace.
pub open spec fn skip_ws(s: Seq<char>, i: int) -> int
    decreases s.len() - i when i <= s.len()
{
    if 0 <= i && i < s.len() && is_ws(s[i]) {
        skip_ws(s, i + 1)
    } else {
        i
    }
}

/// Whether `c` is a decimal digit.
pub open spec fn is_digit(c: char) -> bool {
    '0' <= c && c <= '9'
}

/// Whether `c` can appear in a JSON number token.
pub open spec fn is_num_char(c: char) -> bool {
    is_digit(c) || c == '-' || c == '+' || c == '.' || c == 'e' || c == 'E'
}

/// The first position at or after `i` that is not part of a number token.
pub open spec fn num_end(s: Seq<char>, i: int, fuel: nat) -> int
    decreases fuel,
{
    if fuel == 0 {
        i
    } else if 0 <= i < s.len() && is_num_char(s[i]) {
        num_end(s, i + 1, (fuel - 1) as nat)
    } else {
        i
    }
}

/// The position just after the closing quote of a string literal whose
/// opening quote stands just before `i`. A backslash always escapes the
/// character after it.
pub open spec fn string_end(s: Seq<char>, i: int, fuel: nat) -> Option<int>
    decreases fuel,
{
    if fuel == 0 {
        None
    } else if !(0 <= i < s.len()) {
        None
    } else if s[i] == '"' {
        Some(i + 1)
    } else if s[i] == '\\' {
        if i + 2 <= s.len() {
            string_end(s, i + 2, (fuel - 1) as nat)
        } else {
            None
        }
    } else {
        string_end(s, i + 1, (fuel - 1) as nat)
    }
}

/// The position just after the JSON value starting at `i`, or `None` when
/// no value starts there. Compact JSON: no whitespace between tokens.
pub open spec fn value_end(s: Seq<char>, i: int, fuel: nat) -> Option<int>
    decreases fuel,
{
    if fuel == 0 {
        None
    } else if !(0 <= i < s.len()) {
        None
    } else {
        let c = s[i];
        if c == '"' {
            string_end(s, i + 1, (fuel - 1) as nat)
        } else if c == '{' {
            match obj_rest(s, i + 1, (fuel - 1) as nat) {
                Some(p) => Some(p.1),
                None => None,
            }
        } else if c == '[' {
            match arr_rest(s, i + 1, (fuel - 1) as nat) {
                Some(p) => Some(p.1),
                None => None,
            }
        } else if c == 't' {
            if i + 4 <= s.len() && s[i + 1] == 'r' && s[i + 2] == 'u' && s[i + 3] == 'e' {
                Some(i + 4)
            } else {
                None
            }
        } else if c == 'f' {
            if i + 5 <= s.len() && s[i + 1] == 'a' && s[i + 2] == 'l' && s[i + 3] == 's' && s[i + 4]
                == 'e' {
                Some(i + 5)
            } else {
                None
            }
        } else if c == 'n' {
            if i + 4 <= s.len() && s[i + 1] == 'u' && s[i + 2] == 'l' && s[i + 3] == 'l' {
                Some(i + 4)
            } else {
                None
            }
        } else if is_num_char(c) {
            if num_end(s, i, (fuel - 1) as nat) > i {
                Some(num_end(s, i, (fuel - 1) as nat))
            } else {
                None
            }
        } else {
            None
        }
    }
}

/// The members of an object whose opening brace stands just before `i`:
/// the raw key texts paired with the raw value texts, in order, and the
/// position just after the closing brace. Whitespace may surround every
/// token; a captured value text carries none of it.
pub open spec fn obj_rest(s: Seq<char>, i: int, fuel: nat) -> Option<
    (Seq<(Seq<char>, Seq<char>)>, int),
>
    decreases fuel,
{
    if fuel == 0 {
        None
    } else {
        let j = skip_ws(s, i);
        if !(0 <= j < s.len()) {
            None
        } else if s[j] == '}' {
            Some((Seq::<(Seq<char>, Seq<char>)>::empty(), j + 1))
        } else if s[j] == '"' {
            match string_end(s, j + 1, (fuel - 1) as nat) {
                None => None,
                Some(ke) => {
                    let key = s.subrange(j + 1, ke - 1);
                    let jc = skip_ws(s, ke);
                    if jc < s.len() && s[jc] == ':' {
                        let vs = skip_ws(s, jc + 1);
                        match value_end(s, vs, (fuel - 1) as nat) {
                            None => None,
                            Some(ve) => {
                                let val = s.subrange(vs, ve);
                                let je = skip_ws(s, ve);
                                if je < s.len() && s[je] == ',' {
                                    match obj_rest(s, je + 1, (fuel - 1) as nat) {
                                        None => None,
                                        Some(rest) => Some((seq![(key, val)] + rest.0, rest.1)),
                                    }
                                } else if je < s.len() && s[je] == '}' {
                                    Some((seq![(key, val)], je + 1))
                                } else {
                                    None
                                }
                            },
                        }
                    } else {
                        None
                    }
                },
            }
        } else {
            None
        }
    }
}

/// The items of an array whose opening bracket stands just before `i`: the
/// raw item texts in order, and the position just after the closing
/// bracket.
pub open spec fn arr_rest(s: Seq<char>, i: int, fuel: nat) -> Option<(Seq<Seq<char>>, int)>
    decreases fuel,
{
    if fuel == 0 {
        None
    } else {
        let j = skip_ws(s, i);
        if !(0 <= j < s.len()) {
            None
        } else if s[j] == ']' {
            Some((Seq::<Seq<char>>::empty(), j + 1))
        } else {
            match value_end(s, j, (fuel - 1) as nat) {
                None => None,
                Some(ve) => {
                    let val = s.subrange(j, ve);
                    let je = skip_ws(s, ve);
                    if je < s.len() && s[je] == ',' {
                        match arr_rest(s, je + 1, (fuel - 1) as nat) {
                            None => None,
                            Some(rest) => Some((seq![val] + rest.0, rest.1)),
                        }
                    } else if je < s.len() && s[je] == ']' {
                        Some((seq![val], je + 1))
                    } else {
                        None
                    }
                },
            }
        }
    }
}

/// The fields of the JSON object that the whole of `s` spells: `None`
/// unless `s` is exactly one object, with nothing but whitespace before or
/// after it.
pub open spec fn obj_fields(s: Seq<char>) -> Option<Seq<(Seq<char>, Seq<char>)>> {
    let b = skip_ws(s, 0);
    if b < s.len() && s[b] == '{' {
        match obj_rest(s, b + 1, json_fuel(s)) {
            Some(p) => if skip_ws(s, p.1) == s.len() {
                Some(p.0)
            } else {
                None
            },
            None => None,
        }
    } else {
        None
    }
}

/// The item texts of the JSON array that the whole of `s` spells.
pub open spec fn arr_items(s: Seq<char>) -> Option<Seq<Seq<char>>> {
    let b = skip_ws(s, 0);
    if b < s.len() && s[b] == '[' {
        match arr_rest(s, b + 1, json_fuel(s)) {
            Some(p) => if skip_ws(s, p.1) == s.len() {
                Some(p.0)
            } else {
                None
            },
            None => None,
        }
    } else {
        None
    }
}

/// The texts of a sequence of key-value string pairs.
pub open spec fn pairs_view(v: Seq<(String, String)>) -> Seq<(Seq<char>, Seq<char>)> {
    v.map_values(|p: (String, String)| (p.0@, p.1@))
}

/// The texts of a sequence of strings.
pub open spec fn strs_view(v: Seq<String>) -> Seq<Seq<char>> {
    v.map_values(|s: String| s@)
}

/// Runs [`skip_ws`] on the string.
fn exec_skip_ws(s: &str, i: usize) -> (r: usize)
    requires
        i <= s@.len(),
    ensures
        r == skip_ws(s@, i as int),
        i <= r <= s@.len(),
    decreases s@.len() - i,
{
    let n = s.unicode_len();
    if i < n {
        let c = s.get_char(i);
        if c == ' ' || c == '\t' || c == '\n' || c == '\r' {
            exec_skip_ws(s, i + 1)
        } else {
            i
        }
    } else {
        i
    }
}

/// Runs [`num_end`] on the string.
fn exec_num_end(s: &str, i: usize, fuel: usize) -> (r: usize)
    requires
        i <= s@.len(),
    ensures
        r == num_end(s@, i as int, fuel as nat),
        i <= r <= s@.len(),
    decreases fuel,
{
    let n = s.unicode_len();
    if fuel == 0 {
        i
    } else if i < n {
        let c = s.get_char(i);
        if ('0' <= c && c <= '9') || c == '-' || c == '+' || c == '.' || c == 'e' || c == 'E' {
            exec_num_end(s, i + 1, fuel - 1)
        } else {
            i
        }
    } else {
        i
    }
}

/// Runs [`string_end`] on the string.
fn exec_string_end(s: &str, i: usize, fuel: usize) -> (r: Option<usize>)
    requires
        i <= s@.len(),
    ensures
        match string_end(s@, i as int, fuel as nat) {
            Some(e) => r matches Some(x) && x as int == e && i + 1 <= e <= s@.len(),
            None => r is None,
        },
    decreases fuel,
{
    let n = s.unicode_len();
    if fuel == 0 {
        None
    } else if i >= n {
        None
    } else {
        let c = s.get_char(i);
        if c == '"' {
            Some(i + 1)
        } else if c == '\\' {
            if n - i >= 2 {
                exec_string_end(s, i + 2, fuel - 1)
            } else {
                None
            }
        } else {
            exec_string_end(s, i + 1, fuel - 1)
        }
    }
}

/// Runs [`value_end`] on the string.
pub(crate) fn exec_value_end(s: &str, i: usize, fuel: usize) -> (r: Option<usize>)
    requires
        i <= s@.len(),
    ensures
        match value_end(s@, i as int, fuel as nat) {
            Some(e) => r matches Some(x) && x as int == e && i < e <= s@.len(),
            None => r is None,
        },
    decreases fuel,
{
    let n = s.unicode_len();
    if fuel == 0 {
        None
    } else if i >= n {
        None
    } else {
        let c = s.get_char(i);
        if c == '"' {
            exec_string_end(s, i + 1, fuel - 1)
        } else if c == '{' {
            match exec_obj_rest(s, i + 1, fuel - 1) {
                Some(p) => Some(p.1),
                None => None,
            }
        } else if c == '[' {
            match exec_arr_rest(s, i + 1, fuel - 1) {
                Some(p) => Some(p.1),
                None => None,
            }
        } else if c == 't' {
            if n - i >= 4 && s.get_char(i + 1) == 'r' && s.get_char(i + 2) == 'u' && s.get_char(
                i + 3,
            ) == 'e' {
                Some(i + 4)
            } else {
                None
            }
        } else if c == 'f' {
            if n - i >= 5 && s.get_char(i + 1) == 'a' && s.get_char(i + 2) == 'l' && s.get_char(
                i + 3,
            ) == 's' && s.get_char(i + 4) == 'e' {
                Some(i + 5)
            } else {
                None
            }
        } else if c == 'n' {
            if n - i >= 4 && s.get_char(i + 1) == 'u' && s.get_char(i + 2) == 'l' && s.get_char(
                i + 3,
            ) == 'l' {
                Some(i + 4)
            } else {
                None
            }
        } else if ('0' <= c && c <= '9') || c == '-' || c == '+' || c == '.' || c == 'e' || c
            == 'E' {
            let e = exec_num_end(s, i, fuel - 1);
            if e > i {
                Some(e)
            } else {
                None
            }
        } else {
            None
        }
    }
}

/// Runs [`obj_rest`] on the string, collecting the raw key and value texts.
pub(crate) fn exec_obj_rest(s: &str, i: usize, fuel: usize) -> (r: Option<
    (Vec<(String, String)>, usize),
>)
    requires
        i <= s@.len(),
    ensures
        match obj_rest(s@, i as int, fuel as nat) {
            Some(p) => r matches Some(x) && pairs_view(x.0@) == p.0 && x.1 as int == p.1 && i
                < p.1 <= s@.len(),
            None => r is None,
        },
    decreases fuel,
{
    let n = s.unicode_len();
    if fuel == 0 {
        None
    } else {
        let j = exec_skip_ws(s, i);
        if j >= n {
            return None;
        }
        let c = s.get_char(j);
        if c == '}' {
            let empty: Vec<(String, String)> = Vec::new();
            proof { assert(pairs_view(empty@) =~= Seq::<(Seq<char>, Seq<char>)>::empty()); }
            Some((empty, j + 1))
        } else if c == '"' {
            match exec_string_end(s, j + 1, fuel - 1) {
                None => None,
                Some(ke) => {
                    let key = s.substring_char(j + 1, ke - 1).to_owned();
                    let jc = exec_skip_ws(s, ke);
                    if jc < n && s.get_char(jc) == ':' {
                        let vs = exec_skip_ws(s, jc + 1);
                        match exec_value_end(s, vs, fuel - 1) {
                            None => None,
                            Some(ve) => {
                                let val = s.substring_char(vs, ve).to_owned();
                                let je = exec_skip_ws(s, ve);
                                if je < n && s.get_char(je) == ',' {
                                    match exec_obj_rest(s, je + 1, fuel - 1) {
                                        None => None,
                                        Some(rest) => {
                                            let (mut pairs, e) = rest;
                                            pairs.insert(0, (key, val));
                                            proof {
                                                let ghost m = obj_rest(
                                                    s@,
                                                    i as int,
                                                    fuel as nat,
                                                )->Some_0;
                                                assert(pairs_view(pairs@) =~= m.0);
                                            }
                                            Some((pairs, e))
                                        },
                                    }
                                } else if je < n && s.get_char(je) == '}' {
                                    let mut pairs: Vec<(String, String)> = Vec::new();
                                    pairs.push((key, val));
                                    proof {
                                        let ghost m = obj_rest(s@, i as int, fuel as nat)->Some_0;
                                        assert(pairs_view(pairs@) =~= m.0);
                                    }
                                    Some((pairs, je + 1))
                                } else {
                                    None
                                }
                            },
                        }
                    } else {
                        None
                    }
                },
            }
        } else {
            None
        }
    }
}

/// Runs [`arr_rest`] on the string, collecting the raw item texts.
pub(crate) fn exec_arr_rest(s: &str, i: usize, fuel: usize) -> (r: Option<(Vec<String>, usize)>)
    requires
        i <= s@.len(),
    ensures
        match arr_rest(s@, i as int, fuel as nat) {
            Some(p) => r matches Some(x) && strs_view(x.0@) == p.0 && x.1 as int == p.1 && i < p.1
                <= s@.len(),
            None => r is None,
        },
    decreases fuel,
{
    let n = s.unicode_len();
    if fuel == 0 {
        return None;
    }
    let j = exec_skip_ws(s, i);
    if j >= n {
        None
    } else if s.get_char(j) == ']' {
        let empty: Vec<String> = Vec::new();
        proof { assert(strs_view(empty@) =~= Seq::<Seq<char>>::empty()); }
        Some((empty, j + 1))
    } else {
        match exec_value_end(s, j, fuel - 1) {
            None => None,
            Some(ve) => {
                let val = s.substring_char(j, ve).to_owned();
                let je = exec_skip_ws(s, ve);
                if je < n && s.get_char(je) == ',' {
                    match exec_arr_rest(s, je + 1, fuel - 1) {
                        None => None,
                        Some(rest) => {
                            let (mut items, e) = rest;
                            items.insert(0, val);
                            proof {
                                let ghost m = arr_rest(s@, i as int, fuel as nat)->Some_0;
                                assert(strs_view(items@) =~= m.0);
                            }
                            Some((items, e))
                        },
                    }
                } else if je < n && s.get_char(je) == ']' {
                    let mut items: Vec<String> = Vec::new();
                    items.push(val);
                    proof {
                        let ghost m = arr_rest(s@, i as int, fuel as nat)->Some_0;
                        assert(strs_view(items@) =~= m.0);
                    }
                    Some((items, je + 1))
                } else {
                    None
                }
            },
        }
    }
}

/// The starting fuel for scanning `s` at run time.
fn exec_json_fuel(s: &str) -> (r: usize)
    ensures
        r as nat == json_fuel(s@),
{
    let n = s.unicode_len();
    if n >= (usize::MAX - 2) / 2 {
        usize::MAX
    } else {
        2 * n + 2
    }
}

/// Runs [`obj_fields`] on the string.
pub(crate) fn exec_obj_fields(s: &str) -> (r: Option<Vec<(String, String)>>)
    ensures
        match obj_fields(s@) {
            Some(ps) => r matches Some(x) && pairs_view(x@) == ps,
            None => r is None,
        },
{
    let n = s.unicode_len();
    let b = exec_skip_ws(s, 0);
    if b < n && s.get_char(b) == '{' {
        let fuel = exec_json_fuel(s);
        match exec_obj_rest(s, b + 1, fuel) {
            Some(p) => {
                let e = exec_skip_ws(s, p.1);
                if e == n {
                    Some(p.0)
                } else {
                    None
                }
            },
            None => None,
        }
    } else {
        None
    }
}

/// Runs [`arr_items`] on the string.
pub(crate) fn exec_arr_items(s: &str) -> (r: Option<Vec<String>>)
    ensures
        match arr_items(s@) {
            Some(items) => r matches Some(x) && strs_view(x@) == items,
            None => r is None,
        },
{
    let n = s.unicode_len();
    let b = exec_skip_ws(s, 0);
    if b < n && s.get_char(b) == '[' {
        let fuel = exec_json_fuel(s);
        match exec_arr_rest(s, b + 1, fuel) {
            Some(p) => {
                let e = exec_skip_ws(s, p.1);
                if e == n {
                    Some(p.0)
                } else {
                    None
                }
            },
            None => None,
        }
    } else {
        None
    }
}

} // verus!
