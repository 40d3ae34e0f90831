//! A verified parser for the token endpoint's JSON responses.
//!
//! The accepted shape is a single flat object. `access_token` and
//! `refresh_token` must be strings without escape sequences, and
//! `expires_in` an unsigned integer that fits in 64 bits; a response
//! must carry `access_token` and `expires_in`, while `refresh_token`
//! may be absent. Every other member is skipped and may hold any JSON
//! value — strings with escapes, numbers with fractions or exponents,
//! booleans, null, and nested arrays and objects. Skipped strings have
//! their escape pairs stepped over without validating the escape
//! itself.
use vstd::prelude::*;

verus! {

/// JSON whitespace.
pub open spec fn is_json_ws(c: char) -> bool {
    c == ' ' || c == '\t' || c == '\n' || c == '\r'
}

/// The first index at or after `i` holding no whitespace.
pub open spec fn skip_ws(s: Seq<char>, i: int) -> int
    decreases s.len() - i,
{
    if 0 <= i < s.len() && is_json_ws(s[i]) {
        skip_ws(s, i + 1)
    } else {
        i
    }
}

/// The index of the closing quote at or after `i`, or -1 if the string
/// never closes or holds an escape.
pub open spec fn scan_string_end(s: Seq<char>, i: int) -> int
    decreases s.len() - i,
{
    if !(0 <= i < s.len()) {
        -1
    } else if s[i] == '"' {
        i
    } else if s[i] == '\\' {
        -1
    } else {
        scan_string_end(s, i + 1)
    }
}

/// A string literal at `i`: its contents and the index after the
/// closing quote.
pub open spec fn spec_parse_string(s: Seq<char>, i: int) -> Option<(Seq<char>, int)> {
    if 0 <= i < s.len() && s[i] == '"' {
        let e = scan_string_end(s, i + 1);
        if e >= 0 {
            Some((s.subrange(i + 1, e), e + 1))
        } else {
            None
        }
    } else {
        None
    }
}

/// An ASCII decimal digit.
pub open spec fn is_digit_char(c: char) -> bool {
    48 <= c as int && c as int <= 57
}

/// The first index at or after `i` holding no digit.
pub open spec fn scan_digits(s: Seq<char>, i: int) -> int
    decreases s.len() - i,
{
    if 0 <= i < s.len() && is_digit_char(s[i]) {
        scan_digits(s, i + 1)
    } else {
        i
    }
}

/// The value of the digit run `s[i..j)`.
pub open spec fn digits_value(s: Seq<char>, i: int, j: int) -> int
    decreases j - i,
{
    if i >= j {
        0
    } else {
        digits_value(s, i, j - 1) * 10 + (s[j - 1] as int - 48)
    }
}

/// An unsigned integer at `i` that fits in 64 bits: its value and the
/// index after its digits.
pub open spec fn spec_parse_number(s: Seq<char>, i: int) -> Option<(int, int)> {
    let j = scan_digits(s, i);
    if j > i && digits_value(s, i, j) <= u64::MAX as int {
        Some((digits_value(s, i, j), j))
    } else {
        None
    }
}

/// The index after the closing quote of a string that may hold escape
/// pairs, scanning from `i` inside the quotes, or -1 if it never
/// closes.
pub open spec fn scan_string_esc(s: Seq<char>, i: int) -> int
    decreases s.len() - i,
{
    if !(0 <= i < s.len()) {
        -1
    } else if s[i] == '"' {
        i + 1
    } else if s[i] == '\\' {
        if i + 1 < s.len() {
            scan_string_esc(s, i + 2)
        } else {
            -1
        }
    } else {
        scan_string_esc(s, i + 1)
    }
}

/// A member key at `i`: its raw contents (escape pairs kept as they
/// stand) and the index after the closing quote.
pub open spec fn spec_parse_key(s: Seq<char>, i: int) -> Option<(Seq<char>, int)> {
    if 0 <= i < s.len() && s[i] == '"' {
        let e = scan_string_esc(s, i + 1);
        if e >= 0 {
            Some((s.subrange(i + 1, e - 1), e))
        } else {
            None
        }
    } else {
        None
    }
}

/// The keys the parser extracts; all others are skipped.
pub open spec fn is_known_key(k: Seq<char>) -> bool {
    k == "access_token"@ || k == "refresh_token"@ || k == "expires_in"@
}

/// The index after a fraction part at `j`, `j` itself if none stands
/// there, or -1 for a point without digits.
pub open spec fn scan_frac_end(s: Seq<char>, j: int) -> int {
    if 0 <= j < s.len() && s[j] == '.' {
        let f = scan_digits(s, j + 1);
        if f == j + 1 {
            -1
        } else {
            f
        }
    } else {
        j
    }
}

/// The index after an exponent part at `j`, `j` itself if none stands
/// there, or -1 for an exponent without digits.
pub open spec fn scan_exp_end(s: Seq<char>, j: int) -> int {
    if 0 <= j < s.len() && (s[j] == 'e' || s[j] == 'E') {
        let k = if j + 1 < s.len() && (s[j + 1] == '+' || s[j + 1] == '-') {
            j + 2
        } else {
            j + 1
        };
        let f = scan_digits(s, k);
        if f == k {
            -1
        } else {
            f
        }
    } else {
        j
    }
}

/// The index after a full JSON number at `i` (optional sign, integer
/// part, optional fraction and exponent), or -1.
pub open spec fn scan_number_end(s: Seq<char>, i: int) -> int {
    let j0 = if 0 <= i < s.len() && s[i] == '-' {
        i + 1
    } else {
        i
    };
    let j1 = scan_digits(s, j0);
    if j1 == j0 {
        -1
    } else {
        let j2 = scan_frac_end(s, j1);
        if j2 < 0 {
            -1
        } else {
            let j3 = scan_exp_end(s, j2);
            if j3 < 0 {
                -1
            } else {
                j3
            }
        }
    }
}

/// The literal `true` stands at `i`.
pub open spec fn is_true_at(s: Seq<char>, i: int) -> bool {
    0 <= i && i + 4 <= s.len() && s[i] == 't' && s[i + 1] == 'r' && s[i + 2] == 'u' && s[i + 3]
        == 'e'
}

/// The literal `false` stands at `i`.
pub open spec fn is_false_at(s: Seq<char>, i: int) -> bool {
    0 <= i && i + 5 <= s.len() && s[i] == 'f' && s[i + 1] == 'a' && s[i + 2] == 'l' && s[i + 3]
        == 's' && s[i + 4] == 'e'
}

/// The literal `null` stands at `i`.
pub open spec fn is_null_at(s: Seq<char>, i: int) -> bool {
    0 <= i && i + 4 <= s.len() && s[i] == 'n' && s[i + 1] == 'u' && s[i + 2] == 'l' && s[i + 3]
        == 'l'
}

/// The index after any JSON value at `i`, or None. The fuel bounds the
/// recursion; `s.len()` is always enough, since every nested call
/// starts at least one character further in.
pub open spec fn spec_skip_value(s: Seq<char>, i: int, fuel: nat) -> Option<int>
    decreases fuel,
{
    if fuel == 0 {
        None
    } else if !(0 <= i < s.len()) {
        None
    } else if s[i] == '"' {
        let e = scan_string_esc(s, i + 1);
        if e >= 0 {
            Some(e)
        } else {
            None
        }
    } else if s[i] == '{' {
        let j = skip_ws(s, i + 1);
        if 0 <= j < s.len() && s[j] == '}' {
            Some(j + 1)
        } else {
            spec_skip_members(s, j, (fuel - 1) as nat)
        }
    } else if s[i] == '[' {
        let j = skip_ws(s, i + 1);
        if 0 <= j < s.len() && s[j] == ']' {
            Some(j + 1)
        } else {
            spec_skip_items(s, j, (fuel - 1) as nat)
        }
    } else if is_true_at(s, i) {
        Some(i + 4)
    } else if is_false_at(s, i) {
        Some(i + 5)
    } else if is_null_at(s, i) {
        Some(i + 4)
    } else {
        let e = scan_number_end(s, i);
        if e >= 0 {
            Some(e)
        } else {
            None
        }
    }
}

/// The members of a skipped object from the first key at `i`, up to
/// and including the closing brace: the index after the brace.
pub open spec fn spec_skip_members(s: Seq<char>, i: int, fuel: nat) -> Option<int>
    decreases fuel,
{
    if fuel == 0 {
        None
    } else {
        match spec_parse_key(s, i) {
            None => None,
            Some((_key, i2)) => {
                let i3 = skip_ws(s, i2);
                if 0 <= i3 < s.len() && s[i3] == ':' {
                    let i4 = skip_ws(s, i3 + 1);
                    match spec_skip_value(s, i4, (fuel - 1) as nat) {
                        None => None,
                        Some(i5) => {
                            let i6 = skip_ws(s, i5);
                            if 0 <= i6 < s.len() && s[i6] == ',' {
                                spec_skip_members(s, skip_ws(s, i6 + 1), (fuel - 1) as nat)
                            } else if 0 <= i6 < s.len() && s[i6] == '}' {
                                Some(i6 + 1)
                            } else {
                                None
                            }
                        },
                    }
                } else {
                    None
                }
            },
        }
    }
}

/// The items of a skipped array from the first item at `i`, up to and
/// including the closing bracket: the index after the bracket.
pub open spec fn spec_skip_items(s: Seq<char>, i: int, fuel: nat) -> Option<int>
    decreases fuel,
{
    if fuel == 0 {
        None
    } else {
        match spec_skip_value(s, i, (fuel - 1) as nat) {
            None => None,
            Some(i5) => {
                let i6 = skip_ws(s, i5);
                if 0 <= i6 < s.len() && s[i6] == ',' {
                    spec_skip_items(s, skip_ws(s, i6 + 1), (fuel - 1) as nat)
                } else if 0 <= i6 < s.len() && s[i6] == ']' {
                    Some(i6 + 1)
                } else {
                    None
                }
            },
        }
    }
}

/// A member value: a string or an integer.
pub enum JsonVal {
    StrV(Seq<char>),
    NumV(int),
}

/// A value at `i`: a string if a quote stands there, else an integer.
pub open spec fn spec_parse_value(s: Seq<char>, i: int) -> Option<(JsonVal, int)> {
    if 0 <= i < s.len() && s[i] == '"' {
        match spec_parse_string(s, i) {
            Some((x, j)) => Some((JsonVal::StrV(x), j)),
            None => None,
        }
    } else {
        match spec_parse_number(s, i) {
            Some((v, j)) => Some((JsonVal::NumV(v), j)),
            None => None,
        }
    }
}

/// The fields a token response carries, as collected so far.
pub struct TokenFields {
    pub access_token: Option<Seq<char>>,
    pub refresh_token: Option<Seq<char>>,
    pub expires_in: Option<int>,
}

/// One member folded into the fields. The three known keys demand
/// their type; later occurrences replace earlier ones; unknown keys
/// are ignored whatever their value.
pub open spec fn update_fields(f: TokenFields, key: Seq<char>, v: JsonVal) -> Option<TokenFields> {
    if key == "access_token"@ {
        match v {
            JsonVal::StrV(x) => Some(
                TokenFields {
                    access_token: Some(x),
                    refresh_token: f.refresh_token,
                    expires_in: f.expires_in,
                },
            ),
            JsonVal::NumV(_) => None,
        }
    } else if key == "refresh_token"@ {
        match v {
            JsonVal::StrV(x) => Some(
                TokenFields {
                    access_token: f.access_token,
                    refresh_token: Some(x),
                    expires_in: f.expires_in,
                },
            ),
            JsonVal::NumV(_) => None,
        }
    } else if key == "expires_in"@ {
        match v {
            JsonVal::NumV(x) => Some(
                TokenFields {
                    access_token: f.access_token,
                    refresh_token: f.refresh_token,
                    expires_in: Some(x),
                },
            ),
            JsonVal::StrV(_) => None,
        }
    } else {
        Some(f)
    }
}

/// The members from `i` on, folded into `f`, up to and including the
/// closing brace: the final fields and the index after the brace.
pub open spec fn spec_parse_members(s: Seq<char>, i: int, f: TokenFields, fuel: nat) -> Option<
    (TokenFields, int),
>
    decreases fuel,
{
    if fuel == 0 {
        None
    } else {
        match spec_parse_key(s, i) {
            None => None,
            Some((key, i2)) => {
                let i3 = skip_ws(s, i2);
                if 0 <= i3 < s.len() && s[i3] == ':' {
                    let i4 = skip_ws(s, i3 + 1);
                    let step: Option<(TokenFields, int)> = if is_known_key(key) {
                        match spec_parse_value(s, i4) {
                            None => None,
                            Some((v, i5)) => match update_fields(f, key, v) {
                                None => None,
                                Some(f2) => Some((f2, i5)),
                            },
                        }
                    } else {
                        match spec_skip_value(s, i4, s.len()) {
                            None => None,
                            Some(i5) => Some((f, i5)),
                        }
                    };
                    match step {
                        None => None,
                        Some((f2, i5)) => {
                            let i6 = skip_ws(s, i5);
                            if 0 <= i6 < s.len() && s[i6] == ',' {
                                let i7 = skip_ws(s, i6 + 1);
                                spec_parse_members(s, i7, f2, (fuel - 1) as nat)
                            } else if 0 <= i6 < s.len() && s[i6] == '}' {
                                Some((f2, i6 + 1))
                            } else {
                                None
                            }
                        },
                    }
                } else {
                    None
                }
            },
        }
    }
}

/// A whole token response: access token, optional refresh token, and
/// the expiry delay in seconds.
pub open spec fn spec_parse_token_response(s: Seq<char>) -> Option<
    (Seq<char>, Option<Seq<char>>, int),
> {
    let i1 = skip_ws(s, 0);
    if 0 <= i1 < s.len() && s[i1] == '{' {
        let i2 = skip_ws(s, i1 + 1);
        let init = TokenFields { access_token: None, refresh_token: None, expires_in: None };
        let res = if 0 <= i2 < s.len() && s[i2] == '}' {
            Some((init, i2 + 1))
        } else {
            spec_parse_members(s, i2, init, s.len())
        };
        match res {
            None => None,
            Some((f, j)) => {
                if skip_ws(s, j) == s.len() {
                    match (f.access_token, f.expires_in) {
                        (Some(at), Some(exp)) => Some((at, f.refresh_token, exp)),
                        _ => None,
                    }
                } else {
                    None
                }
            },
        }
    } else {
        None
    }
}

/// A parsed token response.
pub struct TokenResponse {
    pub access_token: String,
    pub refresh_token: Option<String>,
    pub expires_in: u64,
}

struct FieldsExec {
    access_token: Option<String>,
    refresh_token: Option<String>,
    expires_in: Option<u64>,
}

/// The view of an optional string.
pub open spec fn opt_str_view(o: Option<String>) -> Option<Seq<char>> {
    match o {
        Some(s) => Some(s@),
        None => None,
    }
}

/// The view of an optional integer.
pub open spec fn opt_int_view(o: Option<u64>) -> Option<int> {
    match o {
        Some(v) => Some(v as int),
        None => None,
    }
}

spec fn fields_view(f: &FieldsExec) -> TokenFields {
    TokenFields {
        access_token: opt_str_view(f.access_token),
        refresh_token: opt_str_view(f.refresh_token),
        expires_in: opt_int_view(f.expires_in),
    }
}

enum ValExec {
    S(String),
    N(u64),
}

spec fn val_view(v: &ValExec) -> JsonVal {
    match v {
        ValExec::S(s) => JsonVal::StrV(s@),
        ValExec::N(n) => JsonVal::NumV(*n as int),
    }
}

fn skip_ws_exec(s: &str, n: usize, i: usize) -> (r: usize)
    requires
        n == s@.len(),
        i <= n,
    ensures
        r == skip_ws(s@, i as int),
        i <= r <= n,
    decreases n - i,
{
    if i < n {
        let c = s.get_char(i);
        if c == ' ' || c == '\t' || c == '\n' || c == '\r' {
            skip_ws_exec(s, n, i + 1)
        } else {
            i
        }
    } else {
        i
    }
}

fn scan_string_end_exec(s: &str, n: usize, i: usize) -> (r: Option<usize>)
    requires
        n == s@.len(),
        i <= n,
    ensures
        r matches Some(e) ==> scan_string_end(s@, i as int) == e as int && i <= e < n,
        r is None ==> scan_string_end(s@, i as int) == -1,
    decreases n - i,
{
    if i >= n {
        None
    } else {
        let c = s.get_char(i);
        if c == '"' {
            Some(i)
        } else if c == '\\' {
            None
        } else {
            scan_string_end_exec(s, n, i + 1)
        }
    }
}

fn parse_string_exec(s: &str, n: usize, i: usize) -> (r: Option<(String, usize)>)
    requires
        n == s@.len(),
        i <= n,
    ensures
        r matches Some(p) ==> spec_parse_string(s@, i as int) == Some((p.0@, p.1 as int)) && i < p.1
            <= n,
        r is None ==> spec_parse_string(s@, i as int) is None,
{
    if i >= n {
        return None;
    }
    let c0 = s.get_char(i);
    if c0 != '"' {
        return None;
    }
    match scan_string_end_exec(s, n, i + 1) {
        None => None,
        Some(e) => {
            let content = s.substring_char(i + 1, e);
            Some((content.to_owned(), e + 1))
        },
    }
}

fn scan_string_esc_exec(s: &str, n: usize, i: usize) -> (r: Option<usize>)
    requires
        n == s@.len(),
        i <= n,
    ensures
        r matches Some(e) ==> scan_string_esc(s@, i as int) == e as int && i < e <= n,
        r is None ==> scan_string_esc(s@, i as int) == -1,
    decreases n - i,
{
    if i >= n {
        None
    } else {
        let c = s.get_char(i);
        if c == '"' {
            Some(i + 1)
        } else if c == '\\' {
            if i + 1 < n {
                scan_string_esc_exec(s, n, i + 2)
            } else {
                None
            }
        } else {
            scan_string_esc_exec(s, n, i + 1)
        }
    }
}

fn parse_key_exec(s: &str, n: usize, i: usize) -> (r: Option<(String, usize)>)
    requires
        n == s@.len(),
        i <= n,
    ensures
        r matches Some(p) ==> spec_parse_key(s@, i as int) == Some((p.0@, p.1 as int)) && i < p.1
            <= n,
        r is None ==> spec_parse_key(s@, i as int) is None,
{
    if i >= n {
        return None;
    }
    let c0 = s.get_char(i);
    if c0 != '"' {
        return None;
    }
    match scan_string_esc_exec(s, n, i + 1) {
        None => None,
        Some(e) => {
            let content = s.substring_char(i + 1, e - 1);
            Some((content.to_owned(), e))
        },
    }
}

fn scan_digits_exec(s: &str, n: usize, i: usize) -> (r: usize)
    requires
        n == s@.len(),
        i <= n,
    ensures
        r as int == scan_digits(s@, i as int),
        i <= r <= n,
    decreases n - i,
{
    if i < n {
        let c = s.get_char(i);
        let cv = c as u32;
        if 48 <= cv && cv <= 57 {
            scan_digits_exec(s, n, i + 1)
        } else {
            i
        }
    } else {
        i
    }
}

fn scan_frac_end_exec(s: &str, n: usize, j: usize) -> (r: Option<usize>)
    requires
        n == s@.len(),
        j <= n,
    ensures
        r matches Some(e) ==> scan_frac_end(s@, j as int) == e as int && j <= e <= n,
        r is None ==> scan_frac_end(s@, j as int) == -1,
{
    if j < n && s.get_char(j) == '.' {
        let f = scan_digits_exec(s, n, j + 1);
        if f == j + 1 {
            None
        } else {
            Some(f)
        }
    } else {
        Some(j)
    }
}

fn scan_exp_end_exec(s: &str, n: usize, j: usize) -> (r: Option<usize>)
    requires
        n == s@.len(),
        j <= n,
    ensures
        r matches Some(e) ==> scan_exp_end(s@, j as int) == e as int && j <= e <= n,
        r is None ==> scan_exp_end(s@, j as int) == -1,
{
    if j < n && (s.get_char(j) == 'e' || s.get_char(j) == 'E') {
        let k = if j + 1 < n && (s.get_char(j + 1) == '+' || s.get_char(j + 1) == '-') {
            j + 2
        } else {
            j + 1
        };
        let f = scan_digits_exec(s, n, k);
        if f == k {
            None
        } else {
            Some(f)
        }
    } else {
        Some(j)
    }
}

fn scan_number_end_exec(s: &str, n: usize, i: usize) -> (r: Option<usize>)
    requires
        n == s@.len(),
        i <= n,
    ensures
        r matches Some(e) ==> scan_number_end(s@, i as int) == e as int && e <= n,
        r is None ==> scan_number_end(s@, i as int) == -1,
{
    let j0 = if i < n && s.get_char(i) == '-' {
        i + 1
    } else {
        i
    };
    let j1 = scan_digits_exec(s, n, j0);
    if j1 == j0 {
        return None;
    }
    let j2 = match scan_frac_end_exec(s, n, j1) {
        None => {
            return None;
        },
        Some(j2) => j2,
    };
    match scan_exp_end_exec(s, n, j2) {
        None => None,
        Some(j3) => Some(j3),
    }
}

fn skip_value_exec(s: &str, n: usize, i: usize, fuel: usize) -> (r: Option<usize>)
    requires
        n == s@.len(),
        i <= n,
    ensures
        r matches Some(e) ==> spec_skip_value(s@, i as int, fuel as nat) == Some(e as int) && e
            <= n,
        r is None ==> spec_skip_value(s@, i as int, fuel as nat) is None,
    decreases fuel,
{
    if fuel == 0 || i >= n {
        return None;
    }
    let c = s.get_char(i);
    if c == '"' {
        match scan_string_esc_exec(s, n, i + 1) {
            Some(e) => Some(e),
            None => None,
        }
    } else if c == '{' {
        let j = skip_ws_exec(s, n, i + 1);
        if j < n && s.get_char(j) == '}' {
            Some(j + 1)
        } else {
            skip_members_exec(s, n, j, fuel - 1)
        }
    } else if c == '[' {
        let j = skip_ws_exec(s, n, i + 1);
        if j < n && s.get_char(j) == ']' {
            Some(j + 1)
        } else {
            skip_items_exec(s, n, j, fuel - 1)
        }
    } else if n - i >= 4 && c == 't' && s.get_char(i + 1) == 'r' && s.get_char(i + 2) == 'u'
        && s.get_char(i + 3) == 'e' {
        Some(i + 4)
    } else if n - i >= 5 && c == 'f' && s.get_char(i + 1) == 'a' && s.get_char(i + 2) == 'l'
        && s.get_char(i + 3) == 's' && s.get_char(i + 4) == 'e' {
        Some(i + 5)
    } else if n - i >= 4 && c == 'n' && s.get_char(i + 1) == 'u' && s.get_char(i + 2) == 'l'
        && s.get_char(i + 3) == 'l' {
        Some(i + 4)
    } else {
        proof {
            assert(!is_true_at(s@, i as int));
            assert(!is_false_at(s@, i as int));
            assert(!is_null_at(s@, i as int));
        }
        match scan_number_end_exec(s, n, i) {
            Some(e) => Some(e),
            None => None,
        }
    }
}

fn skip_members_exec(s: &str, n: usize, i: usize, fuel: usize) -> (r: Option<usize>)
    requires
        n == s@.len(),
        i <= n,
    ensures
        r matches Some(e) ==> spec_skip_members(s@, i as int, fuel as nat) == Some(e as int) && e
            <= n,
        r is None ==> spec_skip_members(s@, i as int, fuel as nat) is None,
    decreases fuel,
{
    if fuel == 0 {
        return None;
    }
    match parse_key_exec(s, n, i) {
        None => None,
        Some((_key, i2)) => {
            let i3 = skip_ws_exec(s, n, i2);
            if i3 < n && s.get_char(i3) == ':' {
                let i4 = skip_ws_exec(s, n, i3 + 1);
                match skip_value_exec(s, n, i4, fuel - 1) {
                    None => None,
                    Some(i5) => {
                        let i6 = skip_ws_exec(s, n, i5);
                        if i6 < n && s.get_char(i6) == ',' {
                            let i7 = skip_ws_exec(s, n, i6 + 1);
                            skip_members_exec(s, n, i7, fuel - 1)
                        } else if i6 < n && s.get_char(i6) == '}' {
                            Some(i6 + 1)
                        } else {
                            None
                        }
                    },
                }
            } else {
                None
            }
        },
    }
}

fn skip_items_exec(s: &str, n: usize, i: usize, fuel: usize) -> (r: Option<usize>)
    requires
        n == s@.len(),
        i <= n,
    ensures
        r matches Some(e) ==> spec_skip_items(s@, i as int, fuel as nat) == Some(e as int) && e
            <= n,
        r is None ==> spec_skip_items(s@, i as int, fuel as nat) is None,
    decreases fuel,
{
    if fuel == 0 {
        return None;
    }
    match skip_value_exec(s, n, i, fuel - 1) {
        None => None,
        Some(i5) => {
            let i6 = skip_ws_exec(s, n, i5);
            if i6 < n && s.get_char(i6) == ',' {
                let i7 = skip_ws_exec(s, n, i6 + 1);
                skip_items_exec(s, n, i7, fuel - 1)
            } else if i6 < n && s.get_char(i6) == ']' {
                Some(i6 + 1)
            } else {
                None
            }
        },
    }
}

proof fn lemma_scan_digits_props(s: Seq<char>, i: int)
    requires
        0 <= i <= s.len(),
    ensures
        i <= scan_digits(s, i) <= s.len(),
        forall|k: int| i <= k < scan_digits(s, i) ==> is_digit_char(#[trigger] s[k]),
    decreases s.len() - i,
{
    if i < s.len() && is_digit_char(s[i]) {
        lemma_scan_digits_props(s, i + 1);
    }
}

proof fn lemma_digits_value_nonneg(s: Seq<char>, i: int, j: int)
    requires
        i <= j,
        forall|k: int| i <= k < j ==> is_digit_char(#[trigger] s[k]),
    ensures
        digits_value(s, i, j) >= 0,
    decreases j - i,
{
    if i < j {
        lemma_digits_value_nonneg(s, i, j - 1);
    }
}

proof fn lemma_digits_value_mono(s: Seq<char>, i: int, j1: int, j2: int)
    requires
        i <= j1 <= j2,
        forall|k: int| i <= k < j2 ==> is_digit_char(#[trigger] s[k]),
    ensures
        digits_value(s, i, j1) <= digits_value(s, i, j2),
    decreases j2 - j1,
{
    if j1 < j2 {
        lemma_digits_value_mono(s, i, j1, j2 - 1);
        lemma_digits_value_nonneg(s, i, j2 - 1);
    }
}

fn parse_number_exec(s: &str, n: usize, i: usize) -> (r: Option<(u64, usize)>)
    requires
        n == s@.len(),
        i <= n,
    ensures
        r matches Some(p) ==> spec_parse_number(s@, i as int) == Some((p.0 as int, p.1 as int))
            && i < p.1 <= n,
        r is None ==> spec_parse_number(s@, i as int) is None,
{
    let mut j = i;
    let mut acc: u64 = 0;
    loop
        invariant
            n == s@.len(),
            i <= j <= n,
            forall|k: int| i <= k < j ==> is_digit_char(#[trigger] s@[k]),
            scan_digits(s@, i as int) == scan_digits(s@, j as int),
            acc as int == digits_value(s@, i as int, j as int),
        ensures
            i <= j <= n,
            scan_digits(s@, i as int) == scan_digits(s@, j as int),
            acc as int == digits_value(s@, i as int, j as int),
            j == n || !is_digit_char(s@[j as int]),
        decreases n - j,
    {
        if j >= n {
            break ;
        }
        let c = s.get_char(j);
        let cv = c as u32;
        if !(48 <= cv && cv <= 57) {
            break ;
        }
        let d: u64 = (cv - 48) as u64;
        assert(is_digit_char(s@[j as int]));
        assert(scan_digits(s@, j as int) == scan_digits(s@, j as int + 1));
        let next = match acc.checked_mul(10) {
            Some(t) => t.checked_add(d),
            None => None,
        };
        match next {
            Some(v) => {
                acc = v;
                j = j + 1;
            },
            None => {
                proof {
                    let full = scan_digits(s@, i as int);
                    lemma_scan_digits_props(s@, j as int);
                    lemma_scan_digits_props(s@, j as int + 1);
                    assert(digits_value(s@, i as int, j as int + 1) > u64::MAX as int);
                    lemma_digits_value_mono(s@, i as int, j as int + 1, full);
                }
                return None;
            },
        }
    }
    assert(scan_digits(s@, j as int) == j as int);
    if j == i {
        None
    } else {
        Some((acc, j))
    }
}

fn parse_value_exec(s: &str, n: usize, i: usize) -> (r: Option<(ValExec, usize)>)
    requires
        n == s@.len(),
        i <= n,
    ensures
        r matches Some(p) ==> spec_parse_value(s@, i as int) == Some((val_view(&p.0), p.1 as int))
            && i < p.1 <= n,
        r is None ==> spec_parse_value(s@, i as int) is None,
{
    if i < n && s.get_char(i) == '"' {
        match parse_string_exec(s, n, i) {
            Some(p) => Some((ValExec::S(p.0), p.1)),
            None => None,
        }
    } else {
        match parse_number_exec(s, n, i) {
            Some(p) => Some((ValExec::N(p.0), p.1)),
            None => None,
        }
    }
}

fn update_fields_exec(f: FieldsExec, key: &String, v: ValExec) -> (r: Option<FieldsExec>)
    ensures
        r matches Some(f2) ==> update_fields(fields_view(&f), key@, val_view(&v)) == Some(
            fields_view(&f2),
        ),
        r is None ==> update_fields(fields_view(&f), key@, val_view(&v)) is None,
{
    let at_key = String::from_str("access_token");
    let rt_key = String::from_str("refresh_token");
    let exp_key = String::from_str("expires_in");
    if key.eq(&at_key) {
        match v {
            ValExec::S(x) => Some(
                FieldsExec {
                    access_token: Some(x),
                    refresh_token: f.refresh_token,
                    expires_in: f.expires_in,
                },
            ),
            ValExec::N(_) => None,
        }
    } else if key.eq(&rt_key) {
        match v {
            ValExec::S(x) => Some(
                FieldsExec {
                    access_token: f.access_token,
                    refresh_token: Some(x),
                    expires_in: f.expires_in,
                },
            ),
            ValExec::N(_) => None,
        }
    } else if key.eq(&exp_key) {
        match v {
            ValExec::N(x) => Some(
                FieldsExec {
                    access_token: f.access_token,
                    refresh_token: f.refresh_token,
                    expires_in: Some(x),
                },
            ),
            ValExec::S(_) => None,
        }
    } else {
        Some(f)
    }
}

fn parse_members_exec(s: &str, n: usize, i: usize, f: FieldsExec, fuel: usize) -> (r: Option<
    (FieldsExec, usize),
>)
    requires
        n == s@.len(),
        i <= n,
    ensures
        r matches Some(p) ==> spec_parse_members(s@, i as int, fields_view(&f), fuel as nat)
            == Some((fields_view(&p.0), p.1 as int)) && p.1 <= n,
        r is None ==> spec_parse_members(s@, i as int, fields_view(&f), fuel as nat) is None,
    decreases fuel,
{
    if fuel == 0 {
        return None;
    }
    match parse_key_exec(s, n, i) {
        None => None,
        Some((key, i2)) => {
            let i3 = skip_ws_exec(s, n, i2);
            if i3 < n && s.get_char(i3) == ':' {
                let i4 = skip_ws_exec(s, n, i3 + 1);
                let at_key = String::from_str("access_token");
                let rt_key = String::from_str("refresh_token");
                let exp_key = String::from_str("expires_in");
                let known = key.eq(&at_key) || key.eq(&rt_key) || key.eq(&exp_key);
                let step: Option<(FieldsExec, usize)> = if known {
                    match parse_value_exec(s, n, i4) {
                        None => None,
                        Some((v, i5)) => match update_fields_exec(f, &key, v) {
                            None => None,
                            Some(f2) => Some((f2, i5)),
                        },
                    }
                } else {
                    match skip_value_exec(s, n, i4, n) {
                        None => None,
                        Some(i5) => Some((f, i5)),
                    }
                };
                match step {
                    None => None,
                    Some((f2, i5)) => {
                        let i6 = skip_ws_exec(s, n, i5);
                        if i6 < n && s.get_char(i6) == ',' {
                            let i7 = skip_ws_exec(s, n, i6 + 1);
                            parse_members_exec(s, n, i7, f2, fuel - 1)
                        } else if i6 < n && s.get_char(i6) == '}' {
                            Some((f2, i6 + 1))
                        } else {
                            None
                        }
                    },
                }
            } else {
                None
            }
        },
    }
}

/// Parses a token response body. The result corresponds exactly to
/// `spec_parse_token_response` on the body's characters: `Some` for
/// bodies of the accepted shape, with the fields it extracts, `None`
/// for every other body.
pub fn parse_token_response(body: &str) -> (r: Option<TokenResponse>)
    ensures
        r matches Some(t) ==> spec_parse_token_response(body@) == Some(
            (t.access_token@, opt_str_view(t.refresh_token), t.expires_in as int),
        ),
        r is None ==> spec_parse_token_response(body@) is None,
{
    let n = body.unicode_len();
    let i1 = skip_ws_exec(body, n, 0);
    if !(i1 < n && body.get_char(i1) == '{') {
        return None;
    }
    let i2 = skip_ws_exec(body, n, i1 + 1);
    let init = FieldsExec { access_token: None, refresh_token: None, expires_in: None };
    let res: Option<(FieldsExec, usize)> = if i2 < n && body.get_char(i2) == '}' {
        Some((init, i2 + 1))
    } else {
        parse_members_exec(body, n, i2, init, n)
    };
    match res {
        None => None,
        Some((f, j)) => {
            if skip_ws_exec(body, n, j) == n {
                match (f.access_token, f.expires_in) {
                    (Some(at), Some(exp)) => Some(
                        TokenResponse {
                            access_token: at,
                            refresh_token: f.refresh_token,
                            expires_in: exp,
                        },
                    ),
                    _ => None,
                }
            } else {
                None
            }
        },
    }
}

} // verus!
