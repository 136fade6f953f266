//! Character-level text utilities with exact specifications.

use vstd::prelude::*;

verus! {

/// Unicode `White_Space` property, as listed in the Unicode PropList.
pub open spec fn spec_is_whitespace(c: char) -> bool {
    let u = c as u32;
    ||| 0x09 <= u <= 0x0D
    ||| u == 0x20
    ||| u == 0x85
    ||| u == 0xA0
    ||| u == 0x1680
    ||| 0x2000 <= u <= 0x200A
    ||| u == 0x2028
    ||| u == 0x2029
    ||| u == 0x202F
    ||| u == 0x205F
    ||| u == 0x3000
}

/// Whether `c` has the Unicode `White_Space` property (what
/// `char::is_whitespace` tells).
pub fn is_white_space(c: char) -> (b: bool)
    ensures
        b == spec_is_whitespace(c),
{
    let u = c as u32;
    (0x09 <= u && u <= 0x0D) || u == 0x20 || u == 0x85 || u == 0xA0 || u == 0x1680 || (0x2000 <= u
        && u <= 0x200A) || u == 0x2028 || u == 0x2029 || u == 0x202F || u == 0x205F || u == 0x3000
}

/// `String::push` appends one character.
pub assume_specification[ String::push ](s: &mut String, ch: char)
    ensures
        final(s)@ == old(s)@.push(ch),
;

/// What `str::to_lowercase` returns for a string: the Unicode lowercase
/// mapping of each character.
pub uninterp spec fn spec_to_lowercase(s: Seq<char>) -> Seq<char>;

/// ASCII lowercase of one character.
pub open spec fn ascii_lower_char(c: char) -> char {
    if 'A' <= c <= 'Z' {
        ((c as u32) + 32) as char
    } else {
        c
    }
}

pub open spec fn all_ascii(s: Seq<char>) -> bool {
    forall|i: int| 0 <= i < s.len() ==> (s[i] as u32) < 128
}

/// Lowercase text: on ASCII text the Unicode lowercase mapping is the ASCII
/// one (`A`..`Z` to `a`..`z`, all other ASCII characters unchanged); on other
/// text it is what `str::to_lowercase` returns.
pub open spec fn lowercase_of(s: Seq<char>) -> Seq<char> {
    if all_ascii(s) {
        s.map_values(|c: char| ascii_lower_char(c))
    } else {
        spec_to_lowercase(s)
    }
}

/// Calls `str::to_lowercase`. On ASCII text the result is stated exactly
/// (the ASCII lowercase mapping); on other text it is named by
/// `spec_to_lowercase`, a function of the input alone.
#[verifier::external_body]
pub(crate) fn to_lowercase(s: &str) -> (r: String)
    ensures
        all_ascii(s@) ==> r@ == s@.map_values(|c: char| ascii_lower_char(c)),
        !all_ascii(s@) ==> r@ == spec_to_lowercase(s@),
{
    s.to_lowercase()
}

/// What `str::to_uppercase` returns for a string: the Unicode uppercase
/// mapping of each character.
pub uninterp spec fn spec_to_uppercase(s: Seq<char>) -> Seq<char>;

/// ASCII uppercase of one character.
pub open spec fn ascii_upper_char(c: char) -> char {
    if 'a' <= c <= 'z' {
        ((c as u32) - 32) as char
    } else {
        c
    }
}

/// Uppercase text: on ASCII text the ASCII mapping, on other text what
/// `str::to_uppercase` returns.
pub open spec fn uppercase_of(s: Seq<char>) -> Seq<char> {
    if all_ascii(s) {
        s.map_values(|c: char| ascii_upper_char(c))
    } else {
        spec_to_uppercase(s)
    }
}

/// Calls `str::to_uppercase`. On ASCII text the result is stated exactly
/// (the ASCII uppercase mapping); on other text it is named by
/// `spec_to_uppercase`, a function of the input alone.
#[verifier::external_body]
pub(crate) fn to_uppercase(s: &str) -> (r: String)
    ensures
        all_ascii(s@) ==> r@ == s@.map_values(|c: char| ascii_upper_char(c)),
        !all_ascii(s@) ==> r@ == spec_to_uppercase(s@),
{
    s.to_uppercase()
}

/// Leading whitespace removed.
pub open spec fn spec_trim_start(s: Seq<char>) -> Seq<char>
    decreases s.len(),
{
    if s.len() > 0 && spec_is_whitespace(s[0]) {
        spec_trim_start(s.drop_first())
    } else {
        s
    }
}

/// Trailing whitespace removed.
pub open spec fn spec_trim_end(s: Seq<char>) -> Seq<char>
    decreases s.len(),
{
    if s.len() > 0 && spec_is_whitespace(s.last()) {
        spec_trim_end(s.drop_last())
    } else {
        s
    }
}

/// Leading and trailing whitespace removed, as `str::trim` does.
pub open spec fn spec_trim(s: Seq<char>) -> Seq<char> {
    spec_trim_end(spec_trim_start(s))
}

/// Every `from` character replaced by `to`.
pub open spec fn spec_replace_char(s: Seq<char>, from: char, to: char) -> Seq<char> {
    s.map_values(|c: char| if c == from { to } else { c })
}

/// Text made only of lowercase ASCII letters, digits, `-` and `_`.
pub open spec fn is_plain_token(s: Seq<char>) -> bool {
    forall|i: int|
        0 <= i < s.len() ==> ('a' <= #[trigger] s[i] <= 'z' || '0' <= s[i] <= '9' || s[i] == '-'
            || s[i] == '_')
}

/// A plain token is unchanged by trimming and by lowercasing.
pub proof fn lemma_plain_token_normal(s: Seq<char>)
    requires
        is_plain_token(s),
    ensures
        spec_trim(s) == s,
        lowercase_of(s) == s,
{
    if s.len() > 0 {
        assert(!spec_is_whitespace(s[0]));
        assert(!spec_is_whitespace(s[s.len() - 1]));
    }
    assert(spec_trim_start(s) == s);
    assert(spec_trim_end(s) == s);
    assert(all_ascii(s));
    assert(s.map_values(|c: char| ascii_lower_char(c)) =~= s);
}

/// Replacing a character that does not occur changes nothing.
pub proof fn lemma_replace_absent(s: Seq<char>, from: char, to: char)
    requires
        forall|i: int| 0 <= i < s.len() ==> s[i] != from,
    ensures
        spec_replace_char(s, from, to) == s,
{
    assert(spec_replace_char(s, from, to) =~= s);
}

/// The characters of a string slice.
pub fn chars_of(s: &str) -> (v: Vec<char>)
    ensures
        v@ == s@,
{
    let n = s.unicode_len();
    let mut v: Vec<char> = Vec::new();
    let mut i: usize = 0;
    while i < n
        invariant
            n == s@.len(),
            i <= n,
            v@ == s@.subrange(0, i as int),
        decreases n - i,
    {
        let c = s.get_char(i);
        v.push(c);
        i = i + 1;
        assert(v@ =~= s@.subrange(0, i as int));
    }
    assert(v@ =~= s@);
    v
}

/// A string made of the characters of `v[lo..hi]`.
pub fn string_of(v: &Vec<char>, lo: usize, hi: usize) -> (s: String)
    requires
        lo <= hi <= v.len(),
    ensures
        s@ == v@.subrange(lo as int, hi as int),
{
    let mut s = String::new();
    let mut i: usize = lo;
    while i < hi
        invariant
            lo <= i <= hi <= v.len(),
            s@ == v@.subrange(lo as int, i as int),
        decreases hi - i,
    {
        s.push(v[i]);
        i = i + 1;
        assert(s@ =~= v@.subrange(lo as int, i as int));
    }
    s
}

/// A string with the same characters as a literal.
pub fn owned(s: &str) -> (r: String)
    ensures
        r@ == s@,
{
    let v = chars_of(s);
    string_of(&v, 0, v.len())
}

/// Concatenation of two strings.
pub fn concat(a: &str, b: &str) -> (r: String)
    ensures
        r@ == a@ + b@,
{
    let va = chars_of(a);
    let vb = chars_of(b);
    let mut r = string_of(&va, 0, va.len());
    let mut i: usize = 0;
    while i < vb.len()
        invariant
            i <= vb.len(),
            vb@ == b@,
            r@ == a@ + b@.subrange(0, i as int),
        decreases vb.len() - i,
    {
        r.push(vb[i]);
        i = i + 1;
        assert(r@ =~= a@ + b@.subrange(0, i as int));
    }
    assert(b@.subrange(0, b@.len() as int) =~= b@);
    r
}

/// Whether two strings have the same characters.
pub fn str_eq(a: &str, b: &str) -> (r: bool)
    ensures
        r == (a@ == b@),
{
    let va = chars_of(a);
    let vb = chars_of(b);
    if va.len() != vb.len() {
        return false;
    }
    let mut i: usize = 0;
    while i < va.len()
        invariant
            va@ == a@,
            vb@ == b@,
            va.len() == vb.len(),
            i <= va.len(),
            forall|j: int| 0 <= j < i ==> va@[j] == vb@[j],
        decreases va.len() - i,
    {
        if va[i] != vb[i] {
            return false;
        }
        i = i + 1;
    }
    assert(va@ =~= vb@);
    true
}

proof fn lemma_trim_start_skip(s: Seq<char>, i: int)
    requires
        0 <= i <= s.len(),
        forall|j: int| 0 <= j < i ==> spec_is_whitespace(s[j]),
    ensures
        spec_trim_start(s) == spec_trim_start(s.subrange(i, s.len() as int)),
    decreases i,
{
    if i > 0 {
        assert(s.drop_first() =~= s.subrange(1, s.len() as int));
        lemma_trim_start_skip(s.drop_first(), i - 1);
        assert(s.drop_first().subrange(i - 1, s.drop_first().len() as int) =~= s.subrange(
            i,
            s.len() as int,
        ));
    } else {
        assert(s.subrange(0, s.len() as int) =~= s);
    }
}

proof fn lemma_trim_end_take(s: Seq<char>, k: int)
    requires
        0 <= k <= s.len(),
        forall|j: int| k <= j < s.len() ==> spec_is_whitespace(s[j]),
    ensures
        spec_trim_end(s) == spec_trim_end(s.subrange(0, k)),
    decreases s.len() - k,
{
    if k < s.len() {
        assert(s.drop_last() =~= s.subrange(0, s.len() - 1));
        lemma_trim_end_take(s.drop_last(), k);
        assert(s.drop_last().subrange(0, k) =~= s.subrange(0, k));
    } else {
        assert(s.subrange(0, k) =~= s);
    }
}

/// Leading and trailing whitespace removed, as `str::trim` does.
pub fn trim(s: &str) -> (r: String)
    ensures
        r@ == spec_trim(s@),
{
    let v = chars_of(s);
    let n = v.len();
    let mut lo: usize = 0;
    while lo < n && is_white_space(v[lo])
        invariant
            v@ == s@,
            n == v.len(),
            lo <= n,
            forall|j: int| 0 <= j < lo ==> spec_is_whitespace(v@[j]),
        decreases n - lo,
    {
        lo = lo + 1;
    }
    proof {
        lemma_trim_start_skip(v@, lo as int);
    }
    let ghost t = v@.subrange(lo as int, n as int);
    assert(spec_trim_start(s@) == t);
    assert(lo == n || !spec_is_whitespace(t[0]));
    let mut hi: usize = n;
    while hi > lo && is_white_space(v[hi - 1])
        invariant
            v@ == s@,
            n == v.len(),
            lo <= hi <= n,
            t == v@.subrange(lo as int, n as int),
            forall|j: int| hi <= j < n ==> spec_is_whitespace(v@[j]),
        decreases hi - lo,
    {
        hi = hi - 1;
    }
    proof {
        let k = hi - lo;
        assert forall|j: int| k <= j < t.len() implies spec_is_whitespace(t[j]) by {
            assert(t[j] == v@[j + lo]);
        }
        lemma_trim_end_take(t, k as int);
        let u = t.subrange(0, k as int);
        assert(u =~= v@.subrange(lo as int, hi as int));
        if u.len() > 0 {
            assert(u.last() == v@[hi - 1]);
        }
        assert(spec_trim_end(u) == u);
    }
    string_of(&v, lo, hi)
}

/// Every `from` character of `s` replaced by `to`.
pub fn replace_char(s: &str, from: char, to: char) -> (r: String)
    ensures
        r@ == spec_replace_char(s@, from, to),
{
    let v = chars_of(s);
    let mut r = String::new();
    let mut i: usize = 0;
    while i < v.len()
        invariant
            v@ == s@,
            i <= v.len(),
            r@ == spec_replace_char(s@.subrange(0, i as int), from, to),
        decreases v.len() - i,
    {
        let c = v[i];
        if c == from {
            r.push(to);
        } else {
            r.push(c);
        }
        i = i + 1;
        assert(r@ =~= spec_replace_char(s@.subrange(0, i as int), from, to));
    }
    assert(s@.subrange(0, s@.len() as int) =~= s@);
    r
}

} // verus!

verus! {

/// The words of `s`: maximal runs of non-whitespace characters, as
/// `str::split_whitespace` yields them; `cur` is the word being read.
pub open spec fn words_from(s: Seq<char>, done: Seq<Seq<char>>, cur: Seq<char>) -> Seq<Seq<char>>
    decreases s.len(),
{
    if s.len() == 0 {
        if cur.len() > 0 {
            done.push(cur)
        } else {
            done
        }
    } else if spec_is_whitespace(s[0]) {
        words_from(s.drop_first(), if cur.len() > 0 { done.push(cur) } else { done }, seq![])
    } else {
        words_from(s.drop_first(), done, cur.push(s[0]))
    }
}

/// The whitespace-separated words of `s`.
pub open spec fn spec_words(s: Seq<char>) -> Seq<Seq<char>> {
    words_from(s, seq![], seq![])
}

/// The views of a vector of strings.
pub open spec fn views(v: Seq<String>) -> Seq<Seq<char>> {
    v.map_values(|x: String| x@)
}

/// The whitespace-separated words of `s`, as `str::split_whitespace` yields them.
pub fn split_whitespace(s: &str) -> (r: Vec<String>)
    ensures
        views(r@) == spec_words(s@),
{
    let v = chars_of(s);
    let mut done: Vec<String> = Vec::new();
    let mut start: usize = 0;
    let mut i: usize = 0;
    assert(views(done@) =~= seq![]);
    assert(s@.subrange(0, s@.len() as int) =~= s@);
    assert(s@.subrange(0, 0) =~= seq![]);
    while i < v.len()
        invariant
            v@ == s@,
            start <= i <= v.len(),
            spec_words(s@) == words_from(
                s@.subrange(i as int, s@.len() as int),
                views(done@),
                s@.subrange(start as int, i as int),
            ),
        decreases v.len() - i,
    {
        let ghost rest = s@.subrange(i as int, s@.len() as int);
        assert(rest.drop_first() =~= s@.subrange(i + 1, s@.len() as int));
        if is_white_space(v[i]) {
            if start < i {
                let w = string_of(&v, start, i);
                let ghost before = done@;
                let ghost wv = w@;
                done.push(w);
                assert(views(done@) =~= views(before).push(wv));
            }
            i = i + 1;
            start = i;
            assert(s@.subrange(start as int, i as int) =~= seq![]);
        } else {
            assert(s@.subrange(start as int, i + 1) =~= s@.subrange(start as int, i as int).push(
                s@[i as int],
            ));
            i = i + 1;
        }
    }
    if start < i {
        let w = string_of(&v, start, i);
        let ghost before = done@;
        let ghost wv = w@;
        done.push(w);
        assert(views(done@) =~= views(before).push(wv));
    }
    done
}

/// Strings joined with a separator, as `[String]::join` does.
pub open spec fn spec_join(v: Seq<Seq<char>>, sep: Seq<char>) -> Seq<char>
    decreases v.len(),
{
    if v.len() == 0 {
        seq![]
    } else if v.len() == 1 {
        v[0]
    } else {
        spec_join(v.drop_last(), sep) + sep + v.last()
    }
}

/// Strings joined with a separator.
pub fn join(v: &Vec<String>, sep: &str) -> (r: String)
    ensures
        r@ == spec_join(views(v@), sep@),
{
    let mut r = String::new();
    let mut i: usize = 0;
    while i < v.len()
        invariant
            i <= v.len(),
            r@ == spec_join(views(v@.subrange(0, i as int)), sep@),
        decreases v.len() - i,
    {
        let ghost prev = views(v@.subrange(0, i as int));
        if i == 0 {
            r = owned(v[0].as_str());
        } else {
            let a = concat(r.as_str(), sep);
            r = concat(a.as_str(), v[i].as_str());
        }
        i = i + 1;
        let ghost next = views(v@.subrange(0, i as int));
        assert(next.drop_last() =~= prev);
        assert(next.last() == v@[i - 1]@);
    }
    assert(v@.subrange(0, v@.len() as int) =~= v@);
    r
}

/// Decimal digits of a natural number, most significant first.
pub open spec fn spec_decimal(n: nat) -> Seq<char>
    decreases n,
{
    if n < 10 {
        seq![digit_char(n)]
    } else {
        spec_decimal(n / 10).push(digit_char(n % 10))
    }
}

/// The ASCII digit for a value below ten.
pub open spec fn digit_char(d: nat) -> char {
    (('0' as nat) + d) as char
}

/// Decimal representation of an unsigned number, as `u64::to_string` gives it.
pub fn decimal(n: u64) -> (r: String)
    ensures
        r@ == spec_decimal(n as nat),
    decreases n,
{
    if n < 10 {
        let mut r = String::new();
        r.push(digit_of(n));
        assert(r@ =~= spec_decimal(n as nat));
        r
    } else {
        let mut r = decimal(n / 10);
        r.push(digit_of(n % 10));
        r
    }
}

fn digit_of(d: u64) -> (c: char)
    requires
        d < 10,
    ensures
        c == digit_char(d as nat),
{
    if d == 0 { '0' } else if d == 1 { '1' } else if d == 2 { '2' } else if d == 3 { '3' }
    else if d == 4 { '4' } else if d == 5 { '5' } else if d == 6 { '6' } else if d == 7 { '7' }
    else if d == 8 { '8' } else { '9' }
}

/// Decimal representation of a signed number, with a leading `-` when negative.
pub open spec fn spec_signed_decimal(n: int) -> Seq<char> {
    if n < 0 {
        seq!['-'] + spec_decimal((-n) as nat)
    } else {
        spec_decimal(n as nat)
    }
}

/// Decimal representation of a signed number, as `i64::to_string` gives it.
pub fn signed_decimal(n: i64) -> (r: String)
    ensures
        r@ == spec_signed_decimal(n as int),
{
    if n < 0 {
        let m: u64 = if n == i64::MIN { 9223372036854775808u64 } else { (-n) as u64 };
        assert(m as int == -(n as int));
        let d = decimal(m);
        proof {
            reveal_strlit("-");
        }
        concat("-", d.as_str())
    } else {
        decimal(n as u64)
    }
}

/// Whether a character is an ASCII digit.
pub open spec fn is_digit(c: char) -> bool {
    '0' <= c <= '9'
}

/// The value of a run of ASCII digits.
pub open spec fn digits_value(s: Seq<char>) -> nat
    decreases s.len(),
{
    if s.len() == 0 {
        0
    } else {
        digits_value(s.drop_last()) * 10 + ((s.last() as nat) - ('0' as nat)) as nat
    }
}

/// The digits part of unsigned integer text: an optional leading `+` removed.
pub open spec fn unsigned_digits(s: Seq<char>) -> Seq<char> {
    if s.len() > 0 && s[0] == '+' {
        s.drop_first()
    } else {
        s
    }
}

/// The value that unsigned integer text denotes, as Rust's unsigned
/// `from_str` reads it: an optional `+`, then at least one ASCII digit.
pub open spec fn spec_parse_unsigned(s: Seq<char>) -> Option<nat> {
    let d = unsigned_digits(s);
    if d.len() > 0 && (forall|i: int| 0 <= i < d.len() ==> is_digit(#[trigger] d[i])) {
        Some(digits_value(d))
    } else {
        None
    }
}

/// Parse unsigned decimal text whose value must not exceed `max`, as Rust's
/// `from_str` does for an unsigned type whose largest value is `max`.
pub fn parse_unsigned(s: &str, max: u64) -> (r: Option<u64>)
    ensures
        r == (match spec_parse_unsigned(s@) {
            Some(v) => if v <= max { Some(v as u64) } else { None },
            None => None,
        }),
{
    let v = chars_of(s);
    let mut i: usize = 0;
    if v.len() > 0 && v[0] == '+' {
        i = 1;
    }
    let ghost d = unsigned_digits(s@);
    assert(d =~= s@.subrange(i as int, s@.len() as int));
    if i >= v.len() {
        return None;
    }
    let start = i;
    let mut acc: u64 = 0;
    let mut overflow = false;
    while i < v.len()
        invariant
            v@ == s@,
            start <= i <= v.len(),
            d == unsigned_digits(s@),
            d == s@.subrange(start as int, s@.len() as int),
            forall|j: int| start <= j < i ==> is_digit(#[trigger] s@[j]),
            !overflow ==> acc as nat == digits_value(s@.subrange(start as int, i as int)),
            !overflow ==> acc <= max,
            overflow ==> digits_value(s@.subrange(start as int, i as int)) > max,
        decreases v.len() - i,
    {
        let c = v[i];
        if !('0' <= c && c <= '9') {
            assert(!is_digit(d[i - start]));
            return None;
        }
        let dv = (c as u64) - ('0' as u64);
        let ghost pre = s@.subrange(start as int, i as int);
        let ghost nxt = s@.subrange(start as int, i + 1);
        assert(nxt.drop_last() =~= pre);
        assert(digits_value(nxt) == digits_value(pre) * 10 + dv);
        if !overflow {
            let wide: u128 = (acc as u128) * 10 + (dv as u128);
            if wide > max as u128 {
                overflow = true;
            } else {
                acc = wide as u64;
            }
        } else {
            assert(digits_value(pre) * 10 + dv >= digits_value(pre)) by (nonlinear_arith);
        }
        i = i + 1;
    }
    assert(s@.subrange(start as int, i as int) =~= d);
    if overflow {
        None
    } else {
        Some(acc)
    }
}

/// The value that signed integer text denotes, as Rust's signed `from_str`
/// reads it: an optional `+` or `-`, then at least one ASCII digit.
pub open spec fn spec_parse_signed(s: Seq<char>) -> Option<int> {
    if s.len() > 0 && s[0] == '-' {
        let d = s.drop_first();
        if d.len() > 0 && (forall|i: int| 0 <= i < d.len() ==> is_digit(#[trigger] d[i])) {
            Some(-(digits_value(d) as int))
        } else {
            None
        }
    } else {
        match spec_parse_unsigned(s) {
            Some(v) => Some(v as int),
            None => None,
        }
    }
}

/// Parse signed decimal text as Rust's `i64::from_str` does: none when it
/// is not an integer or does not fit.
pub fn parse_i64(s: &str) -> (r: Option<i64>)
    ensures
        r == (match spec_parse_signed(s@) {
            Some(v) => if i64::MIN <= v <= i64::MAX { Some(v as i64) } else { None },
            None => None,
        }),
{
    let v = chars_of(s);
    if v.len() > 0 && v[0] == '-' {
        let rest = string_of(&v, 1, v.len());
        assert(rest@ =~= s@.drop_first());
        if v.len() > 1 && v[1] == '+' {
            assert(!is_digit(rest@[0]));
            return None;
        }
        assert(unsigned_digits(rest@) == rest@);
        match parse_unsigned(rest.as_str(), 9223372036854775808u64) {
            Some(m) => {
                if m == 9223372036854775808u64 {
                    Some(i64::MIN)
                } else {
                    Some(-(m as i64))
                }
            },
            None => None,
        }
    } else {
        match parse_unsigned(s, 9223372036854775807u64) {
            Some(m) => Some(m as i64),
            None => None,
        }
    }
}

/// Whether `p` is a prefix of `s`.
pub open spec fn is_prefix(p: Seq<char>, s: Seq<char>) -> bool {
    p.len() <= s.len() && s.subrange(0, p.len() as int) == p
}

/// Whether `s` begins with `p`, as `str::starts_with` answers.
pub fn starts_with(s: &str, p: &str) -> (r: bool)
    ensures
        r == is_prefix(p@, s@),
{
    let vs = chars_of(s);
    let vp = chars_of(p);
    if vp.len() > vs.len() {
        return false;
    }
    let mut i: usize = 0;
    while i < vp.len()
        invariant
            vs@ == s@,
            vp@ == p@,
            vp.len() <= vs.len(),
            i <= vp.len(),
            forall|j: int| 0 <= j < i ==> vs@[j] == vp@[j],
        decreases vp.len() - i,
    {
        if vs[i] != vp[i] {
            assert(s@.subrange(0, p@.len() as int)[i as int] != p@[i as int]);
            return false;
        }
        i = i + 1;
    }
    assert(s@.subrange(0, p@.len() as int) =~= p@);
    true
}

/// Whether `p` occurs in `s` at position `i`.
pub open spec fn occurs_at(p: Seq<char>, s: Seq<char>, i: int) -> bool {
    0 <= i && i + p.len() <= s.len() && s.subrange(i, i + p.len()) == p
}

/// Whether `p` occurs somewhere in `s`, as `str::contains` answers.
pub open spec fn spec_contains(s: Seq<char>, p: Seq<char>) -> bool {
    exists|i: int| occurs_at(p, s, i)
}

/// Whether `p` occurs in `s`.
pub fn contains(s: &str, p: &str) -> (r: bool)
    ensures
        r == spec_contains(s@, p@),
{
    let vs = chars_of(s);
    let vp = chars_of(p);
    if vp.len() > vs.len() {
        assert forall|i: int| !occurs_at(p@, s@, i) by {}
        return false;
    }
    let mut i: usize = 0;
    while i <= vs.len() - vp.len()
        invariant
            vs@ == s@,
            vp@ == p@,
            vp.len() <= vs.len(),
            i <= vs.len() - vp.len() + 1,
            forall|k: int| 0 <= k < i ==> !occurs_at(p@, s@, k),
        decreases vs.len() - i,
    {
        let mut j: usize = 0;
        let mut same = true;
        while j < vp.len()
            invariant
                vs@ == s@,
                vp@ == p@,
                i + vp.len() <= vs.len(),
                j <= vp.len(),
                same == (forall|k: int| 0 <= k < j ==> vs@[i + k] == vp@[k]),
            decreases vp.len() - j,
        {
            if vs[i + j] != vp[j] {
                same = false;
            }
            j = j + 1;
        }
        if same {
            assert(s@.subrange(i as int, i + p@.len()) =~= p@);
            assert(occurs_at(p@, s@, i as int));
            return true;
        }
        assert(!occurs_at(p@, s@, i as int)) by {
            let k = choose|k: int| 0 <= k < vp.len() && vs@[i + k] != vp@[k];
            assert(s@.subrange(i as int, i + p@.len())[k] != p@[k]);
        }
        i = i + 1;
    }
    assert forall|k: int| !occurs_at(p@, s@, k) by {
        if 0 <= k && k + p@.len() <= s@.len() {
            assert(k < i);
        }
    }
    false
}

/// `s` with every occurrence of `p` removed, scanning from the left
/// without overlaps, as `str::replace(p, "")` does.
pub open spec fn remove_all(s: Seq<char>, p: Seq<char>) -> Seq<char>
    decreases s.len(),
{
    if p.len() == 0 || s.len() < p.len() {
        s
    } else if s.subrange(0, p.len() as int) == p {
        remove_all(s.skip(p.len() as int), p)
    } else {
        seq![s[0]] + remove_all(s.drop_first(), p)
    }
}

/// `s` with every occurrence of `p` removed.
pub fn remove_str(s: &str, p: &str) -> (r: String)
    ensures
        r@ == remove_all(s@, p@),
{
    let vs = chars_of(s);
    let vp = chars_of(p);
    if vp.len() == 0 {
        return owned(s);
    }
    let mut r = String::new();
    let mut i: usize = 0;
    assert(s@.skip(0) =~= s@);
    while i < vs.len()
        invariant
            vs@ == s@,
            vp@ == p@,
            vp.len() > 0,
            i <= vs.len(),
            r@ + remove_all(s@.skip(i as int), p@) == remove_all(s@, p@),
        decreases vs.len() - i,
    {
        let ghost rest = s@.skip(i as int);
        let mut hit = vp.len() <= vs.len() - i;
        let mut j: usize = 0;
        while hit && j < vp.len()
            invariant
                vs@ == s@,
                vp@ == p@,
                j <= vp.len(),
                hit ==> i + vp.len() <= vs.len(),
                hit ==> forall|k: int| 0 <= k < j ==> vs@[i + k] == vp@[k],
                !hit ==> !(i + vp.len() <= vs.len() && s@.subrange(i as int, i + vp.len()) == p@),
            decreases vp.len() - j,
        {
            if vs[i + j] != vp[j] {
                assert(s@.subrange(i as int, i + vp.len())[j as int] != p@[j as int]);
                hit = false;
            }
            j = j + 1;
        }
        if hit {
            assert(rest.subrange(0, p@.len() as int) =~= p@);
            assert(rest.skip(p@.len() as int) =~= s@.skip(i + vp.len()));
            i = i + vp.len();
        } else {
            proof {
                if rest.len() >= p@.len() {
                    assert(rest.subrange(0, p@.len() as int) =~= s@.subrange(i as int, i + vp.len()));
                }
            }
            let ghost before = r@;
            r.push(vs[i]);
            assert(rest.drop_first() =~= s@.skip(i + 1));
            assert(r@ =~= before + seq![rest[0]]);
            assert(before + remove_all(rest, p@) =~= r@ + remove_all(s@.skip(i + 1), p@)) by {
                if rest.len() < p@.len() {
                    assert(remove_all(rest, p@) == rest);
                    assert(remove_all(s@.skip(i + 1), p@) == s@.skip(i + 1));
                    assert(rest =~= seq![rest[0]] + s@.skip(i + 1));
                }
            }
            i = i + 1;
        }
    }
    assert(s@.skip(vs.len() as int) =~= seq![]);
    r
}

} // verus!

verus! {

/// `base` joined with `rel` the way `Path::join` does on Unix: an absolute
/// `rel` replaces `base`; otherwise a `/` is inserted unless `base` is empty
/// or already ends with one.
pub open spec fn path_join(base: Seq<char>, rel: Seq<char>) -> Seq<char> {
    if rel.len() > 0 && rel[0] == '/' {
        rel
    } else if base.len() == 0 || base.last() == '/' {
        base + rel
    } else {
        base + seq!['/'] + rel
    }
}

/// `base` joined with `rel`, as `Path::join` does on Unix.
pub fn join_path(base: &str, rel: &str) -> (r: String)
    ensures
        r@ == path_join(base@, rel@),
{
    let vb = chars_of(base);
    let vr = chars_of(rel);
    if vr.len() > 0 && vr[0] == '/' {
        owned(rel)
    } else if vb.len() == 0 || vb[vb.len() - 1] == '/' {
        concat(base, rel)
    } else {
        let mut a = owned(base);
        a.push('/');
        concat(a.as_str(), rel)
    }
}

/// `s` with every leading `c` removed, as `str::trim_start_matches(c)` does.
pub open spec fn trim_leading(s: Seq<char>, c: char) -> Seq<char>
    decreases s.len(),
{
    if s.len() > 0 && s[0] == c {
        trim_leading(s.drop_first(), c)
    } else {
        s
    }
}

proof fn lemma_trim_leading_skip(s: Seq<char>, c: char, i: int)
    requires
        0 <= i <= s.len(),
        forall|j: int| 0 <= j < i ==> s[j] == c,
    ensures
        trim_leading(s, c) == trim_leading(s.subrange(i, s.len() as int), c),
    decreases i,
{
    if i > 0 {
        lemma_trim_leading_skip(s.drop_first(), c, i - 1);
        assert(s.drop_first().subrange(i - 1, s.drop_first().len() as int) =~= s.subrange(
            i,
            s.len() as int,
        ));
    } else {
        assert(s.subrange(0, s.len() as int) =~= s);
    }
}

/// `s` with every leading `c` removed.
pub fn trim_start_char(s: &str, c: char) -> (r: String)
    ensures
        r@ == trim_leading(s@, c),
{
    let v = chars_of(s);
    let mut i: usize = 0;
    while i < v.len() && v[i] == c
        invariant
            v@ == s@,
            i <= v.len(),
            forall|j: int| 0 <= j < i ==> s@[j] == c,
        decreases v.len() - i,
    {
        i = i + 1;
    }
    proof {
        lemma_trim_leading_skip(s@, c, i as int);
        let t = s@.subrange(i as int, s@.len() as int);
        assert(t.len() == 0 || t[0] != c);
    }
    string_of(&v, i, v.len())
}

/// `s` with leading and trailing characters equal to `a` or `b` removed, as
/// `str::trim_matches(|c| c == a || c == b)` does.
pub open spec fn trim_both(s: Seq<char>, a: char, b: char) -> Seq<char> {
    trim_back(trim_front(s, a, b), a, b)
}

pub open spec fn trim_front(s: Seq<char>, a: char, b: char) -> Seq<char>
    decreases s.len(),
{
    if s.len() > 0 && (s[0] == a || s[0] == b) {
        trim_front(s.drop_first(), a, b)
    } else {
        s
    }
}

pub open spec fn trim_back(s: Seq<char>, a: char, b: char) -> Seq<char>
    decreases s.len(),
{
    if s.len() > 0 && (s.last() == a || s.last() == b) {
        trim_back(s.drop_last(), a, b)
    } else {
        s
    }
}

proof fn lemma_trim_front_skip(s: Seq<char>, a: char, b: char, i: int)
    requires
        0 <= i <= s.len(),
        forall|j: int| 0 <= j < i ==> (s[j] == a || s[j] == b),
    ensures
        trim_front(s, a, b) == trim_front(s.subrange(i, s.len() as int), a, b),
    decreases i,
{
    if i > 0 {
        lemma_trim_front_skip(s.drop_first(), a, b, i - 1);
        assert(s.drop_first().subrange(i - 1, s.drop_first().len() as int) =~= s.subrange(
            i,
            s.len() as int,
        ));
    } else {
        assert(s.subrange(0, s.len() as int) =~= s);
    }
}

proof fn lemma_trim_back_take(s: Seq<char>, a: char, b: char, k: int)
    requires
        0 <= k <= s.len(),
        forall|j: int| k <= j < s.len() ==> (s[j] == a || s[j] == b),
    ensures
        trim_back(s, a, b) == trim_back(s.subrange(0, k), a, b),
    decreases s.len() - k,
{
    if k < s.len() {
        lemma_trim_back_take(s.drop_last(), a, b, k);
        assert(s.drop_last().subrange(0, k) =~= s.subrange(0, k));
    } else {
        assert(s.subrange(0, k) =~= s);
    }
}

/// `s` with leading and trailing `a` or `b` characters removed.
pub fn trim_chars(s: &str, a: char, b: char) -> (r: String)
    ensures
        r@ == trim_both(s@, a, b),
{
    let v = chars_of(s);
    let n = v.len();
    let mut lo: usize = 0;
    while lo < n && (v[lo] == a || v[lo] == b)
        invariant
            v@ == s@,
            n == v.len(),
            lo <= n,
            forall|j: int| 0 <= j < lo ==> (v@[j] == a || v@[j] == b),
        decreases n - lo,
    {
        lo = lo + 1;
    }
    proof {
        lemma_trim_front_skip(v@, a, b, lo as int);
    }
    let ghost t = v@.subrange(lo as int, n as int);
    let mut hi: usize = n;
    while hi > lo && (v[hi - 1] == a || v[hi - 1] == b)
        invariant
            v@ == s@,
            n == v.len(),
            lo <= hi <= n,
            t == v@.subrange(lo as int, n as int),
            forall|j: int| hi <= j < n ==> (v@[j] == a || v@[j] == b),
        decreases hi - lo,
    {
        hi = hi - 1;
    }
    proof {
        let k = hi - lo;
        assert forall|j: int| k <= j < t.len() implies (t[j] == a || t[j] == b) by {
            assert(t[j] == v@[j + lo]);
        }
        lemma_trim_back_take(t, a, b, k as int);
        let u = t.subrange(0, k as int);
        assert(u =~= v@.subrange(lo as int, hi as int));
        if u.len() > 0 {
            assert(u.last() == v@[hi - 1]);
        }
        assert(trim_back(u, a, b) == u);
    }
    string_of(&v, lo, hi)
}

/// A copy of a vector of strings.
pub fn clone_strings(v: &Vec<String>) -> (r: Vec<String>)
    ensures
        r@ == v@,
{
    let mut r: Vec<String> = Vec::new();
    let mut i: usize = 0;
    while i < v.len()
        invariant
            i <= v.len(),
            r@ == v@.subrange(0, i as int),
        decreases v.len() - i,
    {
        r.push(v[i].clone());
        i = i + 1;
        assert(r@ =~= v@.subrange(0, i as int));
    }
    assert(v@.subrange(0, v@.len() as int) =~= v@);
    r
}

/// Whether some element of `v` has the characters of `s`.
pub fn contains_str(v: &Vec<String>, s: &str) -> (r: bool)
    ensures
        r == views(v@).contains(s@),
{
    let mut i: usize = 0;
    while i < v.len()
        invariant
            i <= v.len(),
            forall|j: int| 0 <= j < i ==> v@[j]@ != s@,
        decreases v.len() - i,
    {
        if str_eq(v[i].as_str(), s) {
            assert(views(v@)[i as int] == s@);
            return true;
        }
        i = i + 1;
    }
    assert forall|j: int| 0 <= j < views(v@).len() implies views(v@)[j] != s@ by {
        assert(views(v@)[j] == v@[j]@);
    }
    false
}

} // verus!

verus! {

/// Append `t` to `s`.
pub fn append(s: &mut String, t: &str)
    ensures
        final(s)@ == old(s)@ + t@,
{
    let v = chars_of(t);
    let mut i: usize = 0;
    while i < v.len()
        invariant
            v@ == t@,
            i <= v.len(),
            s@ == old(s)@ + t@.subrange(0, i as int),
        decreases v.len() - i,
    {
        s.push(v[i]);
        i = i + 1;
        assert(s@ =~= old(s)@ + t@.subrange(0, i as int));
    }
    assert(t@.subrange(0, t@.len() as int) =~= t@);
}

} // verus!
