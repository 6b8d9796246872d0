//! Text helpers over the character view of strings.
//!
//! Contracts in this crate speak of text as `Seq<char>`. The executable
//! helpers here work on `Vec<char>` and convert at the edges.

use vstd::prelude::*;
use vstd::string::*;

verus! {

broadcast use vstd::string::group_string_axioms;

/// Appends one character. Specifies `String::push` of std: the string
/// afterwards is the string before followed by `c`.
#[verifier::external_body]
pub(crate) fn push_char(s: &mut String, c: char)
    ensures
        final(s)@ == old(s)@.push(c),
{
    s.push(c)
}

/// Equality of string slices, `str::eq` of std: two slices are equal exactly
/// when they hold the same characters.
pub assume_specification[ <str as PartialEq>::eq ](a: &str, b: &str) -> (r: bool)
    ensures
        r == (a@ == b@),
;

/// Whether two string slices hold the same characters.
pub fn str_eq(a: &str, b: &str) -> (r: bool)
    ensures
        r == (a@ == b@),
{
    *a == *b
}

/// The characters of `s`, in order.
pub fn to_chars(s: &str) -> (v: Vec<char>)
    ensures
        v@ == s@,
{
    let mut v: Vec<char> = Vec::new();
    for c in it: s.chars()
        invariant
            it.seq() == s@,
            v@ == s@.take(it.index()),
    {
        v.push(c);
    }
    v
}

/// The string whose characters are `v`.
pub fn from_chars(v: &Vec<char>) -> (s: String)
    ensures
        s@ == v@,
{
    let mut s = String::new();
    let mut i: usize = 0;
    while i < v.len()
        invariant
            i <= v.len(),
            s@ == v@.take(i as int),
        decreases v.len() - i,
    {
        push_char(&mut s, v[i]);
        i += 1;
    }
    s
}

/// Appends the characters of `s` to `out`.
pub fn push_str_chars(out: &mut Vec<char>, s: &str)
    ensures
        final(out)@ == old(out)@ + s@,
{
    let ghost before = out@;
    for c in it: s.chars()
        invariant
            it.seq() == s@,
            out@ == before + s@.take(it.index()),
    {
        out.push(c);
    }
}

/// Appends the characters of `src` to `out`.
pub fn push_all(out: &mut Vec<char>, src: &Vec<char>)
    ensures
        final(out)@ == old(out)@ + src@,
{
    let ghost before = out@;
    let mut i: usize = 0;
    while i < src.len()
        invariant
            i <= src.len(),
            out@ == before + src@.take(i as int),
        decreases src.len() - i,
    {
        out.push(src[i]);
        i += 1;
    }
}

/// A copy of `v[from..to]`.
pub fn slice_chars(v: &Vec<char>, from: usize, to: usize) -> (r: Vec<char>)
    requires
        from <= to <= v.len(),
    ensures
        r@ == v@.subrange(from as int, to as int),
{
    let mut r: Vec<char> = Vec::new();
    let mut i: usize = from;
    while i < to
        invariant
            from <= i <= to <= v.len(),
            r@ == v@.subrange(from as int, i as int),
        decreases to - i,
    {
        r.push(v[i]);
        i += 1;
    }
    r
}

/// Whether `v` begins with `prefix`.
pub fn starts_with(v: &Vec<char>, prefix: &Vec<char>) -> (r: bool)
    ensures
        r == prefix@.is_prefix_of(v@),
{
    if prefix.len() > v.len() {
        return false;
    }
    let mut i: usize = 0;
    while i < prefix.len()
        invariant
            i <= prefix.len() <= v.len(),
            forall|j: int| 0 <= j < i ==> v@[j] == prefix@[j],
        decreases prefix.len() - i,
    {
        if v[i] != prefix[i] {
            return false;
        }
        i += 1;
    }
    assert(prefix@ == v@.subrange(0, prefix@.len() as int));
    true
}

// ---------------------------------------------------------------------------
// Views of optional and listed strings
// ---------------------------------------------------------------------------

/// The characters of an optional string.
pub open spec fn opt_view(o: Option<String>) -> Option<Seq<char>> {
    match o {
        Some(s) => Some(s@),
        None => None,
    }
}

/// The characters of each string of a list.
pub open spec fn list_view(v: Seq<String>) -> Seq<Seq<char>> {
    v.map_values(|s: String| s@)
}

/// The characters of each string of an optional list.
pub open spec fn opt_list_view(o: Option<Vec<String>>) -> Option<Seq<Seq<char>>> {
    match o {
        Some(v) => Some(list_view(v@)),
        None => None,
    }
}

/// The view of a list has the length of the list.
pub broadcast proof fn lemma_list_view_len(v: Seq<String>)
    ensures
        #[trigger] list_view(v).len() == v.len(),
{
}

/// The view of a list holds the views of its strings.
pub broadcast proof fn lemma_list_view_index(v: Seq<String>, i: int)
    requires
        0 <= i < v.len(),
    ensures
        #[trigger] list_view(v)[i] == v[i]@,
{
}

pub broadcast group group_list_view {
    lemma_list_view_len,
    lemma_list_view_index,
}

/// Viewing a list after a push is pushing the view.
pub proof fn lemma_list_view_push(v: Seq<String>, s: String)
    ensures
        list_view(v.push(s)) == list_view(v).push(s@),
{
    assert(list_view(v.push(s)) =~= list_view(v).push(s@));
}

/// A copy of an optional string.
pub fn clone_opt(o: &Option<String>) -> (r: Option<String>)
    ensures
        opt_view(r) == opt_view(*o),
{
    match o {
        Some(s) => Some(s.clone()),
        None => None,
    }
}

/// A copy of a list of strings.
pub fn clone_list(v: &Vec<String>) -> (r: Vec<String>)
    ensures
        list_view(r@) == list_view(v@),
{
    let mut r: Vec<String> = Vec::new();
    let mut i: usize = 0;
    while i < v.len()
        invariant
            i <= v.len(),
            list_view(r@) == list_view(v@.take(i as int)),
        decreases v.len() - i,
    {
        proof {
            assert(v@.take(i + 1) == v@.take(i as int).push(v@[i as int]));
            lemma_list_view_push(v@.take(i as int), v@[i as int]);
            lemma_list_view_push(r@, v@[i as int]);
        }
        r.push(v[i].clone());
        i += 1;
    }
    proof {
        assert(v@.take(v.len() as int) == v@);
    }
    r
}

/// A copy of an optional list of strings.
pub fn clone_opt_list(o: &Option<Vec<String>>) -> (r: Option<Vec<String>>)
    ensures
        opt_list_view(r) == opt_list_view(*o),
{
    match o {
        Some(v) => Some(clone_list(v)),
        None => None,
    }
}

// ---------------------------------------------------------------------------
// Finding and splitting
// ---------------------------------------------------------------------------

/// Index of the first `c` in `s`, or `s.len()` where `s` holds none.
pub open spec fn find_char(s: Seq<char>, c: char) -> int
    decreases s.len(),
{
    if s.len() == 0 {
        0
    } else if s[0] == c {
        0
    } else {
        1 + find_char(s.skip(1), c)
    }
}

/// `find_char` is in range, points at `c` when inside, and passes no `c`.
pub proof fn lemma_find_char(s: Seq<char>, c: char)
    ensures
        0 <= find_char(s, c) <= s.len(),
        find_char(s, c) < s.len() ==> s[find_char(s, c)] == c,
        forall|j: int| 0 <= j < find_char(s, c) ==> s[j] != c,
    decreases s.len(),
{
    if s.len() > 0 && s[0] != c {
        lemma_find_char(s.skip(1), c);
        assert forall|j: int| 0 <= j < find_char(s, c) implies s[j] != c by {
            if j > 0 {
                assert(s.skip(1)[j - 1] == s[j]);
            }
        }
    }
}

/// The first index at which `c` stands (or the end) is `find_char`.
pub proof fn lemma_find_char_is(s: Seq<char>, c: char, k: int)
    requires
        0 <= k <= s.len(),
        forall|j: int| 0 <= j < k ==> s[j] != c,
        k < s.len() ==> s[k] == c,
    ensures
        find_char(s, c) == k,
{
    lemma_find_char(s, c);
}

/// The pieces of `s` between occurrences of `sep`. There is always at least
/// one piece; `n` separators give `n + 1` pieces, empty ones included.
pub open spec fn split(s: Seq<char>, sep: char) -> Seq<Seq<char>>
    decreases s.len(),
{
    let i = find_char(s, sep);
    if 0 <= i < s.len() {
        seq![s.take(i)] + split(s.skip(i + 1), sep)
    } else {
        seq![s]
    }
}

/// The character views of a list of character vectors.
pub open spec fn views(parts: Seq<Vec<char>>) -> Seq<Seq<char>> {
    parts.map_values(|p: Vec<char>| p@)
}

/// Splits `v` at every `sep`.
pub fn split_chars(v: &Vec<char>, sep: char) -> (parts: Vec<Vec<char>>)
    ensures
        views(parts@) == split(v@, sep),
        parts@.len() >= 1,
{
    let mut parts: Vec<Vec<char>> = Vec::new();
    let mut cur: Vec<char> = Vec::new();
    let mut start: usize = 0;
    let mut i: usize = 0;
    proof {
        assert(v@.skip(0) == v@);
        assert(views(parts@) + split(v@, sep) == split(v@, sep));
    }
    while i < v.len()
        invariant
            start <= i <= v.len(),
            cur@ == v@.subrange(start as int, i as int),
            forall|j: int| start <= j < i ==> v@[j] != sep,
            split(v@, sep) == views(parts@) + split(v@.skip(start as int), sep),
        decreases v.len() - i,
    {
        if v[i] == sep {
            proof {
                let rest = v@.skip(start as int);
                lemma_find_char_is(rest, sep, i - start);
                assert(rest.take(i - start) == cur@);
                assert(rest.skip(i - start + 1) == v@.skip(i + 1));
                assert(views(parts@.push(cur)) == views(parts@).push(cur@));
                assert(views(parts@).push(cur@) + split(v@.skip(i + 1), sep) == views(parts@) + (
                seq![cur@] + split(v@.skip(i + 1), sep)));
            }
            parts.push(cur);
            cur = Vec::new();
            start = i + 1;
        } else {
            cur.push(v[i]);
        }
        i += 1;
    }
    proof {
        let rest = v@.skip(start as int);
        lemma_find_char_is(rest, sep, rest.len() as int);
        assert(rest == cur@);
        assert(views(parts@.push(cur)) == views(parts@).push(cur@));
        assert(views(parts@).push(cur@) == views(parts@) + seq![cur@]);
    }
    parts.push(cur);
    parts
}

// ---------------------------------------------------------------------------
// Decimal digits
// ---------------------------------------------------------------------------

/// Whether `c` is one of `'0'` to `'9'`.
pub open spec fn is_digit(c: char) -> bool {
    '0' <= c && c <= '9'
}

/// The value of the decimal digit `c`.
pub open spec fn digit_value(c: char) -> nat {
    (c as u32 - '0' as u32) as nat
}

/// The decimal digit for `d < 10`.
pub open spec fn digit_char(d: nat) -> char {
    (d + 48) as u8 as char
}

/// The decimal notation of `n`, without leading zeros.
pub open spec fn decimal(n: nat) -> Seq<char>
    decreases n,
{
    if n < 10 {
        seq![digit_char(n)]
    } else {
        decimal(n / 10).push(digit_char(n % 10))
    }
}

/// The decimal notation of `n`, filled with zeros on the left up to `width`
/// characters; longer numbers are not cut.
pub open spec fn decimal_padded(n: nat, width: nat) -> Seq<char> {
    let d = decimal(n);
    if d.len() >= width {
        d
    } else {
        Seq::new((width - d.len()) as nat, |i: int| '0') + d
    }
}

/// The value of a digit character, if it is one.
pub fn digit_of(c: char) -> (r: Option<u8>)
    ensures
        r is Some <==> is_digit(c),
        r matches Some(d) ==> d == digit_value(c) && d < 10 && digit_char(d as nat) == c,
{
    if c >= '0' && c <= '9' {
        Some((c as u32 - '0' as u32) as u8)
    } else {
        None
    }
}

/// The digit character for `d`.
pub fn char_of_digit(d: u8) -> (c: char)
    requires
        d < 10,
    ensures
        c == digit_char(d as nat),
        is_digit(c),
        digit_value(c) == d,
{
    (d + 48u8) as char
}

/// Appends the decimal notation of `n` to `out`.
pub fn push_decimal(out: &mut Vec<char>, n: u64)
    ensures
        final(out)@ == old(out)@ + decimal(n as nat),
{
    let ghost before = out@;
    // Digits come out lowest first.
    let mut rev: Vec<char> = Vec::new();
    let mut m: u64 = n;
    while m >= 10
        invariant
            decimal(n as nat) == decimal(m as nat) + rev@.reverse(),
        decreases m,
    {
        let c = char_of_digit((m % 10) as u8);
        proof {
            let r2 = rev@.push(c);
            assert(r2.reverse() == seq![c] + rev@.reverse());
            assert(decimal(m as nat) == decimal((m / 10) as nat).push(c));
            assert(decimal((m / 10) as nat).push(c) + rev@.reverse() == decimal((m / 10) as nat)
                + (seq![c] + rev@.reverse()));
        }
        rev.push(c);
        m = m / 10;
    }
    let c = char_of_digit(m as u8);
    out.push(c);
    proof {
        assert(decimal(m as nat) == seq![c]);
        assert(out@ == before + decimal(m as nat));
    }
    let mut i: usize = rev.len();
    while i > 0
        invariant
            i <= rev.len(),
            out@ == before + decimal(m as nat) + rev@.reverse().take(rev.len() - i),
        decreases i,
    {
        i -= 1;
        proof {
            let t = rev@.reverse();
            let k = rev.len() - i - 1;
            assert(t[k] == rev@[i as int]);
            assert(t.take(k + 1) == t.take(k).push(t[k]));
        }
        out.push(rev[i]);
    }
    proof {
        let t = rev@.reverse();
        assert(t.take(rev.len() as int) == t);
        assert(before + decimal(m as nat) + t == before + (decimal(m as nat) + t));
    }
}

/// Appends `n` in decimal, zero-padded to `width` characters.
pub fn push_decimal_padded(out: &mut Vec<char>, n: u64, width: usize)
    ensures
        final(out)@ == old(out)@ + decimal_padded(n as nat, width as nat),
{
    let ghost before = out@;
    let mut digits: Vec<char> = Vec::new();
    push_decimal(&mut digits, n);
    assert(digits@ == decimal(n as nat));
    let mut k: usize = digits.len();
    while k < width
        invariant
            digits.len() <= k,
            k <= width || k == digits.len(),
            out@ == before + Seq::new((k - digits.len()) as nat, |i: int| '0'),
        decreases width - k,
    {
        proof {
            let z0 = Seq::new((k - digits.len()) as nat, |i: int| '0');
            let z1 = Seq::new((k + 1 - digits.len()) as nat, |i: int| '0');
            assert(z1 == z0.push('0'));
            assert((before + z0).push('0') == before + z0.push('0'));
        }
        out.push('0');
        k += 1;
    }
    proof {
        let z = Seq::new((k - digits.len()) as nat, |i: int| '0');
        if digits.len() >= width {
            assert(z == Seq::<char>::empty());
            assert(before + z + digits@ == before + digits@);
        } else {
            assert(before + z + digits@ == before + (z + digits@));
        }
    }
    push_all(out, &digits);
}

/// The number that `s` denotes in decimal: an optional `+` followed by one or
/// more digits and nothing else. No bound is applied here.
pub open spec fn parse_decimal(s: Seq<char>) -> Option<nat> {
    let body = parse_body(s);
    if body.len() > 0 && all_digits(body) {
        Some(digits_value(body))
    } else {
        None
    }
}

/// `s` without the `+` that may stand in front of a number.
pub open spec fn parse_body(s: Seq<char>) -> Seq<char> {
    if s.len() > 0 && s[0] == '+' {
        s.skip(1)
    } else {
        s
    }
}

/// Whether every character of `s` is a decimal digit.
pub open spec fn all_digits(s: Seq<char>) -> bool {
    forall|i: int| 0 <= i < s.len() ==> is_digit(#[trigger] s[i])
}

/// The value of a run of digits, most significant first.
pub open spec fn digits_value(s: Seq<char>) -> nat
    decreases s.len(),
{
    if s.len() == 0 {
        0
    } else {
        digits_value(s.drop_last()) * 10 + digit_value(s.last())
    }
}

/// A run of digits is worth at least as much as any of its prefixes.
pub proof fn lemma_digits_value_grows(s: Seq<char>, k: int)
    requires
        0 <= k <= s.len(),
    ensures
        digits_value(s.take(k)) <= digits_value(s),
    decreases s.len() - k,
{
    if k < s.len() {
        lemma_digits_value_grows(s, k + 1);
        assert(s.take(k + 1).drop_last() == s.take(k));
    } else {
        assert(s.take(k) == s);
    }
}

/// Parses `v` as a decimal number no larger than `max`; as `str::parse` does
/// for the unsigned integer types, an optional leading `+` is accepted.
pub fn parse_bounded(v: &Vec<char>, max: u64) -> (r: Option<u64>)
    ensures
        r == match parse_decimal(v@) {
            Some(n) => if n <= max {
                Some(n as u64)
            } else {
                None
            },
            None => None,
        },
{
    let mut i: usize = 0;
    if v.len() > 0 && v[0] == '+' {
        i = 1;
    }
    let first: usize = i;
    let ghost body = v@.skip(first as int);
    proof {
        assert(v@.skip(0) == v@);
    }
    if i >= v.len() {
        return None;
    }
    let mut acc: u64 = 0;
    while i < v.len()
        invariant
            first <= i <= v.len(),
            body == v@.skip(first as int),
            body == parse_body(v@),
            all_digits(body.take(i - first)),
            acc == digits_value(body.take(i - first)),
            acc <= max,
        decreases v.len() - i,
    {
        let ghost pre = body.take(i - first);
        let ghost next = body.take(i - first + 1);
        proof {
            assert(next.drop_last() == pre);
            assert(next.last() == v@[i as int]);
        }
        match digit_of(v[i]) {
            None => {
                assert(!is_digit(body[i - first]));
                return None;
            },
            Some(d) => {
                proof {
                    assert(digits_value(next) == acc * 10 + d);
                    lemma_digits_value_grows(body, i - first + 1);
                    assert forall|j: int| 0 <= j < next.len() implies is_digit(
                        #[trigger] next[j],
                    ) by {
                        if j < pre.len() {
                            assert(next[j] == pre[j]);
                        }
                    }
                }
                if d as u64 > max {
                    proof {
                        lemma_rest_digits(body, i - first + 1, max as nat);
                    }
                    return None;
                }
                if acc > (max - d as u64) / 10 {
                    proof {
                        assert(acc * 10 + d > max) by (nonlinear_arith)
                            requires
                                acc > (max - d) / 10,
                                d < 10,
                                d <= max,
                                acc >= 0,
                        ;
                        lemma_rest_digits(body, i - first + 1, max as nat);
                    }
                    return None;
                }
                assert(acc * 10 + d <= max) by (nonlinear_arith)
                    requires
                        acc <= (max - d) / 10,
                        d <= max,
                ;
                acc = acc * 10 + d as u64;
            },
        }
        i += 1;
    }
    proof {
        assert(body.take(i - first) == body);
    }
    Some(acc)
}

/// Once a prefix of digits is worth more than `max`, the whole run cannot
/// denote a number within `max`.
pub proof fn lemma_rest_digits(s: Seq<char>, k: int, max: nat)
    requires
        0 <= k <= s.len(),
        digits_value(s.take(k)) > max,
    ensures
        digits_value(s) > max,
{
    lemma_digits_value_grows(s, k);
}

// ---------------------------------------------------------------------------
// Blanks
// ---------------------------------------------------------------------------

/// Space or horizontal tab.
pub open spec fn is_blank(c: char) -> bool {
    c == ' ' || c == '\t'
}

/// Number of blanks at the front of `s`.
pub open spec fn leading_blanks(s: Seq<char>) -> int
    decreases s.len(),
{
    if s.len() > 0 && is_blank(s[0]) {
        1 + leading_blanks(s.skip(1))
    } else {
        0
    }
}

/// Number of blanks at the end of `s`.
pub open spec fn trailing_blanks(s: Seq<char>) -> int
    decreases s.len(),
{
    if s.len() > 0 && is_blank(s.last()) {
        1 + trailing_blanks(s.drop_last())
    } else {
        0
    }
}

/// `s` without the blanks at its front and at its end.
pub open spec fn trim_blanks(s: Seq<char>) -> Seq<char> {
    let front = s.skip(leading_blanks(s));
    front.take(front.len() - trailing_blanks(front))
}

/// The blanks counted at the front are in range.
pub proof fn lemma_leading_blanks(s: Seq<char>)
    ensures
        0 <= leading_blanks(s) <= s.len(),
        forall|j: int| 0 <= j < leading_blanks(s) ==> is_blank(s[j]),
        leading_blanks(s) < s.len() ==> !is_blank(s[leading_blanks(s)]),
    decreases s.len(),
{
    if s.len() > 0 && is_blank(s[0]) {
        lemma_leading_blanks(s.skip(1));
        assert forall|j: int| 0 <= j < leading_blanks(s) implies is_blank(s[j]) by {
            if j > 0 {
                assert(s.skip(1)[j - 1] == s[j]);
            }
        }
    }
}

/// The number of blanks at the front is the first index that holds none.
pub proof fn lemma_leading_blanks_is(s: Seq<char>, k: int)
    requires
        0 <= k <= s.len(),
        forall|j: int| 0 <= j < k ==> is_blank(s[j]),
        k < s.len() ==> !is_blank(s[k]),
    ensures
        leading_blanks(s) == k,
{
    lemma_leading_blanks(s);
}

/// The blanks counted at the end are in range.
pub proof fn lemma_trailing_blanks(s: Seq<char>)
    ensures
        0 <= trailing_blanks(s) <= s.len(),
        forall|j: int| s.len() - trailing_blanks(s) <= j < s.len() ==> is_blank(s[j]),
        trailing_blanks(s) < s.len() ==> !is_blank(s[s.len() - trailing_blanks(s) - 1]),
    decreases s.len(),
{
    if s.len() > 0 && is_blank(s.last()) {
        lemma_trailing_blanks(s.drop_last());
        assert forall|j: int| s.len() - trailing_blanks(s) <= j < s.len() implies is_blank(
            s[j],
        ) by {
            if j < s.len() - 1 {
                assert(s.drop_last()[j] == s[j]);
            }
        }
    }
}

/// The number of blanks at the end is fixed by the last index that holds none.
pub proof fn lemma_trailing_blanks_is(s: Seq<char>, k: int)
    requires
        0 <= k <= s.len(),
        forall|j: int| s.len() - k <= j < s.len() ==> is_blank(s[j]),
        k < s.len() ==> !is_blank(s[s.len() - k - 1]),
    ensures
        trailing_blanks(s) == k,
{
    lemma_trailing_blanks(s);
}

/// `v` without leading and trailing blanks.
pub fn trim_chars(v: &Vec<char>) -> (r: Vec<char>)
    ensures
        r@ == trim_blanks(v@),
{
    let mut a: usize = 0;
    while a < v.len() && (v[a] == ' ' || v[a] == '\t')
        invariant
            a <= v.len(),
            forall|j: int| 0 <= j < a ==> is_blank(v@[j]),
        decreases v.len() - a,
    {
        a += 1;
    }
    let mut b: usize = v.len();
    while b > a && (v[b - 1] == ' ' || v[b - 1] == '\t')
        invariant
            a <= b <= v.len(),
            forall|j: int| b <= j < v.len() ==> is_blank(v@[j]),
        decreases b,
    {
        b -= 1;
    }
    proof {
        lemma_leading_blanks_is(v@, a as int);
        let front = v@.skip(a as int);
        assert forall|j: int| front.len() - (v.len() - b) <= j < front.len() implies is_blank(
            front[j],
        ) by {
            assert(front[j] == v@[j + a]);
        }
        lemma_trailing_blanks_is(front, v.len() - b);
        assert(front.take(front.len() - (v.len() - b)) == v@.subrange(a as int, b as int));
    }
    slice_chars(v, a, b)
}

} // verus!
