//! Text primitives used by the template and sensor logic, each stated over
//! the character sequence of its arguments (the view `@` of `str`/`String`).
//!
//! These follow the documented behaviour of the standard library's `str`
//! methods (`trim`, `starts_with`, `find`, `lines`, integer parsing and
//! formatting), with indices counted in characters.
use vstd::prelude::*;

verus! {

/// Whether `c` has the Unicode `White_Space` property, which is what
/// `char::is_whitespace` tests.
pub open spec fn is_white_space(c: char) -> bool {
    let u = c as u32;
    ||| 0x9 <= u <= 0xd
    ||| u == 0x20
    ||| u == 0x85
    ||| u == 0xa0
    ||| u == 0x1680
    ||| 0x2000 <= u <= 0x200a
    ||| u == 0x2028
    ||| u == 0x2029
    ||| u == 0x202f
    ||| u == 0x205f
    ||| u == 0x3000
}

/// `char::is_whitespace`.
pub fn char_is_white_space(c: char) -> (r: bool)
    ensures
        r == is_white_space(c),
{
    let u = c as u32;
    (0x9 <= u && u <= 0xd) || u == 0x20 || u == 0x85 || u == 0xa0 || u == 0x1680 || (0x2000 <= u
        && u <= 0x200a) || u == 0x2028 || u == 0x2029 || u == 0x202f || u == 0x205f || u == 0x3000
}

/// A text that consists of white space only (`s.trim().is_empty()`).
pub open spec fn is_blank(s: Seq<char>) -> bool {
    forall|i: int| 0 <= i < s.len() ==> is_white_space(#[trigger] s[i])
}

/// `s.trim().is_empty()`.
pub fn str_is_blank(s: &str) -> (r: bool)
    ensures
        r == is_blank(s@),
{
    let n = s.unicode_len();
    let mut i: usize = 0;
    while i < n
        invariant
            n == s@.len(),
            i <= n,
            forall|k: int| 0 <= k < i ==> is_white_space(#[trigger] s@[k]),
        decreases n - i,
    {
        if !char_is_white_space(s.get_char(i)) {
            return false;
        }
        i = i + 1;
    }
    true
}

/// Number of white-space characters at the start of `s`.
pub open spec fn leading_white_space(s: Seq<char>) -> nat
    decreases s.len(),
{
    if s.len() > 0 && is_white_space(s[0]) {
        1 + leading_white_space(s.drop_first())
    } else {
        0
    }
}

/// Number of white-space characters at the end of `s`.
pub open spec fn trailing_white_space(s: Seq<char>) -> nat
    decreases s.len(),
{
    if s.len() > 0 && is_white_space(s.last()) {
        1 + trailing_white_space(s.drop_last())
    } else {
        0
    }
}

/// `s` without its leading and trailing white space (`str::trim`).
pub open spec fn trimmed(s: Seq<char>) -> Seq<char> {
    if leading_white_space(s) == s.len() {
        Seq::empty()
    } else {
        s.subrange(leading_white_space(s) as int, s.len() - trailing_white_space(s))
    }
}

proof fn lemma_leading_white_space(s: Seq<char>, i: int)
    requires
        0 <= i <= s.len(),
        forall|k: int| 0 <= k < i ==> is_white_space(#[trigger] s[k]),
        i == s.len() || !is_white_space(s[i]),
    ensures
        leading_white_space(s) == i,
    decreases i,
{
    if i > 0 {
        let t = s.drop_first();
        assert forall|k: int| 0 <= k < i - 1 implies is_white_space(#[trigger] t[k]) by {
            assert(t[k] == s[k + 1]);
        }
        lemma_leading_white_space(t, i - 1);
    }
}

proof fn lemma_trailing_white_space(s: Seq<char>, j: int)
    requires
        0 <= j <= s.len(),
        forall|k: int| j <= k < s.len() ==> is_white_space(#[trigger] s[k]),
        j == 0 || !is_white_space(s[j - 1]),
    ensures
        trailing_white_space(s) == s.len() - j,
    decreases s.len() - j,
{
    if j < s.len() {
        let t = s.drop_last();
        assert forall|k: int| j <= k < t.len() implies is_white_space(#[trigger] t[k]) by {
            assert(t[k] == s[k]);
        }
        lemma_trailing_white_space(t, j);
    }
}

/// `s.trim().to_string()`.
pub fn str_trim(s: &str) -> (r: String)
    ensures
        r@ == trimmed(s@),
{
    let n = s.unicode_len();
    let mut i: usize = 0;
    while i < n && char_is_white_space(s.get_char(i))
        invariant
            n == s@.len(),
            i <= n,
            forall|k: int| 0 <= k < i ==> is_white_space(#[trigger] s@[k]),
        decreases n - i,
    {
        i = i + 1;
    }
    proof {
        lemma_leading_white_space(s@, i as int);
    }
    if i == n {
        return String::new();
    }
    let mut j: usize = n;
    while j > i && char_is_white_space(s.get_char(j - 1))
        invariant
            n == s@.len(),
            i < n,
            !is_white_space(s@[i as int]),
            i < j <= n,
            forall|k: int| j <= k < n ==> is_white_space(#[trigger] s@[k]),
        decreases j,
    {
        j = j - 1;
    }
    proof {
        lemma_trailing_white_space(s@, j as int);
    }
    String::from_str(s.substring_char(i, j))
}


/// `a == b` on string slices.
pub fn str_equal(a: &str, b: &str) -> (r: bool)
    ensures
        r == (a@ == b@),
{
    String::from_str(a) == String::from_str(b)
}

/// `s` starts with `p`.
pub open spec fn has_prefix(s: Seq<char>, p: Seq<char>) -> bool {
    p.len() <= s.len() && s.subrange(0, p.len() as int) == p
}

/// `s` ends with `p`.
pub open spec fn has_suffix(s: Seq<char>, p: Seq<char>) -> bool {
    p.len() <= s.len() && s.subrange(s.len() - p.len(), s.len() as int) == p
}

/// `s.strip_prefix(p)`.
pub fn strip_prefix(s: &str, p: &str) -> (r: Option<String>)
    ensures
        r is Some <==> has_prefix(s@, p@),
        r matches Some(t) ==> t@ == s@.subrange(p@.len() as int, s@.len() as int),
{
    let n = s.unicode_len();
    let m = p.unicode_len();
    if m > n {
        return None;
    }
    let head = s.substring_char(0, m);
    if str_equal(head, p) {
        Some(String::from_str(s.substring_char(m, n)))
    } else {
        None
    }
}

/// `s.strip_suffix(p)`.
pub fn strip_suffix(s: &str, p: &str) -> (r: Option<String>)
    ensures
        r is Some <==> has_suffix(s@, p@),
        r matches Some(t) ==> t@ == s@.subrange(0, s@.len() - p@.len()),
{
    let n = s.unicode_len();
    let m = p.unicode_len();
    if m > n {
        return None;
    }
    let tail = s.substring_char(n - m, n);
    if str_equal(tail, p) {
        Some(String::from_str(s.substring_char(0, n - m)))
    } else {
        None
    }
}

/// `p` occurs in `s` starting at character `k`.
pub open spec fn occurs_at(s: Seq<char>, p: Seq<char>, k: int) -> bool {
    0 <= k && k + p.len() <= s.len() && s.subrange(k, k + p.len()) == p
}

/// The first occurrence of `p` in `s` at or after character `k` (`str::find`
/// from `k`).
pub open spec fn find_from(s: Seq<char>, p: Seq<char>, k: nat) -> Option<nat>
    decreases s.len() - k,
{
    if k + p.len() > s.len() {
        None
    } else if p.len() == 0 || occurs_at(s, p, k as int) {
        Some(k)
    } else {
        find_from(s, p, k + 1)
    }
}

proof fn lemma_find_from(s: Seq<char>, p: Seq<char>, k: nat)
    ensures
        find_from(s, p, k) matches Some(j) ==> k <= j && occurs_at(s, p, j as int) && forall|
            i: int,
        | k <= i < j ==> !occurs_at(s, p, i),
        find_from(s, p, k) is None ==> forall|i: int| k <= i ==> !occurs_at(s, p, i),
    decreases s.len() - k,
{
    if k + p.len() > s.len() {
    } else if p.len() == 0 || occurs_at(s, p, k as int) {
        if p.len() == 0 {
            assert(s.subrange(k as int, k as int) =~= p);
        }
    } else {
        lemma_find_from(s, p, k + 1);
    }
}

/// `s.find(p)`, as a character index.
pub fn str_find(s: &str, p: &str) -> (r: Option<usize>)
    ensures
        r matches Some(k) ==> find_from(s@, p@, 0) == Some(k as nat),
        r matches Some(k) ==> occurs_at(s@, p@, k as int),
        r is None <==> find_from(s@, p@, 0) is None,
{
    proof {
        lemma_find_from(s@, p@, 0);
    }
    let n = s.unicode_len();
    let m = p.unicode_len();
    let mut k: usize = 0;
    while k <= n && m <= n - k
        invariant
            n == s@.len(),
            m == p@.len(),
            find_from(s@, p@, 0) == find_from(s@, p@, k as nat),
        decreases n - k,
    {
        if m == 0 || str_equal(s.substring_char(k, k + m), p) {
            proof {
                lemma_find_from(s@, p@, 0);
            }
            return Some(k);
        }
        k = k + 1;
    }
    None
}

/// Splits `s` at the first occurrence of `sep` (`str::split_once`).
pub open spec fn split_once(s: Seq<char>, sep: Seq<char>) -> Option<(Seq<char>, Seq<char>)> {
    match find_from(s, sep, 0) {
        Some(k) => Some((s.subrange(0, k as int), s.subrange((k + sep.len()) as int, s.len() as int))),
        None => None,
    }
}

/// `s.split_once(sep)`.
pub fn str_split_once(s: &str, sep: &str) -> (r: Option<(String, String)>)
    ensures
        r is Some <==> split_once(s@, sep@) is Some,
        r matches Some(pair) ==> split_once(s@, sep@) == Some((pair.0@, pair.1@)),
{
    proof {
        lemma_find_from(s@, sep@, 0);
    }
    match str_find(s, sep) {
        Some(k) => {
            let n = s.unicode_len();
            let m = sep.unicode_len();
            Some((String::from_str(s.substring_char(0, k)), String::from_str(s.substring_char(k + m, n))))
        },
        None => None,
    }
}


/// Splits `s` at every occurrence of the character `c` (`str::split(c)`).
pub open spec fn split_on_char(s: Seq<char>, c: char) -> Seq<Seq<char>>
    decreases s.len(),
{
    if s.len() == 0 {
        seq![Seq::empty()]
    } else {
        let prev = split_on_char(s.drop_last(), c);
        if s.last() == c {
            prev.push(Seq::empty())
        } else {
            prev.update(prev.len() - 1, prev.last().push(s.last()))
        }
    }
}

proof fn lemma_split_on_char_len(s: Seq<char>, c: char)
    ensures
        split_on_char(s, c).len() >= 1,
    decreases s.len(),
{
    if s.len() > 0 {
        lemma_split_on_char_len(s.drop_last(), c);
    }
}

/// A line without the carriage return that ended it.
pub open spec fn without_carriage_return(l: Seq<char>) -> Seq<char> {
    if l.len() > 0 && l.last() == '\r' {
        l.drop_last()
    } else {
        l
    }
}

/// The lines of `s` (`str::lines`): pieces between `\n`, each line that a
/// `\n` ends loses a `\r` before it, and a last piece that is empty is no line.
pub open spec fn text_lines(s: Seq<char>) -> Seq<Seq<char>> {
    let parts = split_on_char(s, '\n');
    let complete = Seq::new(
        (parts.len() - 1) as nat,
        |i: int| without_carriage_return(parts[i]),
    );
    if parts.last().len() == 0 {
        complete
    } else {
        complete.push(parts.last())
    }
}

fn line_without_carriage_return(s: &str, start: usize, end: usize) -> (r: String)
    requires
        start <= end <= s@.len(),
    ensures
        r@ == without_carriage_return(s@.subrange(start as int, end as int)),
{
    if end > start && s.get_char(end - 1) == '\r' {
        let r = String::from_str(s.substring_char(start, end - 1));
        assert(r@ =~= s@.subrange(start as int, end as int).drop_last());
        r
    } else {
        String::from_str(s.substring_char(start, end))
    }
}

/// `s.lines()`, collected.
pub fn str_lines(s: &str) -> (r: Vec<String>)
    ensures
        r@.len() == text_lines(s@).len(),
        forall|i: int| 0 <= i < r@.len() ==> #[trigger] r@[i]@ == text_lines(s@)[i],
{
    let n = s.unicode_len();
    let mut done: Vec<String> = Vec::new();
    let mut start: usize = 0;
    let mut i: usize = 0;
    while i < n
        invariant
            n == s@.len(),
            start <= i <= n,
            split_on_char(s@.take(i as int), '\n').len() == done@.len() + 1,
            forall|k: int|
                0 <= k < done@.len() ==> #[trigger] done@[k]@ == without_carriage_return(
                    split_on_char(s@.take(i as int), '\n')[k],
                ),
            split_on_char(s@.take(i as int), '\n').last() == s@.subrange(start as int, i as int),
        decreases n - i,
    {
        let ghost before = split_on_char(s@.take(i as int), '\n');
        assert(s@.take(i + 1).drop_last() =~= s@.take(i as int));
        assert(s@.take(i + 1).last() == s@[i as int]);
        if s.get_char(i) == '\n' {
            let line = line_without_carriage_return(s, start, i);
            done.push(line);
            start = i + 1;
            assert(s@.subrange(start as int, i + 1) =~= Seq::<char>::empty());
        } else {
            assert(s@.subrange(start as int, i + 1) =~= s@.subrange(start as int, i as int).push(
                s@[i as int],
            ));
        }
        i = i + 1;
    }
    assert(s@.take(n as int) =~= s@);
    if start < n {
        done.push(String::from_str(s.substring_char(start, n)));
    }
    done
}

/// Whether `c` is one of the ASCII digits `0`..`9`.
pub open spec fn is_decimal_digit(c: char) -> bool {
    0x30 <= c as u32 <= 0x39
}

/// The value of the ASCII digit `c`.
pub open spec fn digit_value(c: char) -> nat {
    (c as u32 - 0x30) as nat
}

/// The value of a sequence of decimal digits, most significant first.
pub open spec fn decimal_value(d: Seq<char>) -> nat
    decreases d.len(),
{
    if d.len() == 0 {
        0
    } else {
        decimal_value(d.drop_last()) * 10 + digit_value(d.last())
    }
}

/// Every character of `d` is a decimal digit.
pub open spec fn all_decimal_digits(d: Seq<char>) -> bool {
    forall|i: int| 0 <= i < d.len() ==> is_decimal_digit(#[trigger] d[i])
}

/// The digits of an unsigned number: `s` without one leading `+`.
pub open spec fn unsigned_digits(s: Seq<char>) -> Seq<char> {
    if s.len() > 0 && s[0] == '+' {
        s.drop_first()
    } else {
        s
    }
}

/// What `str::parse` gives for an unsigned integer type whose largest value
/// is `max`: an optional `+` followed by at least one decimal digit and
/// nothing else, of a value that fits.
pub open spec fn parse_unsigned(s: Seq<char>, max: nat) -> Option<nat> {
    let d = unsigned_digits(s);
    if d.len() > 0 && all_decimal_digits(d) && decimal_value(d) <= max {
        Some(decimal_value(d))
    } else {
        None
    }
}

proof fn lemma_decimal_value_prefix(d: Seq<char>, i: int)
    requires
        0 <= i <= d.len(),
    ensures
        decimal_value(d.take(i)) <= decimal_value(d),
    decreases d.len(),
{
    if i < d.len() {
        assert(d.drop_last().take(i) =~= d.take(i));
        lemma_decimal_value_prefix(d.drop_last(), i);
    } else {
        assert(d.take(i) =~= d);
    }
}

/// Parses `s` as an unsigned decimal number no larger than `max`.
pub fn parse_decimal(s: &str, max: u64) -> (r: Option<u64>)
    ensures
        r matches Some(v) ==> parse_unsigned(s@, max as nat) == Some(v as nat),
        r is None <==> parse_unsigned(s@, max as nat) is None,
{
    let n = s.unicode_len();
    let digits: &str = if n > 0 && s.get_char(0) == '+' {
        s.substring_char(1, n)
    } else {
        s
    };
    assert(digits@ =~= unsigned_digits(s@));
    let m = digits.unicode_len();
    if m == 0 {
        return None;
    }
    let mut value: u64 = 0;
    let mut i: usize = 0;
    while i < m
        invariant
            m == digits@.len(),
            digits@ == unsigned_digits(s@),
            i <= m,
            value as nat == decimal_value(digits@.take(i as int)),
            value <= max,
            all_decimal_digits(digits@.take(i as int)),
        decreases m - i,
    {
        let c = digits.get_char(i);
        let u = c as u32;
        if u < 0x30 || u > 0x39 {
            assert(!is_decimal_digit(digits@[i as int]));
            return None;
        }
        let next: u128 = (value as u128) * 10 + ((u - 0x30) as u128);
        assert(digits@.take(i + 1).drop_last() =~= digits@.take(i as int));
        assert(digits@.take(i + 1).last() == c);
        assert(decimal_value(digits@.take(i + 1)) == next);
        if next > max as u128 {
            proof {
                lemma_decimal_value_prefix(digits@, i + 1);
            }
            return None;
        }
        value = next as u64;
        i = i + 1;
        assert forall|k: int| 0 <= k < i implies is_decimal_digit(#[trigger] digits@.take(i as int)[k]) by {
            if k < i - 1 {
                assert(digits@.take(i as int)[k] == digits@.take(i - 1)[k]);
            }
        }
    }
    assert(digits@.take(m as int) =~= digits@);
    Some(value)
}

/// The decimal digit character for `d` < 10.
pub open spec fn digit_char(d: nat) -> char {
    if d == 0 {
        '0'
    } else if d == 1 {
        '1'
    } else if d == 2 {
        '2'
    } else if d == 3 {
        '3'
    } else if d == 4 {
        '4'
    } else if d == 5 {
        '5'
    } else if d == 6 {
        '6'
    } else if d == 7 {
        '7'
    } else if d == 8 {
        '8'
    } else {
        '9'
    }
}

/// The decimal representation of `n`, as `{}` formats an unsigned integer.
pub open spec fn decimal_text(n: nat) -> Seq<char>
    decreases n,
{
    if n < 10 {
        seq![digit_char(n)]
    } else {
        decimal_text(n / 10).push(digit_char(n % 10))
    }
}

fn digit_str(d: u64) -> (r: &'static str)
    requires
        d < 10,
    ensures
        r@ == seq![digit_char(d as nat)],
{
    proof {
        reveal_strlit("0");
        reveal_strlit("1");
        reveal_strlit("2");
        reveal_strlit("3");
        reveal_strlit("4");
        reveal_strlit("5");
        reveal_strlit("6");
        reveal_strlit("7");
        reveal_strlit("8");
        reveal_strlit("9");
    }
    if d == 0 {
        "0"
    } else if d == 1 {
        "1"
    } else if d == 2 {
        "2"
    } else if d == 3 {
        "3"
    } else if d == 4 {
        "4"
    } else if d == 5 {
        "5"
    } else if d == 6 {
        "6"
    } else if d == 7 {
        "7"
    } else if d == 8 {
        "8"
    } else {
        "9"
    }
}

/// `n.to_string()` for an unsigned integer.
pub fn decimal_string(n: u64) -> (r: String)
    ensures
        r@ == decimal_text(n as nat),
    decreases n,
{
    if n < 10 {
        String::from_str(digit_str(n))
    } else {
        let mut r = decimal_string(n / 10);
        r.append(digit_str(n % 10));
        r
    }
}


/// Number of characters at the start of `s` that are not white space.
pub open spec fn leading_word_len(s: Seq<char>) -> nat
    decreases s.len(),
{
    if s.len() > 0 && !is_white_space(s[0]) {
        1 + leading_word_len(s.drop_first())
    } else {
        0
    }
}

/// The first white-space separated word of `s`
/// (`s.split_whitespace().next()`).
pub open spec fn first_word(s: Seq<char>) -> Option<Seq<char>> {
    let a = leading_white_space(s);
    if a == s.len() {
        None
    } else {
        Some(s.subrange(a as int, (a + leading_word_len(s.skip(a as int))) as int))
    }
}

proof fn lemma_leading_word_len(s: Seq<char>, i: int)
    requires
        0 <= i <= s.len(),
        forall|k: int| 0 <= k < i ==> !is_white_space(#[trigger] s[k]),
        i == s.len() || is_white_space(s[i]),
    ensures
        leading_word_len(s) == i,
    decreases i,
{
    if i > 0 {
        let t = s.drop_first();
        assert forall|k: int| 0 <= k < i - 1 implies !is_white_space(#[trigger] t[k]) by {
            assert(t[k] == s[k + 1]);
        }
        lemma_leading_word_len(t, i - 1);
    }
}

/// `s.split_whitespace().next()`, owned.
pub fn str_first_word(s: &str) -> (r: Option<String>)
    ensures
        r is Some <==> first_word(s@) is Some,
        r matches Some(w) ==> first_word(s@) == Some(w@),
{
    let n = s.unicode_len();
    let mut i: usize = 0;
    while i < n && char_is_white_space(s.get_char(i))
        invariant
            n == s@.len(),
            i <= n,
            forall|k: int| 0 <= k < i ==> is_white_space(#[trigger] s@[k]),
        decreases n - i,
    {
        i = i + 1;
    }
    proof {
        lemma_leading_white_space(s@, i as int);
    }
    if i == n {
        return None;
    }
    let mut j: usize = i;
    while j < n && !char_is_white_space(s.get_char(j))
        invariant
            n == s@.len(),
            i <= j <= n,
            forall|k: int| i <= k < j ==> !is_white_space(#[trigger] s@[k]),
        decreases n - j,
    {
        j = j + 1;
    }
    proof {
        let t = s@.skip(i as int);
        assert forall|k: int| 0 <= k < j - i implies !is_white_space(#[trigger] t[k]) by {
            assert(t[k] == s@[k + i]);
        }
        if j < n {
            assert(t[j - i] == s@[j as int]);
        }
        lemma_leading_word_len(t, j - i);
    }
    Some(String::from_str(s.substring_char(i, j)))
}


proof fn lemma_leading_white_space_bound(s: Seq<char>)
    ensures
        leading_white_space(s) <= s.len(),
        leading_white_space(s) == s.len() <==> is_blank(s),
    decreases s.len(),
{
    if s.len() > 0 {
        let t = s.drop_first();
        lemma_leading_white_space_bound(t);
        if is_white_space(s[0]) {
            if is_blank(t) {
                assert forall|i: int| 0 <= i < s.len() implies is_white_space(#[trigger] s[i]) by {
                    if i > 0 {
                        assert(s[i] == t[i - 1]);
                    }
                }
            } else {
                let k = choose|k: int| 0 <= k < t.len() && !is_white_space(#[trigger] t[k]);
                assert(s[k + 1] == t[k]);
            }
        }
    }
}

/// A text is blank exactly when trimming it leaves nothing, so `is_blank`
/// is `s.trim().is_empty()`.
pub proof fn lemma_blank_iff_trims_to_empty(s: Seq<char>)
    ensures
        is_blank(s) <==> trimmed(s).len() == 0,
{
    lemma_leading_white_space_bound(s);
    if !is_blank(s) {
        let a = leading_white_space(s);
        lemma_leading_stop(s);
        lemma_trailing_white_space_bound(s, a as int);
    }
}

proof fn lemma_leading_stop(s: Seq<char>)
    requires
        leading_white_space(s) < s.len(),
    ensures
        !is_white_space(s[leading_white_space(s) as int]),
    decreases s.len(),
{
    if is_white_space(s[0]) {
        let t = s.drop_first();
        assert(t[leading_white_space(t) as int] == s[leading_white_space(s) as int]) by {
            lemma_leading_white_space_bound(t);
        }
        lemma_leading_white_space_bound(t);
        lemma_leading_stop(t);
    }
}

proof fn lemma_trailing_white_space_bound(s: Seq<char>, a: int)
    requires
        0 <= a < s.len(),
        !is_white_space(s[a]),
    ensures
        trailing_white_space(s) < s.len() - a,
    decreases s.len(),
{
    if a < s.len() - 1 {
        let t = s.drop_last();
        assert(t[a] == s[a]);
        lemma_trailing_white_space_bound(t, a);
    }
}

} // verus!
