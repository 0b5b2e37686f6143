//! Character-level helpers shared by the text-producing parts of the library.
use vstd::prelude::*;

verus! {

/// Appends one character to a `String` (`String::push`).
#[verifier::external_body]
pub(crate) fn push_char(s: &mut String, c: char)
    ensures
        final(s)@ == old(s)@.push(c),
{
    s.push(c);
}

/// The characters of a string slice, in order.
pub fn chars_of(s: &str) -> (r: Vec<char>)
    ensures
        r@ == s@,
{
    let mut r: Vec<char> = Vec::new();
    for c in it: s.chars()
        invariant
            r@ == it.seq().take(it.index() as int),
            it.seq() == s@,
    {
        r.push(c);
    }
    r
}

/// A `String` holding exactly the given characters.
pub fn string_of(v: &Vec<char>) -> (r: String)
    ensures
        r@ == v@,
{
    let mut r = String::new();
    let mut i: usize = 0;
    while i < v.len()
        invariant
            i <= v.len(),
            r@ == v@.take(i as int),
        decreases v.len() - i,
    {
        push_char(&mut r, v[i]);
        assert(v@.take(i + 1) == v@.take(i as int).push(v@[i as int]));
        i += 1;
    }
    assert(v@.take(v.len() as int) == v@);
    r
}

} // verus!

verus! {

/// ASCII lower-casing of one character; every other character is unchanged.
pub open spec fn ascii_lower(c: char) -> char {
    if 'A' <= c && c <= 'Z' {
        ((c as u32) + 32) as char
    } else {
        c
    }
}

pub fn to_ascii_lower(c: char) -> (r: char)
    ensures
        r == ascii_lower(c),
{
    if c >= 'A' && c <= 'Z' {
        ((c as u8) + 32) as char
    } else {
        c
    }
}

/// `pat` occurs in `s` at index `i`; with `fold` the comparison lower-cases
/// the characters of `s` (the pattern itself is given in lower case).
pub open spec fn occurs_at(s: Seq<char>, pat: Seq<char>, i: int, fold: bool) -> bool {
    &&& 0 <= i
    &&& i + pat.len() <= s.len()
    &&& forall|j: int|
        0 <= j < pat.len() ==> (if fold {
            ascii_lower(#[trigger] s[i + j])
        } else {
            s[i + j]
        }) == pat[j]
}

/// The first index at or after `i` where `pat` occurs in `s`.
pub open spec fn find_from(s: Seq<char>, pat: Seq<char>, i: int, fold: bool) -> Option<int>
    decreases s.len() - i,
{
    if i < 0 || i + pat.len() > s.len() {
        None
    } else if occurs_at(s, pat, i, fold) {
        Some(i)
    } else {
        find_from(s, pat, i + 1, fold)
    }
}

pub proof fn lemma_find_from_bounds(s: Seq<char>, pat: Seq<char>, i: int, fold: bool)
    ensures
        find_from(s, pat, i, fold) matches Some(k) ==> i <= k && k + pat.len() <= s.len()
            && occurs_at(s, pat, k, fold),
        find_from(s, pat, i, fold) is None ==> forall|k: int|
            0 <= i <= k ==> !#[trigger] occurs_at(s, pat, k, fold),
    decreases s.len() - i,
{
    if i < 0 || i + pat.len() > s.len() {
    } else if occurs_at(s, pat, i, fold) {
    } else {
        lemma_find_from_bounds(s, pat, i + 1, fold);
    }
}

/// Executable search for the first occurrence of `pat` at or after `start`.
pub fn find_in(s: &Vec<char>, pat: &Vec<char>, start: usize, fold: bool) -> (r: Option<usize>)
    ensures
        r matches Some(k) ==> find_from(s@, pat@, start as int, fold) == Some(k as int),
        r is None ==> find_from(s@, pat@, start as int, fold) is None,
{
    let n = s.len();
    let m = pat.len();
    let mut i = start;
    while i <= n && m <= n - i
        invariant
            start <= i,
            n == s.len(),
            m == pat.len(),
            find_from(s@, pat@, start as int, fold) == find_from(s@, pat@, i as int, fold),
        decreases n - i,
    {
        let mut j: usize = 0;
        let mut ok = true;
        while j < m
            invariant
                j <= m,
                i + m <= n,
                n == s.len(),
                m == pat.len(),
                ok == (forall|t: int|
                    0 <= t < j ==> (if fold {
                        ascii_lower(#[trigger] s@[i + t])
                    } else {
                        s@[i + t]
                    }) == pat@[t]),
            decreases m - j,
        {
            let c = if fold { to_ascii_lower(s[i + j]) } else { s[i + j] };
            if c != pat[j] {
                ok = false;
            }
            j += 1;
        }
        if ok {
            return Some(i);
        }
        i += 1;
    }
    None
}

} // verus!

verus! {

/// Unicode `White_Space` characters, as `char::is_whitespace` tests them.
pub open spec fn is_whitespace(c: char) -> bool {
    ||| ('\u{9}' <= c && c <= '\u{d}')
    ||| c == ' '
    ||| c == '\u{85}'
    ||| c == '\u{a0}'
    ||| c == '\u{1680}'
    ||| ('\u{2000}' <= c && c <= '\u{200a}')
    ||| c == '\u{2028}'
    ||| c == '\u{2029}'
    ||| c == '\u{202f}'
    ||| c == '\u{205f}'
    ||| c == '\u{3000}'
}

pub fn char_is_whitespace(c: char) -> (r: bool)
    ensures
        r == is_whitespace(c),
{
    (c >= '\u{9}' && c <= '\u{d}') || c == ' ' || c == '\u{85}' || c == '\u{a0}' || c
        == '\u{1680}' || (c >= '\u{2000}' && c <= '\u{200a}') || c == '\u{2028}' || c
        == '\u{2029}' || c == '\u{202f}' || c == '\u{205f}' || c == '\u{3000}'
}

/// The first index at or after `i` holding the character `c`.
pub open spec fn find_char_from(s: Seq<char>, c: char, i: int) -> Option<int>
    decreases s.len() - i,
{
    if i < 0 || i >= s.len() {
        None
    } else if s[i] == c {
        Some(i)
    } else {
        find_char_from(s, c, i + 1)
    }
}

/// The first index at or after `i` whose character satisfies `p`.
pub open spec fn find_where(s: Seq<char>, i: int, p: spec_fn(char) -> bool) -> Option<int>
    decreases s.len() - i,
{
    if i < 0 || i >= s.len() {
        None
    } else if p(s[i]) {
        Some(i)
    } else {
        find_where(s, i + 1, p)
    }
}

pub proof fn lemma_find_char_bounds(s: Seq<char>, c: char, i: int)
    ensures
        find_char_from(s, c, i) matches Some(k) ==> i <= k < s.len() && s[k] == c,
        find_char_from(s, c, i) is None ==> forall|k: int| 0 <= i <= k < s.len() ==> s[k] != c,
    decreases s.len() - i,
{
    if 0 <= i < s.len() && s[i] != c {
        lemma_find_char_bounds(s, c, i + 1);
    }
}

pub proof fn lemma_find_where_bounds(s: Seq<char>, i: int, p: spec_fn(char) -> bool)
    ensures
        find_where(s, i, p) matches Some(k) ==> i <= k < s.len() && p(s[k]),
        find_where(s, i, p) matches Some(k) ==> forall|j: int| i <= j < k ==> !p(#[trigger] s[j]),
        find_where(s, i, p) is None ==> forall|k: int| 0 <= i <= k < s.len() ==> !p(#[trigger] s[k]),
    decreases s.len() - i,
{
    if 0 <= i < s.len() && !p(s[i]) {
        lemma_find_where_bounds(s, i + 1, p);
    }
}

} // verus!

verus! {

pub open spec fn is_token_char(c: char) -> bool {
    ('a' <= c && c <= 'z') || ('A' <= c && c <= 'Z') || ('0' <= c && c <= '9') || c == '_' || c
        == '-'
}

pub open spec fn is_token_or_dot(c: char) -> bool {
    is_token_char(c) || c == '.'
}

/// Character classes that the text scanners stop at.
pub enum CharClass {
    /// Unicode whitespace.
    Whitespace,
    /// The end of a user name in a home path: `/`, `\` or whitespace.
    HomeStop,
    /// Anything that is neither a token character nor a dot.
    NonToken,
}

pub open spec fn in_class(c: char, class: CharClass) -> bool {
    match class {
        CharClass::Whitespace => is_whitespace(c),
        CharClass::HomeStop => c == '/' || c == '\\' || is_whitespace(c),
        CharClass::NonToken => !is_token_or_dot(c),
    }
}

pub open spec fn class_pred(class: CharClass) -> spec_fn(char) -> bool {
    |c: char| in_class(c, class)
}

pub fn char_in_class(c: char, class: &CharClass) -> (r: bool)
    ensures
        r == in_class(c, *class),
{
    match class {
        CharClass::Whitespace => char_is_whitespace(c),
        CharClass::HomeStop => c == '/' || c == '\\' || char_is_whitespace(c),
        CharClass::NonToken => !((c >= 'a' && c <= 'z') || (c >= 'A' && c <= 'Z') || (c >= '0'
            && c <= '9') || c == '_' || c == '-' || c == '.'),
    }
}

/// Executable `find_where` over a character class.
pub fn find_class(s: &Vec<char>, i: usize, class: CharClass) -> (r: Option<usize>)
    ensures
        r matches Some(k) ==> find_where(s@, i as int, class_pred(class)) == Some(k as int),
        r is None ==> find_where(s@, i as int, class_pred(class)) is None,
{
    let mut j = i;
    while j < s.len()
        invariant
            i <= j,
            find_where(s@, i as int, class_pred(class)) == find_where(
                s@,
                j as int,
                class_pred(class),
            ),
        decreases s.len() - j,
    {
        if char_in_class(s[j], &class) {
            return Some(j);
        }
        j += 1;
    }
    None
}

/// Executable `find_char_from`.
pub fn find_char(s: &Vec<char>, c: char, i: usize) -> (r: Option<usize>)
    ensures
        r matches Some(k) ==> find_char_from(s@, c, i as int) == Some(k as int),
        r is None ==> find_char_from(s@, c, i as int) is None,
{
    let mut j = i;
    while j < s.len()
        invariant
            i <= j,
            find_char_from(s@, c, i as int) == find_char_from(s@, c, j as int),
        decreases s.len() - j,
    {
        if s[j] == c {
            return Some(j);
        }
        j += 1;
    }
    None
}

/// Appends `s[from..to]` to `out`.
pub fn push_range(out: &mut Vec<char>, s: &Vec<char>, from: usize, to: usize)
    requires
        from <= to <= s.len(),
    ensures
        final(out)@ == old(out)@ + s@.subrange(from as int, to as int),
{
    let mut i = from;
    while i < to
        invariant
            from <= i <= to <= s.len(),
            out@ == old(out)@ + s@.subrange(from as int, i as int),
        decreases to - i,
    {
        out.push(s[i]);
        assert(s@.subrange(from as int, i + 1) == s@.subrange(from as int, i as int).push(
            s@[i as int],
        ));
        i += 1;
    }
}

/// Appends all of `s` to `out`.
pub fn push_all(out: &mut Vec<char>, s: &Vec<char>)
    ensures
        final(out)@ == old(out)@ + s@,
{
    push_range(out, s, 0, s.len());
    assert(s@.subrange(0, s@.len() as int) == s@);
}

} // verus!

verus! {

pub open spec fn digit_char(d: nat) -> char {
    (('0' as u32) + d) as char
}

/// The decimal digits of `n`, most significant first, without leading zeros.
pub open spec fn decimal(n: nat) -> Seq<char>
    decreases n,
{
    if n < 10 {
        seq![digit_char(n)]
    } else {
        decimal(n / 10).push(digit_char(n % 10))
    }
}

/// Appends the decimal digits of `n` to `out`.
pub fn push_decimal(out: &mut Vec<char>, n: u64)
    ensures
        final(out)@ == old(out)@ + decimal(n as nat),
    decreases n,
{
    if n >= 10 {
        push_decimal(out, n / 10);
    }
    let d = (n % 10) as u8;
    out.push(((48u8 + d) as char));
    proof {
        if n >= 10 {
            assert(decimal(n as nat) == decimal((n / 10) as nat).push(digit_char((n % 10) as nat)));
        }
    }
    assert(final(out)@ =~= old(out)@ + decimal(n as nat));
}

/// The lower-case hexadecimal digits of `n`, without leading zeros.
pub open spec fn hex(n: nat) -> Seq<char>
    decreases n,
{
    if n < 16 {
        seq![hex_char(n)]
    } else {
        hex(n / 16).push(hex_char(n % 16))
    }
}

pub open spec fn hex_char(d: nat) -> char {
    if d < 10 {
        (('0' as u32) + d) as char
    } else {
        (('a' as u32) + d - 10) as char
    }
}

/// `digits` left-padded with `0` to at least `width` characters.
pub open spec fn zero_padded(digits: Seq<char>, width: nat) -> Seq<char> {
    if digits.len() >= width {
        digits
    } else {
        Seq::new((width - digits.len()) as nat, |i: int| '0') + digits
    }
}

/// Appends the lower-case hexadecimal digits of `n` to `out`.
pub fn push_hex(out: &mut Vec<char>, n: u64)
    ensures
        final(out)@ == old(out)@ + hex(n as nat),
    decreases n,
{
    if n >= 16 {
        push_hex(out, n / 16);
    }
    let d = (n % 16) as u8;
    if d < 10 {
        out.push((48u8 + d) as char);
    } else {
        out.push((87u8 + d) as char);
    }
    assert(final(out)@ =~= old(out)@ + hex(n as nat));
}

/// `n` as at least eight lower-case hexadecimal digits (`{:08x}`).
pub fn push_hex8(out: &mut Vec<char>, n: u64)
    ensures
        final(out)@ == old(out)@ + zero_padded(hex(n as nat), 8),
{
    let mut digits: Vec<char> = Vec::new();
    push_hex(&mut digits, n);
    assert(digits@ =~= hex(n as nat));
    let mut pad = digits.len();
    let ghost start = out@;
    while pad < 8
        invariant
            digits@ == hex(n as nat),
            digits.len() <= pad <= 8 || (pad == digits.len() && pad >= 8),
            pad < 8 ==> out@ == start + Seq::new((pad - digits.len()) as nat, |i: int| '0'),
            pad >= 8 && digits.len() < 8 ==> out@ == start + Seq::new(
                (8 - digits.len()) as nat,
                |i: int| '0',
            ),
            digits.len() >= 8 ==> out@ == start,
        decreases 8 - pad,
    {
        out.push('0');
        pad += 1;
        assert(out@ =~= start + Seq::new((pad - digits.len()) as nat, |i: int| '0'));
    }
    push_all(out, &digits);
    assert(out@ =~= start + zero_padded(hex(n as nat), 8));
}

} // verus!

verus! {

/// String-slice equality (`<str as PartialEq>::eq`).
#[verifier::external_body]
pub(crate) fn str_eq(a: &str, b: &str) -> (r: bool)
    ensures
        r == (a@ == b@),
{
    a == b
}

} // verus!

verus! {

/// Appends the characters of `s` to `out`.
pub fn push_str(out: &mut Vec<char>, s: &str)
    ensures
        final(out)@ == old(out)@ + s@,
{
    let chars = chars_of(s);
    push_all(out, &chars);
}

/// Whether `s` starts with `prefix`.
pub fn starts_with(s: &str, prefix: &str) -> (r: bool)
    ensures
        r == (prefix@.len() <= s@.len() && s@.take(prefix@.len() as int) == prefix@),
{
    let a = chars_of(s);
    let b = chars_of(prefix);
    if b.len() > a.len() {
        return false;
    }
    let mut i: usize = 0;
    while i < b.len()
        invariant
            i <= b.len() <= a.len(),
            a@ == s@,
            b@ == prefix@,
            forall|j: int| 0 <= j < i ==> a@[j] == b@[j],
        decreases b.len() - i,
    {
        if a[i] != b[i] {
            proof {
                assert(s@.take(prefix@.len() as int)[i as int] != prefix@[i as int]);
            }
            return false;
        }
        i += 1;
    }
    assert(s@.take(prefix@.len() as int) =~= prefix@);
    true
}

/// Whether `s` ends with `suffix`.
pub fn ends_with(s: &str, suffix: &str) -> (r: bool)
    ensures
        r == (suffix@.len() <= s@.len() && s@.skip(s@.len() - suffix@.len()) == suffix@),
{
    let a = chars_of(s);
    let b = chars_of(suffix);
    if b.len() > a.len() {
        return false;
    }
    let start = a.len() - b.len();
    let mut i: usize = 0;
    while i < b.len()
        invariant
            i <= b.len() <= a.len(),
            start == a.len() - b.len(),
            a@ == s@,
            b@ == suffix@,
            forall|j: int| 0 <= j < i ==> a@[start + j] == b@[j],
        decreases b.len() - i,
    {
        if a[start + i] != b[i] {
            proof {
                assert(s@.skip(s@.len() - suffix@.len())[i as int] != suffix@[i as int]);
            }
            return false;
        }
        i += 1;
    }
    assert(s@.skip(s@.len() - suffix@.len()) =~= suffix@);
    true
}

} // verus!

verus! {

/// What `str::to_lowercase` returns for a string: its Unicode lower-case form.
pub uninterp spec fn lowercased(s: Seq<char>) -> Seq<char>;

/// Unicode lower-casing of a string slice (`str::to_lowercase`).
#[verifier::external_body]
pub(crate) fn to_lowercase(s: &str) -> (r: String)
    ensures
        r@ == lowercased(s@),
{
    s.to_lowercase()
}

/// `s` with every space replaced by a hyphen.
pub open spec fn dashed(s: Seq<char>) -> Seq<char> {
    s.map_values(|c: char| if c == ' ' { '-' } else { c })
}

/// Replaces every space of `s` by a hyphen.
pub fn dash_spaces(s: &str) -> (r: String)
    ensures
        r@ == dashed(s@),
{
    let chars = chars_of(s);
    let mut out: Vec<char> = Vec::new();
    let mut i: usize = 0;
    while i < chars.len()
        invariant
            i <= chars.len(),
            chars@ == s@,
            out@ == dashed(s@.take(i as int)),
        decreases chars.len() - i,
    {
        let c = chars[i];
        if c == ' ' {
            out.push('-');
        } else {
            out.push(c);
        }
        assert(dashed(s@.take(i + 1)) =~= dashed(s@.take(i as int)).push(if c == ' ' { '-' } else { c }));
        i += 1;
    }
    assert(s@.take(chars.len() as int) =~= s@);
    string_of(&out)
}

} // verus!

verus! {

/// Whether `pat` occurs in `s` (the empty pattern occurs everywhere).
pub open spec fn contains_seq(s: Seq<char>, pat: Seq<char>) -> bool {
    find_from(s, pat, 0, false) is Some
}

/// Whether `pat` occurs in `s`.
pub fn contains(s: &str, pat: &str) -> (r: bool)
    ensures
        r == contains_seq(s@, pat@),
{
    let a = chars_of(s);
    let b = chars_of(pat);
    find_in(&a, &b, 0, false).is_some()
}

/// Where `s` starts once leading whitespace is skipped.
pub open spec fn trim_start_at(s: Seq<char>) -> int {
    match find_where(s, 0, |c: char| !is_whitespace(c)) {
        Some(k) => k,
        None => s.len() as int,
    }
}

/// Where the first `i` characters of `s` end once trailing whitespace is cut.
pub open spec fn trim_end_at(s: Seq<char>, i: int) -> int
    decreases i,
{
    if i <= 0 {
        0
    } else if !is_whitespace(s[i - 1]) {
        i
    } else {
        trim_end_at(s, i - 1)
    }
}

/// `s` without leading and trailing whitespace (`str::trim`).
pub open spec fn trimmed(s: Seq<char>) -> Seq<char> {
    if trim_start_at(s) >= s.len() {
        Seq::empty()
    } else {
        s.subrange(trim_start_at(s), trim_end_at(s, s.len() as int))
    }
}

proof fn lemma_trim_end_past(s: Seq<char>, i: int, k: int)
    requires
        0 <= k < i <= s.len(),
        !is_whitespace(s[k]),
    ensures
        k < trim_end_at(s, i) <= i,
    decreases i,
{
    if is_whitespace(s[i - 1]) {
        lemma_trim_end_past(s, i - 1, k);
    }
}

/// A trimmed string that is not empty starts with a character that is not
/// whitespace.
pub proof fn lemma_trimmed_starts_with_text(s: Seq<char>)
    ensures
        trimmed(s).len() > 0 ==> !is_whitespace(trimmed(s)[0]),
{
    let k = trim_start_at(s);
    lemma_find_where_bounds(s, 0, |c: char| !is_whitespace(c));
    if k < s.len() {
        lemma_trim_end_past(s, s.len() as int, k);
        assert(trimmed(s)[0] == s[k]);
    }
}

/// `s` without leading and trailing whitespace.
pub fn trim(s: &str) -> (r: String)
    ensures
        r@ == trimmed(s@),
{
    let chars = chars_of(s);
    let n = chars.len();
    let mut start: usize = 0;
    while start < n && char_is_whitespace(chars[start])
        invariant
            start <= n,
            n == s@.len(),
            chars@ == s@,
            find_where(s@, 0, |c: char| !is_whitespace(c)) == find_where(s@, start as int, |c: char| !is_whitespace(c)),
        decreases n - start,
    {
        start += 1;
    }
    assert(trim_start_at(s@) == start as int);
    if start >= n {
        return String::new();
    }
    let mut end: usize = n;
    while end > start && char_is_whitespace(chars[end - 1])
        invariant
            start < end <= n,
            n == s@.len(),
            chars@ == s@,
            !is_whitespace(s@[start as int]),
            trim_end_at(s@, n as int) == trim_end_at(s@, end as int),
        decreases end,
    {
        end -= 1;
    }
    let mut out: Vec<char> = Vec::new();
    push_range(&mut out, &chars, start, end);
    string_of(&out)
}

/// The value of a run of decimal digits.
pub open spec fn digits_value(s: Seq<char>) -> int
    decreases s.len(),
{
    if s.len() == 0 {
        0
    } else {
        digits_value(s.drop_last()) * 10 + (s.last() as int - '0' as int)
    }
}

/// Whether every character of `s` is an ASCII digit.
pub open spec fn all_digits(s: Seq<char>) -> bool {
    forall|i: int| 0 <= i < s.len() ==> '0' <= #[trigger] s[i] <= '9'
}

/// What `str::parse::<u32>` accepts: an optional `+` and at least one digit,
/// with a value that fits in a `u32`.
pub open spec fn parsed_u32(s: Seq<char>) -> Option<u32> {
    let body = if s.len() > 0 && s[0] == '+' { s.skip(1) } else { s };
    if body.len() > 0 && all_digits(body) && digits_value(body) <= u32::MAX {
        Some(digits_value(body) as u32)
    } else {
        None
    }
}

proof fn lemma_digits_nonneg(s: Seq<char>)
    requires
        all_digits(s),
    ensures
        digits_value(s) >= 0,
    decreases s.len(),
{
    if s.len() > 0 {
        assert(all_digits(s.drop_last()));
        lemma_digits_nonneg(s.drop_last());
    }
}

/// Parses a decimal `u32` as `str::parse::<u32>` does.
pub fn parse_u32(s: &str) -> (r: Option<u32>)
    ensures
        r == parsed_u32(s@),
{
    let chars = chars_of(s);
    let n = chars.len();
    let mut i: usize = 0;
    if n > 0 && chars[0] == '+' {
        i = 1;
    }
    let start = i;
    let ghost body = if n > 0 && s@[0] == '+' { s@.skip(1) } else { s@ };
    assert(body =~= s@.subrange(start as int, n as int));
    if start >= n {
        return None;
    }
    let mut value: u64 = 0;
    let mut too_big = false;
    while i < n
        invariant
            start <= i <= n,
            n == s@.len(),
            chars@ == s@,
            body == s@.subrange(start as int, n as int),
            body == (if s@.len() > 0 && s@[0] == '+' { s@.skip(1) } else { s@ }),
            forall|t: int| start <= t < i ==> '0' <= #[trigger] s@[t] <= '9',
            !too_big ==> value == digits_value(body.take(i - start)) && value <= u32::MAX,
            too_big ==> digits_value(body.take(i - start)) > u32::MAX,
        decreases n - i,
    {
        let c = chars[i];
        if c < '0' || c > '9' {
            proof {
                assert(body[i - start] == c);
            }
            return None;
        }
        let d = (c as u32 - '0' as u32) as u64;
        proof {
            assert(body.take(i - start + 1).drop_last() =~= body.take(i - start));
            assert(body.take(i - start + 1).last() == c);
            assert(all_digits(body.take(i - start))) by {
                assert forall|t: int| 0 <= t < i - start implies '0' <= #[trigger] body.take(i - start)[t] <= '9' by {
                    assert(body.take(i - start)[t] == s@[start + t]);
                }
            }
            lemma_digits_nonneg(body.take(i - start));
        }
        if !too_big {
            let next = value * 10 + d;
            if next > u32::MAX as u64 {
                too_big = true;
            } else {
                value = next;
            }
        }
        i += 1;
    }
    proof {
        assert(body.take(n - start) =~= body);
        assert(all_digits(body)) by {
            assert forall|t: int| 0 <= t < body.len() implies '0' <= #[trigger] body[t] <= '9' by {
                assert(body[t] == s@[start + t]);
            }
        }
    }
    if too_big {
        None
    } else {
        Some(value as u32)
    }
}

/// The decimal digits of `n`, with a leading `-` when it is negative.
pub open spec fn signed_decimal(n: int) -> Seq<char> {
    if n < 0 {
        seq!['-'] + decimal((-n) as nat)
    } else {
        decimal(n as nat)
    }
}

/// Appends the decimal form of `n` to `out`.
pub fn push_signed(out: &mut Vec<char>, n: i32)
    ensures
        final(out)@ == old(out)@ + signed_decimal(n as int),
{
    if n < 0 {
        out.push('-');
        let magnitude = (-(n as i64)) as u64;
        push_decimal(out, magnitude);
    } else {
        push_decimal(out, n as u64);
    }
    assert(final(out)@ =~= old(out)@ + signed_decimal(n as int));
}

} // verus!
