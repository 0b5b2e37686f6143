//! Crash report data and the redaction of shareable diagnostics.
use vstd::prelude::*;

use crate::plain::PlainData;
use crate::route::{CrashRef, InstanceRef, RefView, StorageId};
use crate::seqs::{first_index, lemma_filter_full_means_all, lemma_filter_keeps_all, lemma_first_index, position_where, retain_where};
use crate::state::Loader;
use crate::text::{
    chars_of, find_char, find_class, find_in, push_all, push_range, string_of, class_pred, find_char_from, find_from, find_where, is_token_or_dot, lemma_find_char_bounds,
    lemma_find_from_bounds, lemma_find_where_bounds, occurs_at, ascii_lower, to_ascii_lower, is_whitespace, in_class, CharClass,
};

verus! {

// ---------------------------------------------------------------------------
// Redaction: specification
// ---------------------------------------------------------------------------

/// The text that replaces a removed secret.
pub open spec fn marker() -> Seq<char> {
    seq!['<', 'r', 'e', 'd', 'a', 'c', 't', 'e', 'd', '>']
}

/// The credential-carrying command-line options, lower-cased.
pub open spec fn credential_key(k: int) -> Seq<char> {
    if k == 0 {
        seq!['-', '-', 'a', 'c', 'c', 'e', 's', 's', 't', 'o', 'k', 'e', 'n']
    } else if k == 1 {
        seq!['-', '-', 'c', 'l', 'i', 'e', 'n', 't', 't', 'o', 'k', 'e', 'n']
    } else {
        seq!['-', '-', 's', 'e', 's', 's', 'i', 'o', 'n']
    }
}

pub open spec fn home_prefix() -> Seq<char> {
    seq!['/', 'h', 'o', 'm', 'e', '/']
}

pub open spec fn tilde_slash() -> Seq<char> {
    seq!['~', '/']
}

pub open spec fn jwt_prefix() -> Seq<char> {
    seq!['e', 'y', 'J']
}

pub open spec fn is_blank(c: char) -> bool {
    c == ' ' || c == '\t'
}

/// Number of spaces and tabs starting at index `i`.
pub open spec fn blanks_from(s: Seq<char>, i: int) -> int
    decreases s.len() - i,
{
    if 0 <= i < s.len() && is_blank(s[i]) {
        1 + blanks_from(s, i + 1)
    } else {
        0
    }
}

/// Length of the option value starting at `i`: a quoted value up to and
/// including its closing quote (or the whole remainder when unterminated),
/// otherwise the run of characters up to the first whitespace.
pub open spec fn value_len(s: Seq<char>, i: int) -> int {
    if !(0 <= i < s.len()) {
        0
    } else if s[i] == '"' || s[i] == '\'' {
        match find_char_from(s, s[i], i + 1) {
            Some(k) => k - i + 1,
            None => s.len() - i,
        }
    } else {
        match find_where(s, i, class_pred(CharClass::Whitespace)) {
            Some(k) => k - i,
            None => s.len() - i,
        }
    }
}

/// Credential option `k` starts at `i` (without regard to ASCII case) and is
/// followed by blanks and a non-empty value.
pub open spec fn carries_value(s: Seq<char>, i: int, k: int) -> bool {
    let after = i + credential_key(k).len();
    &&& occurs_at(s, credential_key(k), i, true)
    &&& blanks_from(s, after) > 0
    &&& value_len(s, after + blanks_from(s, after)) > 0
}

/// Where the value of credential option `k` at `i` starts.
pub open spec fn value_start(s: Seq<char>, i: int, k: int) -> int {
    i + credential_key(k).len() + blanks_from(s, i + credential_key(k).len())
}

/// Some credential option with a value starts at `i`.
pub open spec fn credential_at(s: Seq<char>, i: int) -> bool {
    carries_value(s, i, 0) || carries_value(s, i, 1) || carries_value(s, i, 2)
}

/// Which option starts at `i` (meaningful where `credential_at` holds).
pub open spec fn key_at(s: Seq<char>, i: int) -> int {
    if carries_value(s, i, 0) {
        0
    } else if carries_value(s, i, 1) {
        1
    } else {
        2
    }
}

/// The first position at or after `i` where a credential option with a
/// value starts.
pub open spec fn first_credential(s: Seq<char>, i: int) -> Option<int>
    decreases s.len() - i,
{
    if i < 0 || i >= s.len() {
        None
    } else if credential_at(s, i) {
        Some(i)
    } else {
        first_credential(s, i + 1)
    }
}

/// The value to remove next from `pos` on, `(start, length)`: that of the
/// earliest credential option, whichever of the three it is.
pub open spec fn credential_step(s: Seq<char>, pos: int) -> Option<(int, int)> {
    match first_credential(s, pos) {
        None => None,
        Some(i) => Some((value_start(s, i, key_at(s, i)), value_len(s, value_start(s, i, key_at(s, i))))),
    }
}

pub proof fn lemma_first_credential(s: Seq<char>, i: int)
    requires
        0 <= i,
    ensures
        first_credential(s, i) matches Some(j) ==> i <= j < s.len() && credential_at(s, j)
            && forall|m: int| i <= m < j ==> !#[trigger] credential_at(s, m),
        first_credential(s, i) is None ==> forall|m: int| i <= m ==> !#[trigger] credential_at(s, m),
    decreases s.len() - i,
{
    if i >= s.len() {
        assert forall|m: int| i <= m implies !#[trigger] credential_at(s, m) by {
            assert(!occurs_at(s, credential_key(0), m, true));
            assert(!occurs_at(s, credential_key(1), m, true));
            assert(!occurs_at(s, credential_key(2), m, true));
        }
    } else if !credential_at(s, i) {
        lemma_first_credential(s, i + 1);
    }
}

pub proof fn lemma_blanks_bounds(s: Seq<char>, i: int)
    ensures
        0 <= blanks_from(s, i),
        0 <= i <= s.len() ==> i + blanks_from(s, i) <= s.len(),
        forall|j: int| i <= j < i + blanks_from(s, i) ==> is_blank(#[trigger] s[j]),
        0 <= i + blanks_from(s, i) < s.len() && 0 <= i ==> !is_blank(s[i + blanks_from(s, i)]),
    decreases s.len() - i,
{
    if 0 <= i < s.len() && is_blank(s[i]) {
        lemma_blanks_bounds(s, i + 1);
    }
}

pub proof fn lemma_value_len_bounds(s: Seq<char>, i: int)
    ensures
        0 <= value_len(s, i),
        0 <= i ==> i + value_len(s, i) <= s.len() || value_len(s, i) == 0,
{
    if 0 <= i < s.len() {
        lemma_find_char_bounds(s, s[i], i + 1);
        lemma_find_where_bounds(s, i, class_pred(CharClass::Whitespace));
    }
}

pub proof fn lemma_credential_step_bounds(s: Seq<char>, pos: int)
    requires
        0 <= pos,
    ensures
        credential_step(s, pos) matches Some((vs, vl)) ==> pos < vs && 0 < vl && vs + vl
            <= s.len(),
{
    lemma_first_credential(s, pos);
    if let Some(i) = first_credential(s, pos) {
        let k = key_at(s, i);
        let after = i + credential_key(k).len();
        lemma_blanks_bounds(s, after);
        lemma_value_len_bounds(s, after + blanks_from(s, after));
    }
}

/// Replaces the values of `--accessToken`, `--clientToken` and `--session`
/// (matched without regard to ASCII case) in `s` from `pos` on, one after the
/// other in the order in which they stand.
pub open spec fn redact_credentials_from(s: Seq<char>, pos: int) -> Seq<char>
    decreases s.len() - pos,
{
    if pos < 0 || pos >= s.len() {
        Seq::empty()
    } else {
        match credential_step(s, pos) {
            Some((vs, vl)) => {
                proof {
                    lemma_credential_step_bounds(s, pos);
                }
                s.subrange(pos, vs) + marker() + redact_credentials_from(s, vs + vl)
            },
            None => s.subrange(pos, s.len() as int),
        }
    }
}


/// The value after credential option `k` at `i` begins with the marker.
pub open spec fn value_is_marked(t: Seq<char>, i: int, k: int) -> bool {
    &&& value_start(t, i, k) + marker().len() <= t.len()
    &&& t.subrange(value_start(t, i, k), value_start(t, i, k) + marker().len()) == marker()
}

/// Whether the value at `q` is non-empty depends on its first character alone.
proof fn lemma_value_len_positive(u: Seq<char>, q: int)
    ensures
        value_len(u, q) > 0 <==> (0 <= q < u.len() && (u[q] == '"' || u[q] == '\'' || !is_whitespace(u[q]))),
{
    lemma_value_len_bounds(u, q);
    if 0 <= q < u.len() {
        if u[q] == '"' || u[q] == '\'' {
            lemma_find_char_bounds(u, u[q], q + 1);
        } else if !is_whitespace(u[q]) {
            lemma_find_where_bounds(u, q + 1, class_pred(CharClass::Whitespace));
            assert(find_where(u, q, class_pred(CharClass::Whitespace)) == find_where(u, q + 1, class_pred(CharClass::Whitespace)));
        }
    }
}

/// A run of exactly `n` blanks starts at `x`.
proof fn lemma_blanks_exact(u: Seq<char>, x: int, n: int)
    requires
        0 <= x,
        0 <= n,
        x + n <= u.len(),
        forall|y: int| x <= y < x + n ==> is_blank(#[trigger] u[y]),
        x + n < u.len() ==> !is_blank(u[x + n]),
    ensures
        blanks_from(u, x) == n,
    decreases n,
{
    if n > 0 {
        lemma_blanks_exact(u, x + 1, n - 1);
    }
}

/// A credential option with a value, read in another text that agrees on the
/// option, its blanks and the value's first character.
proof fn lemma_carries_transfer(u: Seq<char>, x: int, w: Seq<char>, y: int, k: int)
    requires
        0 <= x,
        0 <= y,
        carries_value(u, x, k),
        forall|z: int| 0 <= z <= value_start(u, x, k) - x ==> y + z < w.len() && #[trigger] w[y + z] == u[x + z],
    ensures
        carries_value(w, y, k),
        value_start(w, y, k) == y + (value_start(u, x, k) - x),
{
    let kl = credential_key(k).len();
    let q = value_start(u, x, k);
    lemma_blanks_bounds(u, x + kl);
    lemma_value_len_positive(u, q);
    lemma_value_len_positive(w, y + (q - x));
    assert forall|j: int| 0 <= j < kl implies ascii_lower(#[trigger] w[y + j]) == credential_key(k)[j] by {
        assert(w[y + j] == u[x + j]);
    }
    let nb = blanks_from(u, x + kl);
    assert forall|z: int| y + kl <= z < y + kl + nb implies is_blank(#[trigger] w[z]) by {
        assert(w[y + (z - y)] == u[x + (z - y)]);
    }
    assert(w[y + (q - x)] == u[x + (q - x)]);
    lemma_blanks_exact(w, y + kl, nb);
}

/// The characters of the credential options: two dashes, then letters.
proof fn lemma_key_chars(k: int)
    ensures
        credential_key(k)[0] == '-',
        credential_key(k)[1] == '-',
        credential_key(k).len() >= 9,
        forall|j: int| 2 <= j < credential_key(k).len() ==> 'a' <= #[trigger] credential_key(k)[j] <= 'z',
        forall|j: int| 0 <= j < credential_key(k).len() ==> #[trigger] credential_key(k)[j] != '<',
{
}

/// No option with a value that starts at or after `pos` has its value
/// before the first value that redaction removes from `pos` on.
proof fn lemma_no_option_before(s: Seq<char>, pos: int, x: int, k: int)
    requires
        0 <= pos <= x,
        0 <= k < 3,
        carries_value(s, x, k),
    ensures
        credential_step(s, pos) matches Some((vs, vl)) ==> vs <= value_start(s, x, k),
{
    lemma_first_credential(s, pos);
    if let Some(j) = first_credential(s, pos) {
        let kj = key_at(s, j);
        let kl = credential_key(kj).len();
        let vs = value_start(s, j, kj);
        if value_start(s, x, k) < vs {
            lemma_key_chars(k);
            lemma_key_chars(kj);
            assert(credential_at(s, x));
            assert(x >= j);
            assert(ascii_lower(s[x + 0]) == '-');
            assert(ascii_lower(s[x + 1]) == '-');
            if x == j {
                if k != kj {
                    assert(ascii_lower(s[x + 2]) == credential_key(k)[2]);
                    assert(ascii_lower(s[j + 2]) == credential_key(kj)[2]);
                }
            } else if x - j < kl {
                if x - j == 1 {
                    assert(ascii_lower(s[j + 2]) == credential_key(kj)[2]);
                } else {
                    assert(ascii_lower(s[j + (x - j)]) == credential_key(kj)[x - j]);
                }
            } else {
                lemma_blanks_bounds(s, j + kl);
                assert(is_blank(s[x]));
            }
        }
    }
}

/// Every value that follows a credential option in the text redacted from
/// `pos` on begins with the marker.
proof fn lemma_values_marked(s: Seq<char>, pos: int, i: int, k: int)
    requires
        0 <= pos,
        0 <= k < 3,
        carries_value(redact_credentials_from(s, pos), i, k),
    ensures
        value_is_marked(redact_credentials_from(s, pos), i, k),
    decreases s.len() - pos,
{
    let t = redact_credentials_from(s, pos);
    lemma_key_chars(k);
    let kl = credential_key(k).len();
    assert(0 <= i);
    if pos >= s.len() {
        assert(t.len() == 0);
        assert(false);
    } else {
        lemma_credential_step_bounds(s, pos);
        lemma_first_credential(s, pos);
        match credential_step(s, pos) {
            None => {
                assert(t == s.subrange(pos, s.len() as int));
                lemma_carries_transfer(t, i, s, pos + i, k);
                assert(credential_at(s, pos + i));
                assert(false);
            },
            Some((vs, vl)) => {
                let a = vs - pos;
                let m = marker();
                let b = redact_credentials_from(s, vs + vl);
                assert(t == s.subrange(pos, vs) + m + b);
                assert(forall|z: int| 0 <= z < a ==> #[trigger] t[z] == s[pos + z]);
                assert(forall|z: int| a <= z < a + 10 ==> #[trigger] t[z] == m[z - a]);
                assert(forall|z: int| a + 10 <= z < t.len() ==> #[trigger] t[z] == b[z - a - 10]);
                let q = value_start(t, i, k);
                lemma_blanks_bounds(t, i + kl);
                lemma_value_len_positive(t, q);
                if i >= a + 10 {
                    let y = i - a - 10;
                    assert forall|z: int| 0 <= z <= q - i implies y + z < b.len() && #[trigger] b[y + z] == t[i + z] by {
                        assert(t[i + z] == b[i + z - a - 10]);
                    }
                    lemma_carries_transfer(t, i, b, y, k);
                    lemma_values_marked(s, vs + vl, y, k);
                    assert(t.subrange(q, q + 10) =~= b.subrange(q - a - 10, q - a));
                } else if i >= a {
                    assert(ascii_lower(t[i + 0]) == '-');
                    assert(t[i] == m[i - a]);
                    assert(false);
                } else if i + kl > a {
                    assert(ascii_lower(t[i + (a - i)]) == credential_key(k)[a - i]);
                    assert(t[a] == '<');
                    assert(false);
                } else if q >= a {
                    if q > a {
                        assert(is_blank(t[a]));
                        assert(false);
                    }
                    assert(t.subrange(q, q + 10) =~= m);
                } else {
                    assert forall|z: int| 0 <= z <= q - i implies pos + i + z < s.len() && #[trigger] s[pos + i + z] == t[i + z] by {
                        assert(t[i + z] == s[pos + (i + z)]);
                    }
                    lemma_carries_transfer(t, i, s, pos + i, k);
                    lemma_no_option_before(s, pos, pos + i, k);
                }
            },
        }
    }
}

/// No credential survives redaction: wherever `--accessToken`,
/// `--clientToken` or `--session` (in any ASCII case) is followed by blanks
/// and a value in the redacted text, that value begins with `<redacted>`.
pub proof fn law_no_credential_survives(s: Seq<char>, i: int, k: int)
    requires
        0 <= k < 3,
        carries_value(redact_credentials_from(s, 0), i, k),
    ensures
        value_is_marked(redact_credentials_from(s, 0), i, k),
{
    lemma_values_marked(s, 0, i, k);
}

/// Replaces `/home/<name>/` (or `/home/<name>\`) by `~/` from `pos` on.
pub open spec fn redact_home_from(s: Seq<char>, pos: int) -> Seq<char>
    decreases s.len() - pos,
{
    if pos < 0 || pos > s.len() {
        Seq::empty()
    } else {
        match find_from(s, home_prefix(), pos, false) {
            None => s.subrange(pos, s.len() as int),
            Some(idx) => {
                proof {
                    lemma_find_from_bounds(s, home_prefix(), pos, false);
                }
                let after = idx + 6;
                let stop = match find_where(s, after, class_pred(CharClass::HomeStop)) {
                    Some(k) => k,
                    None => s.len() as int,
                };
                if stop == after || stop >= s.len() || !(s[stop] == '/' || s[stop] == '\\') {
                    s.subrange(pos, idx) + home_prefix() + redact_home_from(s, after)
                } else {
                    proof {
                        lemma_find_where_bounds(s, after, class_pred(CharClass::HomeStop));
                    }
                    s.subrange(pos, idx) + tilde_slash() + redact_home_from(s, stop + 1)
                }
            },
        }
    }
}


/// Searching from inside the tail of a text is searching the tail.
proof fn lemma_find_from_suffix(pre: Seq<char>, v: Seq<char>, pat: Seq<char>, q: int)
    requires
        0 <= q,
    ensures
        find_from(pre + v, pat, pre.len() + q, false) == match find_from(v, pat, q, false) {
            Some(k) => Some(k + pre.len()),
            None => None::<int>,
        },
    decreases v.len() - q,
{
    let w = pre + v;
    let d = pre.len() as int;
    if q + pat.len() <= v.len() {
        if occurs_at(v, pat, q, false) {
            assert forall|j: int| 0 <= j < pat.len() implies #[trigger] w[d + q + j] == pat[j] by {
                assert(w[d + q + j] == v[q + j]);
            }
            assert(occurs_at(w, pat, d + q, false));
        } else {
            if occurs_at(w, pat, d + q, false) {
                assert forall|j: int| 0 <= j < pat.len() implies #[trigger] v[q + j] == pat[j] by {
                    assert(w[d + (q + j)] == v[q + j]);
                    assert(w[d + q + j] == pat[j]);
                }
            }
            lemma_find_from_suffix(pre, v, pat, q + 1);
        }
    }
}

/// Searching from inside the tail of a text is searching the tail.
proof fn lemma_find_where_suffix(pre: Seq<char>, v: Seq<char>, x: int, p: spec_fn(char) -> bool)
    requires
        0 <= x,
    ensures
        find_where(pre + v, pre.len() + x, p) == match find_where(v, x, p) {
            Some(k) => Some(k + pre.len()),
            None => None::<int>,
        },
    decreases v.len() - x,
{
    if x < v.len() {
        assert((pre + v)[pre.len() + x] == v[x]);
        if !p(v[x]) {
            lemma_find_where_suffix(pre, v, x + 1, p);
        }
    }
}

/// The first character satisfying `p` at or after `x` is at `y`.
proof fn lemma_find_where_run(s: Seq<char>, x: int, y: int, p: spec_fn(char) -> bool)
    requires
        0 <= x <= y < s.len(),
        forall|j: int| x <= j < y ==> !p(#[trigger] s[j]),
        p(s[y]),
    ensures
        find_where(s, x, p) == Some(y),
    decreases y - x,
{
    if x < y {
        lemma_find_where_run(s, x + 1, y, p);
    }
}

/// Home redaction inside the tail of a text is home redaction of the tail.
proof fn lemma_redact_home_suffix(pre: Seq<char>, v: Seq<char>, q: int)
    requires
        0 <= q <= v.len(),
    ensures
        redact_home_from(pre + v, pre.len() + q) == redact_home_from(v, q),
    decreases v.len() - q,
{
    let w = pre + v;
    let d = pre.len() as int;
    lemma_find_from_suffix(pre, v, home_prefix(), q);
    lemma_find_from_bounds(v, home_prefix(), q, false);
    match find_from(v, home_prefix(), q, false) {
        None => {
            assert(w.subrange(d + q, w.len() as int) =~= v.subrange(q, v.len() as int));
        },
        Some(idx) => {
            let after = idx + 6;
            lemma_find_where_suffix(pre, v, after, class_pred(CharClass::HomeStop));
            lemma_find_where_bounds(v, after, class_pred(CharClass::HomeStop));
            let stop = match find_where(v, after, class_pred(CharClass::HomeStop)) {
                Some(k) => k,
                None => v.len() as int,
            };
            assert(w.subrange(d + q, d + idx) =~= v.subrange(q, idx));
            if stop < v.len() {
                assert(w[d + stop] == v[stop]);
            }
            if stop == after || stop >= v.len() || !(v[stop] == '/' || v[stop] == '\\') {
                lemma_redact_home_suffix(pre, v, after);
            } else {
                lemma_redact_home_suffix(pre, v, stop + 1);
            }
        },
    }
}

/// Redaction from `pos` is the text up to `m` and redaction from `m`, when no
/// home prefix starts between them.
proof fn lemma_redact_home_skip(s: Seq<char>, pos: int, m: int)
    requires
        0 <= pos <= m <= s.len(),
        find_from(s, home_prefix(), pos, false) == find_from(s, home_prefix(), m, false),
    ensures
        redact_home_from(s, pos) == s.subrange(pos, m) + redact_home_from(s, m),
{
    lemma_find_from_bounds(s, home_prefix(), m, false);
    match find_from(s, home_prefix(), m, false) {
        None => {
            assert(s.subrange(pos, s.len() as int) =~= s.subrange(pos, m) + s.subrange(m, s.len() as int));
        },
        Some(idx) => {
            let after = idx + 6;
            let stop = match find_where(s, after, class_pred(CharClass::HomeStop)) {
                Some(k) => k,
                None => s.len() as int,
            };
            assert(s.subrange(pos, idx) =~= s.subrange(pos, m) + s.subrange(m, idx));
            if stop == after || stop >= s.len() || !(s[stop] == '/' || s[stop] == '\\') {
                let r = redact_home_from(s, after);
                assert(s.subrange(pos, idx) + home_prefix() + r =~= s.subrange(pos, m) + (s.subrange(m, idx) + home_prefix() + r));
            } else {
                let r = redact_home_from(s, stop + 1);
                assert(s.subrange(pos, idx) + tilde_slash() + r =~= s.subrange(pos, m) + (s.subrange(m, idx) + tilde_slash() + r));
            }
        },
    }
}

/// In `u`, a blank, then `v`: the first home prefix at or after `pos` is
/// that of `u`, else that of `v`; none straddles the blank.
proof fn lemma_find_from_before_blank(u: Seq<char>, v: Seq<char>, pos: int)
    requires
        0 <= pos <= u.len() + 1,
    ensures
        find_from(u + seq![' '] + v, home_prefix(), pos, false) == match find_from(u, home_prefix(), pos, false) {
            Some(k) => Some(k),
            None => match find_from(v, home_prefix(), 0, false) {
                Some(k) => Some(k + u.len() + 1),
                None => None::<int>,
            },
        },
    decreases u.len() + 1 - pos,
{
    let pre = u + seq![' '];
    let w = pre + v;
    let h = home_prefix();
    if pos == u.len() + 1 {
        lemma_find_from_suffix(pre, v, h, 0);
    } else {
        if occurs_at(u, h, pos, false) {
            assert forall|j: int| 0 <= j < h.len() implies #[trigger] w[pos + j] == h[j] by {
                assert(w[pos + j] == u[pos + j]);
            }
            assert(occurs_at(w, h, pos, false));
        } else {
            if occurs_at(w, h, pos, false) {
                if pos + 6 <= u.len() {
                    assert forall|j: int| 0 <= j < h.len() implies #[trigger] u[pos + j] == h[j] by {
                        assert(w[pos + j] == u[pos + j]);
                    }
                } else {
                    let j = u.len() - pos;
                    assert(w[pos + j] == ' ');
                    assert(w[pos + j] == h[j]);
                }
            }
            lemma_find_from_before_blank(u, v, pos + 1);
        }
    }
}

/// In `u`, a blank, then `v`: a name run inside `u` ends where it ends in `u`,
/// or at the blank.
proof fn lemma_find_where_before_blank(u: Seq<char>, v: Seq<char>, x: int)
    requires
        0 <= x <= u.len(),
    ensures
        find_where(u + seq![' '] + v, x, class_pred(CharClass::HomeStop)) == match find_where(u, x, class_pred(CharClass::HomeStop)) {
            Some(k) => Some(k),
            None => Some(u.len() as int),
        },
    decreases u.len() - x,
{
    let w = u + seq![' '] + v;
    if x == u.len() {
        assert(w[x] == ' ');
        assert(in_class(' ', CharClass::HomeStop));
    } else {
        assert(w[x] == u[x]);
        if !in_class(u[x], CharClass::HomeStop) {
            lemma_find_where_before_blank(u, v, x + 1);
        }
    }
}

proof fn lemma_redact_home_split(u: Seq<char>, v: Seq<char>, pos: int)
    requires
        0 <= pos <= u.len(),
    ensures
        redact_home_from(u + seq![' '] + v, pos) == redact_home_from(u, pos) + seq![' '] + redact_home_from(v, 0),
    decreases u.len() - pos,
{
    let pre = u + seq![' '];
    let w = pre + v;
    let d = u.len() + 1int;
    lemma_find_from_before_blank(u, v, pos);
    lemma_find_from_bounds(u, home_prefix(), pos, false);
    match find_from(u, home_prefix(), pos, false) {
        None => {
            lemma_find_from_before_blank(u, v, d);
            lemma_find_from_bounds(w, home_prefix(), d, false);
            lemma_redact_home_skip(w, pos, d);
            lemma_redact_home_suffix(pre, v, 0);
            assert(w.subrange(pos, d) =~= u.subrange(pos, u.len() as int) + seq![' ']);
        },
        Some(idx) => {
            let after = idx + 6;
            lemma_find_where_before_blank(u, v, after);
            lemma_find_where_bounds(u, after, class_pred(CharClass::HomeStop));
            let stop = match find_where(u, after, class_pred(CharClass::HomeStop)) {
                Some(k) => k,
                None => u.len() as int,
            };
            assert(w.subrange(pos, idx) =~= u.subrange(pos, idx));
            if stop < u.len() {
                assert(w[stop] == u[stop]);
            } else {
                assert(w[stop] == ' ');
            }
            let rv = redact_home_from(v, 0);
            if stop == after || stop >= u.len() || !(u[stop] == '/' || u[stop] == '\\') {
                lemma_redact_home_split(u, v, after);
                let ru = redact_home_from(u, after);
                assert(u.subrange(pos, idx) + home_prefix() + (ru + seq![' '] + rv) =~= (u.subrange(pos, idx)
                    + home_prefix() + ru) + seq![' '] + rv);
            } else {
                lemma_redact_home_split(u, v, stop + 1);
                let ru = redact_home_from(u, stop + 1);
                assert(u.subrange(pos, idx) + tilde_slash() + (ru + seq![' '] + rv) =~= (u.subrange(pos, idx)
                    + tilde_slash() + ru) + seq![' '] + rv);
            }
        },
    }
}

/// Home redaction treats the two sides of a space apart: redacting
/// `u`, a space, then `v` redacts `u` and `v` each in full, so every home
/// path of either side is handled, not just the first of the text.
pub proof fn law_home_redaction_splits_at_spaces(u: Seq<char>, v: Seq<char>)
    ensures
        redact_home_from(u + seq![' '] + v, 0) == redact_home_from(u, 0) + seq![' '] + redact_home_from(v, 0),
{
    lemma_redact_home_split(u, v, 0);
}

/// A home path's user name is removed: `/home/<name>/` (or with `\`) at the
/// start of a text becomes `~/`, and the rest of the text is redacted in turn.
pub proof fn law_home_path_loses_its_user_name(name: Seq<char>, sep: char, rest: Seq<char>)
    requires
        name.len() > 0,
        forall|j: int| 0 <= j < name.len() ==> #[trigger] name[j] != '/' && name[j] != '\\' && !is_whitespace(name[j]),
        sep == '/' || sep == '\\',
    ensures
        redact_home_from(seq!['/', 'h', 'o', 'm', 'e', '/'] + name + seq![sep] + rest, 0) == seq!['~', '/'] + redact_home_from(rest, 0),
{
    let h = seq!['/', 'h', 'o', 'm', 'e', '/'];
    assert(h =~= home_prefix());
    let pre = h + name + seq![sep];
    let s = pre + rest;
    assert(occurs_at(s, home_prefix(), 0, false)) by {
        assert forall|j: int| 0 <= j < 6 implies #[trigger] s[0 + j] == home_prefix()[j] by {
            assert(s[j] == h[j]);
        }
    }
    let stop = 6 + name.len() as int;
    assert forall|j: int| 6 <= j < stop implies !class_pred(CharClass::HomeStop)(#[trigger] s[j]) by {
        assert(s[j] == name[j - 6]);
    }
    assert(s[stop] == sep);
    lemma_find_where_run(s, 6, stop, class_pred(CharClass::HomeStop));
    lemma_redact_home_suffix(pre, rest, 0);
    assert(s.subrange(0, 0) + tilde_slash() + redact_home_from(s, stop + 1) =~= seq!['~', '/'] + redact_home_from(rest, 0));
}

/// A text with no `/home/` in it is left as it is.
pub proof fn law_text_without_home_is_kept(s: Seq<char>)
    requires
        forall|i: int| !#[trigger] occurs_at(s, home_prefix(), i, false),
    ensures
        redact_home_from(s, 0) == s,
{
    lemma_find_from_bounds(s, home_prefix(), 0, false);
    assert(s.subrange(0, s.len() as int) =~= s);
}

/// Number of `.` characters in `t`.
pub open spec fn dot_count(t: Seq<char>) -> int
    decreases t.len(),
{
    if t.len() == 0 {
        0
    } else {
        dot_count(t.drop_last()) + if t.last() == '.' {
            1int
        } else {
            0int
        }
    }
}

/// `t` splits at `.` into exactly three non-empty segments.
pub open spec fn three_segments(t: Seq<char>) -> bool {
    &&& t.len() > 0
    &&& dot_count(t) == 2
    &&& t[0] != '.'
    &&& t.last() != '.'
    &&& forall|i: int| 0 <= i < t.len() - 1 && t[i] == '.' ==> #[trigger] t[i + 1] != '.'
}

/// End of the run of token characters and dots starting at `i`.
pub open spec fn token_end(s: Seq<char>, i: int) -> int {
    match find_where(s, i, class_pred(CharClass::NonToken)) {
        Some(k) => k,
        None => s.len() as int,
    }
}

/// Replaces JWT-shaped tokens (`eyJ…`, three dot-separated segments, not
/// preceded by a token character or dot) by the marker, from `pos` on.
pub open spec fn redact_jwt_from(s: Seq<char>, pos: int) -> Seq<char>
    decreases s.len() - pos,
{
    if pos < 0 || pos > s.len() {
        Seq::empty()
    } else {
        match find_from(s, jwt_prefix(), pos, false) {
            None => s.subrange(pos, s.len() as int),
            Some(idx) => {
                proof {
                    lemma_find_from_bounds(s, jwt_prefix(), pos, false);
                    lemma_find_where_bounds(s, idx, class_pred(CharClass::NonToken));
                }
                let preceded = idx > pos && is_token_or_dot(s[idx - 1]);
                let end = token_end(s, idx);
                if !preceded && three_segments(s.subrange(idx, end)) && end > idx {
                    s.subrange(pos, idx) + marker() + redact_jwt_from(s, end)
                } else {
                    s.subrange(pos, idx) + jwt_prefix() + redact_jwt_from(s, idx + 3)
                }
            },
        }
    }
}

/// The full redaction: credential options, then home directories, then
/// JWT-shaped tokens.
pub open spec fn redacted(s: Seq<char>) -> Seq<char> {
    redact_jwt_from(redact_home_from(redact_credentials_from(s, 0), 0), 0)
}

// ---------------------------------------------------------------------------
// Redaction: implementation
// ---------------------------------------------------------------------------

fn push_marker(out: &mut Vec<char>)
    ensures
        final(out)@ == old(out)@ + marker(),
{
    let m: Vec<char> = vec!['<', 'r', 'e', 'd', 'a', 'c', 't', 'e', 'd', '>'];
    push_all(out, &m);
}

fn credential_key_vec(k: usize) -> (r: Vec<char>)
    ensures
        r@ == credential_key(k as int),
{
    if k == 0 {
        vec!['-', '-', 'a', 'c', 'c', 'e', 's', 's', 't', 'o', 'k', 'e', 'n']
    } else if k == 1 {
        vec!['-', '-', 'c', 'l', 'i', 'e', 'n', 't', 't', 'o', 'k', 'e', 'n']
    } else {
        vec!['-', '-', 's', 'e', 's', 's', 'i', 'o', 'n']
    }
}

fn blanks_at(s: &Vec<char>, i: usize) -> (r: usize)
    requires
        i <= s.len(),
    ensures
        r as int == blanks_from(s@, i as int),
        i + r <= s.len(),
{
    let mut j = i;
    while j < s.len() && (s[j] == ' ' || s[j] == '\t')
        invariant
            i <= j <= s.len(),
            blanks_from(s@, i as int) == (j - i) + blanks_from(s@, j as int),
        decreases s.len() - j,
    {
        j += 1;
    }
    j - i
}

fn quoted_or_bare_len(s: &Vec<char>, i: usize) -> (r: usize)
    requires
        i <= s.len(),
    ensures
        r as int == value_len(s@, i as int),
        i + r <= s.len(),
{
    if i >= s.len() {
        return 0;
    }
    let first = s[i];
    if first == '"' || first == '\'' {
        proof {
            lemma_find_char_bounds(s@, first, i + 1);
        }
        match find_char(s, first, i + 1) {
            Some(k) => k - i + 1,
            None => s.len() - i,
        }
    } else {
        proof {
            lemma_find_where_bounds(s@, i as int, class_pred(CharClass::Whitespace));
        }
        match find_class(s, i, CharClass::Whitespace) {
            Some(k) => k - i,
            None => s.len() - i,
        }
    }
}

/// Whether `pat` (given in lower case) occurs at `i`, ignoring ASCII case.
fn occurs_ignore_ascii_case(s: &Vec<char>, pat: &Vec<char>, i: usize) -> (r: bool)
    ensures
        r == occurs_at(s@, pat@, i as int, true),
{
    if i > s.len() || pat.len() > s.len() - i {
        return false;
    }
    let mut j: usize = 0;
    while j < pat.len()
        invariant
            j <= pat.len(),
            i + pat.len() <= s.len(),
            forall|t: int| 0 <= t < j ==> ascii_lower(#[trigger] s@[i + t]) == pat@[t],
        decreases pat.len() - j,
    {
        if to_ascii_lower(s[i + j]) != pat[j] {
            return false;
        }
        j += 1;
    }
    true
}

/// Where the value of credential option `k` at `i` starts and how long it
/// is, when the option carries one there.
fn value_at(s: &Vec<char>, i: usize, k: usize) -> (r: Option<(usize, usize)>)
    requires
        i <= s.len(),
        k < 3,
    ensures
        r is Some == carries_value(s@, i as int, k as int),
        r matches Some((vs, vl)) ==> vs == value_start(s@, i as int, k as int) && vl == value_len(s@, vs as int),
{
    let key = credential_key_vec(k);
    if !occurs_ignore_ascii_case(s, &key, i) {
        return None;
    }
    let after = i + key.len();
    let spaces = blanks_at(s, after);
    if spaces == 0 {
        return None;
    }
    let vl = quoted_or_bare_len(s, after + spaces);
    if vl == 0 {
        None
    } else {
        Some((after + spaces, vl))
    }
}

fn credential_step_at(s: &Vec<char>, pos: usize) -> (r: Option<(usize, usize)>)
    requires
        pos <= s.len(),
    ensures
        r matches Some((a, b)) ==> credential_step(s@, pos as int) == Some((a as int, b as int)),
        r is None ==> credential_step(s@, pos as int) is None,
{
    let mut i = pos;
    while i < s.len()
        invariant
            pos <= i <= s.len(),
            first_credential(s@, pos as int) == first_credential(s@, i as int),
        decreases s.len() - i,
    {
        match value_at(s, i, 0) {
            Some(m) => return Some(m),
            None => {},
        }
        match value_at(s, i, 1) {
            Some(m) => return Some(m),
            None => {},
        }
        match value_at(s, i, 2) {
            Some(m) => return Some(m),
            None => {},
        }
        i += 1;
    }
    None
}

fn redact_credential_arguments(s: &Vec<char>) -> (r: Vec<char>)
    ensures
        r@ == redact_credentials_from(s@, 0),
{
    let mut out: Vec<char> = Vec::new();
    let mut pos: usize = 0;
    while pos < s.len()
        invariant
            pos <= s.len(),
            redact_credentials_from(s@, 0) == out@ + redact_credentials_from(s@, pos as int),
        decreases s.len() - pos,
    {
        proof {
            lemma_credential_step_bounds(s@, pos as int);
        }
        let ghost prev = out@;
        match credential_step_at(s, pos) {
            Some((vs, vl)) => {
                push_range(&mut out, s, pos, vs);
                push_marker(&mut out);
                assert(redact_credentials_from(s@, pos as int) == s@.subrange(pos as int, vs as int)
                    + marker() + redact_credentials_from(s@, (vs + vl) as int));
                assert(prev + (s@.subrange(pos as int, vs as int) + marker()
                    + redact_credentials_from(s@, (vs + vl) as int)) =~= out@
                    + redact_credentials_from(s@, (vs + vl) as int));
                pos = vs + vl;
            },
            None => {
                push_range(&mut out, s, pos, s.len());
                assert(redact_credentials_from(s@, s.len() as int) =~= Seq::<char>::empty());
                assert(out@ + redact_credentials_from(s@, s.len() as int) =~= out@);
                pos = s.len();
            },
        }
    }
    assert(redact_credentials_from(s@, pos as int) =~= Seq::<char>::empty());
    assert(out@ + redact_credentials_from(s@, pos as int) =~= out@);
    out
}

fn redact_home_paths(s: &Vec<char>) -> (r: Vec<char>)
    ensures
        r@ == redact_home_from(s@, 0),
{
    let home: Vec<char> = vec!['/', 'h', 'o', 'm', 'e', '/'];
    let mut out: Vec<char> = Vec::new();
    let mut pos: usize = 0;
    let n = s.len();
    while pos < n
        invariant
            pos <= n == s.len(),
            home@ == home_prefix(),
            redact_home_from(s@, 0) == out@ + redact_home_from(s@, pos as int),
        decreases n - pos,
    {
        proof {
            lemma_find_from_bounds(s@, home_prefix(), pos as int, false);
        }
        let ghost prev = out@;
        match find_in(s, &home, pos, false) {
            None => {
                push_range(&mut out, s, pos, n);
                assert(redact_home_from(s@, n as int) =~= Seq::<char>::empty());
                assert(out@ + redact_home_from(s@, n as int) =~= out@);
                pos = n;
            },
            Some(idx) => {
                let after = idx + 6;
                proof {
                    lemma_find_where_bounds(s@, after as int, class_pred(CharClass::HomeStop));
                }
                let stop = match find_class(s, after, CharClass::HomeStop) {
                    Some(k) => k,
                    None => n,
                };
                push_range(&mut out, s, pos, idx);
                if stop == after || stop >= n || !(s[stop] == '/' || s[stop] == '\\') {
                    push_all(&mut out, &home);
                    assert(prev + (s@.subrange(pos as int, idx as int) + home_prefix()
                        + redact_home_from(s@, after as int)) =~= out@ + redact_home_from(
                        s@,
                        after as int,
                    ));
                    pos = after;
                } else {
                    out.push('~');
                    out.push('/');
                    assert(prev + (s@.subrange(pos as int, idx as int) + tilde_slash()
                        + redact_home_from(s@, stop + 1)) =~= out@ + redact_home_from(
                        s@,
                        stop + 1,
                    ));
                    pos = stop + 1;
                }
            },
        }
    }
    assert(redact_home_from(s@, pos as int) =~= Seq::<char>::empty());
    assert(out@ + redact_home_from(s@, pos as int) =~= out@);
    out
}

fn token_or_dot(c: char) -> (r: bool)
    ensures
        r == is_token_or_dot(c),
{
    (c >= 'a' && c <= 'z') || (c >= 'A' && c <= 'Z') || (c >= '0' && c <= '9') || c == '_' || c
        == '-' || c == '.'
}

proof fn lemma_dot_count_step(s: Seq<char>, a: int, i: int)
    requires
        0 <= a <= i < s.len(),
    ensures
        dot_count(s.subrange(a, i + 1)) == dot_count(s.subrange(a, i)) + if s[i] == '.' {
            1int
        } else {
            0int
        },
{
    assert(s.subrange(a, i + 1).drop_last() =~= s.subrange(a, i));
}

fn three_segments_at(s: &Vec<char>, a: usize, b: usize) -> (r: bool)
    requires
        a <= b <= s.len(),
    ensures
        r == three_segments(s@.subrange(a as int, b as int)),
{
    if b == a {
        return false;
    }
    let ghost t = s@.subrange(a as int, b as int);
    let mut dots: usize = 0;
    let mut adjacent = false;
    let mut i = a;
    while i < b
        invariant
            a <= i <= b <= s.len(),
            t == s@.subrange(a as int, b as int),
            dots as int == dot_count(s@.subrange(a as int, i as int)),
            dots <= i - a,
            !adjacent <==> (forall|j: int|
                0 <= j && j + 1 < i - a && t[j] == '.' ==> #[trigger] t[j + 1] != '.'),
        decreases b - i,
    {
        proof {
            lemma_dot_count_step(s@, a as int, i as int);
        }
        if s[i] == '.' {
            if i > a && s[i - 1] == '.' {
                adjacent = true;
                assert(t[(i - 1 - a) as int] == '.' && t[(i - 1 - a) + 1] == '.');
            }
            dots += 1;
        }
        i += 1;
    }
    dots == 2 && s[a] != '.' && s[b - 1] != '.' && !adjacent
}

fn redact_jwt_like(s: &Vec<char>) -> (r: Vec<char>)
    ensures
        r@ == redact_jwt_from(s@, 0),
{
    let prefix: Vec<char> = vec!['e', 'y', 'J'];
    let mut out: Vec<char> = Vec::new();
    let mut pos: usize = 0;
    let n = s.len();
    while pos < n
        invariant
            pos <= n == s.len(),
            prefix@ == jwt_prefix(),
            redact_jwt_from(s@, 0) == out@ + redact_jwt_from(s@, pos as int),
        decreases n - pos,
    {
        proof {
            lemma_find_from_bounds(s@, jwt_prefix(), pos as int, false);
        }
        let ghost prev = out@;
        match find_in(s, &prefix, pos, false) {
            None => {
                push_range(&mut out, s, pos, n);
                assert(redact_jwt_from(s@, n as int) =~= Seq::<char>::empty());
                assert(out@ + redact_jwt_from(s@, n as int) =~= out@);
                pos = n;
            },
            Some(idx) => {
                proof {
                    lemma_find_where_bounds(s@, idx as int, class_pred(CharClass::NonToken));
                }
                let preceded = idx > pos && token_or_dot(s[idx - 1]);
                let end = match find_class(s, idx, CharClass::NonToken) {
                    Some(k) => k,
                    None => n,
                };
                push_range(&mut out, s, pos, idx);
                if !preceded && end > idx && three_segments_at(s, idx, end) {
                    push_marker(&mut out);
                    assert(prev + (s@.subrange(pos as int, idx as int) + marker()
                        + redact_jwt_from(s@, end as int)) =~= out@ + redact_jwt_from(
                        s@,
                        end as int,
                    ));
                    pos = end;
                } else {
                    push_all(&mut out, &prefix);
                    assert(prev + (s@.subrange(pos as int, idx as int) + jwt_prefix()
                        + redact_jwt_from(s@, idx + 3)) =~= out@ + redact_jwt_from(s@, idx + 3));
                    pos = idx + 3;
                }
            },
        }
    }
    assert(redact_jwt_from(s@, pos as int) =~= Seq::<char>::empty());
    assert(out@ + redact_jwt_from(s@, pos as int) =~= out@);
    out
}

/// Removes credentials and identifying home-directory segments from shareable
/// diagnostics: the value of every `--accessToken`, `--clientToken` and
/// `--session` option, in whatever order and ASCII case they stand (see
/// `law_no_credential_survives`), the user name of `/home/<name>/` paths, and
/// JWT-shaped tokens.
pub fn redact(text: &str) -> (r: String)
    ensures
        r@ == redacted(text@),
{
    let chars = chars_of(text);
    let step1 = redact_credential_arguments(&chars);
    let step2 = redact_home_paths(&step1);
    let step3 = redact_jwt_like(&step2);
    string_of(&step3)
}


// ---------------------------------------------------------------------------
// Crash reports
// ---------------------------------------------------------------------------

/// A local, signature-based match. Rules only report patterns that appear verbatim in the captured output.
#[derive(Clone, Debug, PartialEq, Eq)]
pub struct CrashFinding {
    pub rule: String,
    pub title: String,
    pub explanation: String,
    pub evidence_lines: Vec<usize>,
    pub implicated_mod_ids: Vec<String>,
    pub suggested_memory: Option<u32>,
}

/// The abstract value of `CrashFinding`.
pub struct CrashFindingView {
    pub rule: Seq<char>,
    pub title: Seq<char>,
    pub explanation: Seq<char>,
    pub evidence_lines: Seq<usize>,
    pub implicated_mod_ids: Seq<Seq<char>>,
    pub suggested_memory: Option<u32>,
}

impl DeepView for CrashFinding {
    type V = CrashFindingView;

    open spec fn deep_view(&self) -> CrashFindingView {
        CrashFindingView {
            rule: self.rule.deep_view(),
            title: self.title.deep_view(),
            explanation: self.explanation.deep_view(),
            evidence_lines: self.evidence_lines.deep_view(),
            implicated_mod_ids: self.implicated_mod_ids.deep_view(),
            suggested_memory: self.suggested_memory.deep_view(),
        }
    }
}

impl View for CrashFinding {
    type V = CrashFindingView;

    open spec fn view(&self) -> CrashFindingView {
        self.deep_view()
    }
}

impl PlainData for CrashFinding {
    fn same(&self, other: &Self) -> (r: bool) {
        self.rule.same(&other.rule)
            && self.title.same(&other.title)
            && self.explanation.same(&other.explanation)
            && self.evidence_lines.same(&other.evidence_lines)
            && self.implicated_mod_ids.same(&other.implicated_mod_ids)
            && self.suggested_memory.same(&other.suggested_memory)
    }

    fn copied(&self) -> (r: Self) {
        CrashFinding {
            rule: self.rule.copied(),
            title: self.title.copied(),
            explanation: self.explanation.copied(),
            evidence_lines: self.evidence_lines.copied(),
            implicated_mod_ids: self.implicated_mod_ids.copied(),
            suggested_memory: self.suggested_memory.copied(),
        }
    }
}
impl CrashFinding {
    /// Whether the finding offers a one-click retry action.
    pub fn has_action(&self) -> (r: bool)
        ensures
            r == (self@.implicated_mod_ids.len() > 0 || self@.suggested_memory is Some),
    {
        !self.implicated_mod_ids.is_empty() || self.suggested_memory.is_some()
    }
}

/// Where a crash was captured.
#[derive(Clone, Copy, Debug, PartialEq, Eq, Structural)]
pub enum CrashSource {
    Aphanite,
    Local,
}

impl DeepView for CrashSource {
    type V = CrashSource;

    open spec fn deep_view(&self) -> CrashSource {
        *self
    }
}

impl PlainData for CrashSource {
    fn same(&self, other: &Self) -> (r: bool) {
        *self == *other
    }

    fn copied(&self) -> (r: Self) {
        *self
    }
}

/// The environment a crash happened in.
#[derive(Clone, Debug, PartialEq, Eq)]
pub struct CrashEnvironment {
    pub mc_version: String,
    pub loader: Loader,
    pub loader_version: String,
    pub java_name: String,
    pub java_version: u32,
    pub java_path: String,
    pub memory: u32,
    pub os: String,
    pub gpu: String,
    pub enabled_mods: Vec<(String, String)>,
    pub active_overrides: Vec<String>,
    pub source: CrashSource,
    pub aphanite_server: Option<String>,
}

/// The abstract value of `CrashEnvironment`.
pub struct CrashEnvironmentView {
    pub mc_version: Seq<char>,
    pub loader: Loader,
    pub loader_version: Seq<char>,
    pub java_name: Seq<char>,
    pub java_version: u32,
    pub java_path: Seq<char>,
    pub memory: u32,
    pub os: Seq<char>,
    pub gpu: Seq<char>,
    pub enabled_mods: Seq<(Seq<char>, Seq<char>)>,
    pub active_overrides: Seq<Seq<char>>,
    pub source: CrashSource,
    pub aphanite_server: Option<Seq<char>>,
}

impl DeepView for CrashEnvironment {
    type V = CrashEnvironmentView;

    open spec fn deep_view(&self) -> CrashEnvironmentView {
        CrashEnvironmentView {
            mc_version: self.mc_version.deep_view(),
            loader: self.loader.deep_view(),
            loader_version: self.loader_version.deep_view(),
            java_name: self.java_name.deep_view(),
            java_version: self.java_version.deep_view(),
            java_path: self.java_path.deep_view(),
            memory: self.memory.deep_view(),
            os: self.os.deep_view(),
            gpu: self.gpu.deep_view(),
            enabled_mods: self.enabled_mods.deep_view(),
            active_overrides: self.active_overrides.deep_view(),
            source: self.source.deep_view(),
            aphanite_server: self.aphanite_server.deep_view(),
        }
    }
}

impl View for CrashEnvironment {
    type V = CrashEnvironmentView;

    open spec fn view(&self) -> CrashEnvironmentView {
        self.deep_view()
    }
}

impl PlainData for CrashEnvironment {
    fn same(&self, other: &Self) -> (r: bool) {
        self.mc_version.same(&other.mc_version)
            && self.loader.same(&other.loader)
            && self.loader_version.same(&other.loader_version)
            && self.java_name.same(&other.java_name)
            && self.java_version.same(&other.java_version)
            && self.java_path.same(&other.java_path)
            && self.memory.same(&other.memory)
            && self.os.same(&other.os)
            && self.gpu.same(&other.gpu)
            && self.enabled_mods.same(&other.enabled_mods)
            && self.active_overrides.same(&other.active_overrides)
            && self.source.same(&other.source)
            && self.aphanite_server.same(&other.aphanite_server)
    }

    fn copied(&self) -> (r: Self) {
        CrashEnvironment {
            mc_version: self.mc_version.copied(),
            loader: self.loader.copied(),
            loader_version: self.loader_version.copied(),
            java_name: self.java_name.copied(),
            java_version: self.java_version.copied(),
            java_path: self.java_path.copied(),
            memory: self.memory.copied(),
            os: self.os.copied(),
            gpu: self.gpu.copied(),
            enabled_mods: self.enabled_mods.copied(),
            active_overrides: self.active_overrides.copied(),
            source: self.source.copied(),
            aphanite_server: self.aphanite_server.copied(),
        }
    }
}
/// A captured crash of one instance.
#[derive(Clone, Debug, PartialEq, Eq)]
pub struct CrashReport {
    pub storage_id: StorageId,
    pub id: String,
    pub instance_id: String,
    pub when: String,
    pub exit_code: i32,
    /// `None` when Minecraft never wrote a crash report.
    pub lines: Option<Vec<String>>,
    pub stderr_tail: Vec<String>,
    pub hs_err_path: Option<String>,
    pub findings: Vec<CrashFinding>,
    pub environment: CrashEnvironment,
}

/// The abstract value of `CrashReport`.
pub struct CrashReportView {
    pub storage_id: u64,
    pub id: Seq<char>,
    pub instance_id: Seq<char>,
    pub when: Seq<char>,
    pub exit_code: i32,
    pub lines: Option<Seq<Seq<char>>>,
    pub stderr_tail: Seq<Seq<char>>,
    pub hs_err_path: Option<Seq<char>>,
    pub findings: Seq<CrashFindingView>,
    pub environment: CrashEnvironmentView,
}

impl DeepView for CrashReport {
    type V = CrashReportView;

    open spec fn deep_view(&self) -> CrashReportView {
        CrashReportView {
            storage_id: self.storage_id.deep_view(),
            id: self.id.deep_view(),
            instance_id: self.instance_id.deep_view(),
            when: self.when.deep_view(),
            exit_code: self.exit_code.deep_view(),
            lines: self.lines.deep_view(),
            stderr_tail: self.stderr_tail.deep_view(),
            hs_err_path: self.hs_err_path.deep_view(),
            findings: self.findings.deep_view(),
            environment: self.environment.deep_view(),
        }
    }
}

impl View for CrashReport {
    type V = CrashReportView;

    open spec fn view(&self) -> CrashReportView {
        self.deep_view()
    }
}

impl PlainData for CrashReport {
    fn same(&self, other: &Self) -> (r: bool) {
        self.storage_id.same(&other.storage_id)
            && self.id.same(&other.id)
            && self.instance_id.same(&other.instance_id)
            && self.when.same(&other.when)
            && self.exit_code.same(&other.exit_code)
            && self.lines.same(&other.lines)
            && self.stderr_tail.same(&other.stderr_tail)
            && self.hs_err_path.same(&other.hs_err_path)
            && self.findings.same(&other.findings)
            && self.environment.same(&other.environment)
    }

    fn copied(&self) -> (r: Self) {
        CrashReport {
            storage_id: self.storage_id.copied(),
            id: self.id.copied(),
            instance_id: self.instance_id.copied(),
            when: self.when.copied(),
            exit_code: self.exit_code.copied(),
            lines: self.lines.copied(),
            stderr_tail: self.stderr_tail.copied(),
            hs_err_path: self.hs_err_path.copied(),
            findings: self.findings.copied(),
            environment: self.environment.copied(),
        }
    }
}
/// The output panel content: the crash report when present, otherwise the
/// captured stderr tail.
pub open spec fn output_of(r: CrashReportView) -> Seq<Seq<char>> {
    match r.lines {
        Some(lines) => lines,
        None => r.stderr_tail,
    }
}

/// The lines joined with `sep` between consecutive lines.
pub open spec fn joined(lines: Seq<Seq<char>>, sep: Seq<char>) -> Seq<char>
    decreases lines.len(),
{
    if lines.len() == 0 {
        Seq::empty()
    } else if lines.len() == 1 {
        lines[0]
    } else {
        joined(lines.drop_last(), sep) + sep + lines.last()
    }
}

/// Joins the strings with `sep` between consecutive ones.
pub fn join(lines: &[String], sep: &str) -> (r: String)
    ensures
        r@ == joined(lines.deep_view(), sep@),
{
    let mut out: Vec<char> = Vec::new();
    let mut i: usize = 0;
    while i < lines.len()
        invariant
            i <= lines.len(),
            out@ == joined(lines.deep_view().take(i as int), sep@),
        decreases lines.len() - i,
    {
        let ghost prev = out@;
        if i > 0 {
            crate::text::push_str(&mut out, sep);
        }
        crate::text::push_str(&mut out, lines[i].as_str());
        proof {
            let t = lines.deep_view().take(i + 1);
            assert(t.drop_last() =~= lines.deep_view().take(i as int));
            assert(t.last() == lines[i as int]@);
            if i == 0 {
                assert(joined(t, sep@) == t[0]);
                assert(out@ =~= t[0]);
            } else {
                assert(out@ =~= prev + sep@ + lines[i as int]@);
            }
        }
        i += 1;
    }
    assert(lines.deep_view().take(lines.len() as int) =~= lines.deep_view());
    crate::text::string_of(&out)
}

impl CrashReport {
    pub fn reference(&self) -> (r: CrashRef)
        ensures
            r@ == (RefView { storage: self@.storage_id, id: self@.id }),
    {
        CrashRef { storage_id: self.storage_id, report_id: self.id.clone() }
    }

    /// The instance that crashed.
    pub fn instance(&self) -> (r: InstanceRef)
        ensures
            r@ == (RefView { storage: self@.storage_id, id: self@.instance_id }),
    {
        InstanceRef { storage_id: self.storage_id, instance_id: self.instance_id.clone() }
    }

    pub fn has_report(&self) -> (r: bool)
        ensures
            r == (self@.lines is Some),
    {
        self.lines.is_some()
    }

    /// The output panel content: the crash report when present, otherwise the
    /// captured stderr tail.
    pub fn output(&self) -> (r: &[String])
        ensures
            r.deep_view() == output_of(self@),
    {
        match &self.lines {
            Some(lines) => lines.as_slice(),
            None => self.stderr_tail.as_slice(),
        }
    }

    /// The output as one text, one line per output line.
    pub fn source_text(&self) -> (r: String)
        ensures
            r@ == joined(output_of(self@), seq!['\n']),
    {
        let r = join(self.output(), "\n");
        proof {
            reveal_strlit("\n");
            assert("\n"@ =~= seq!['\n']);
        }
        r
    }
}

/// The abstract state of a crash store.
pub struct CrashStoreView {
    pub reports: Seq<CrashReportView>,
    pub current_storage: Option<u64>,
    pub revision: u64,
}

/// Selects the report a reference names.
pub open spec fn report_named(r: RefView) -> spec_fn(CrashReportView) -> bool {
    |c: CrashReportView| c.storage_id == r.storage && c.id == r.id
}

/// Selects the reports of every instance but one.
pub open spec fn report_not_of(instance: RefView) -> spec_fn(CrashReportView) -> bool {
    |c: CrashReportView| !(c.storage_id == instance.storage && c.instance_id == instance.id)
}

/// Crash reports of the registered storage roots, with a revision that advances
/// exactly when they change.
#[derive(Default)]
pub struct CrashStore {
    reports: Vec<CrashReport>,
    current_storage: Option<StorageId>,
    revision: u64,
}

impl View for CrashStore {
    type V = CrashStoreView;

    closed spec fn view(&self) -> CrashStoreView {
        CrashStoreView {
            reports: self.reports.deep_view(),
            current_storage: self.current_storage.deep_view(),
            revision: self.revision,
        }
    }
}

impl CrashStore {
    pub fn new(reports: Vec<CrashReport>) -> (r: Self)
        ensures
            r@ == (CrashStoreView { reports: reports.deep_view(), current_storage: None, revision: 0 }),
    {
        CrashStore { reports, current_storage: None, revision: 0 }
    }

    pub fn all(&self) -> (r: &[CrashReport])
        ensures
            r.deep_view() == self@.reports,
    {
        self.reports.as_slice()
    }

    /// The report `id` of `storage`.
    pub fn get(&self, storage: StorageId, id: &str) -> (r: Option<&CrashReport>)
        ensures
            r matches Some(c) ==> first_index(self@.reports, report_named(RefView { storage: storage@, id: id@ })) matches Some(k)
                && c.deep_view() == self@.reports[k],
            r is None ==> first_index(self@.reports, report_named(RefView { storage: storage@, id: id@ })) is None,
    {
        let ghost t = RefView { storage: storage@, id: id@ };
        proof {
            lemma_first_index(self@.reports, report_named(t));
        }
        match position_where(
            &self.reports,
            |c: &CrashReport| -> (b: bool) ensures b == (c.deep_view().storage_id == t.storage && c.deep_view().id == t.id) { c.storage_id.value() == storage.value() && crate::text::str_eq(c.id.as_str(), id) },
            Ghost(report_named(t)),
        ) {
            Some(k) => Some(&self.reports[k]),
            None => None,
        }
    }

    /// The report a reference names.
    pub fn find(&self, reference: &CrashRef) -> (r: Option<&CrashReport>)
        ensures
            r matches Some(c) ==> first_index(self@.reports, report_named(reference@)) matches Some(k)
                && c.deep_view() == self@.reports[k],
            r is None ==> first_index(self@.reports, report_named(reference@)) is None,
    {
        self.get(reference.storage_id, reference.report_id.as_str())
    }

    pub fn set_storage_context(&mut self, storage: StorageId)
        ensures
            final(self)@ == (CrashStoreView { current_storage: Some(storage@), ..old(self)@ }),
    {
        self.current_storage = Some(storage);
    }

    pub fn storage_context(&self) -> (r: Option<StorageId>)
        ensures
            r.deep_view() == self@.current_storage,
    {
        self.current_storage
    }

    /// Drops the reports of a deleted instance.
    pub fn remove_instance(&mut self, instance: &InstanceRef) -> (r: bool)
        requires
            old(self)@.revision < u64::MAX,
        ensures
            ({
                let kept = old(self)@.reports.filter(report_not_of(instance@));
                if kept.len() == old(self)@.reports.len() {
                    !r && final(self)@ == old(self)@
                } else {
                    r && final(self)@ == (CrashStoreView { reports: kept, revision: (old(self)@.revision + 1) as u64, ..old(self)@ })
                }
            }),
    {
        let ghost t = instance@;
        let before = self.reports.len();
        retain_where(
            &mut self.reports,
            |c: &CrashReport| -> (b: bool) ensures b == !(c.deep_view().storage_id == t.storage && c.deep_view().instance_id == t.id) { !(c.storage_id.value() == instance.storage_id.value() && c.instance_id == instance.instance_id) },
            Ghost(report_not_of(t)),
        );
        if self.reports.len() == before {
            proof {
                lemma_filter_full_means_all(old(self)@.reports, report_not_of(t));
                lemma_filter_keeps_all(old(self)@.reports, report_not_of(t));
            }
            return false;
        }
        self.revision += 1;
        true
    }

    /// Replaces the reports with a storage's listing, unless the storage is not
    /// registered, is not the one the store is scoped to, or the listing equals
    /// what is held.
    pub fn apply_for_storage(&mut self, registered: &[StorageId], storage: StorageId, reports: Vec<CrashReport>) -> (r: bool)
        requires
            old(self)@.revision < u64::MAX,
        ensures
            r == (registered.deep_view().contains(storage@) && old(self)@.current_storage == Some(storage@)
                && old(self)@.reports != reports.deep_view()),
            r ==> final(self)@ == (CrashStoreView { reports: reports.deep_view(), revision: (old(self)@.revision + 1) as u64, ..old(self)@ }),
            !r ==> final(self)@ == old(self)@,
    {
        let mut known = false;
        let mut i: usize = 0;
        while i < registered.len()
            invariant
                i <= registered.len(),
                known == exists|j: int| 0 <= j < i && registered.deep_view()[j] == storage@,
            decreases registered.len() - i,
        {
            assert(registered.deep_view()[i as int] == registered@[i as int]@);
            if registered[i].value() == storage.value() {
                known = true;
            }
            i += 1;
        }
        proof {
            if registered.deep_view().contains(storage@) {
                let j = choose|j: int| 0 <= j < registered.deep_view().len() && registered.deep_view()[j] == storage@;
                assert(registered.deep_view()[j] == storage@);
            }
        }
        let scoped = match self.current_storage {
            Some(s) => s.value() == storage.value(),
            None => false,
        };
        if !known || !scoped || self.reports.same(&reports) {
            return false;
        }
        self.reports = reports;
        self.revision += 1;
        true
    }

    pub fn revision(&self) -> (r: u64)
        ensures
            r == self@.revision,
    {
        self.revision
    }
}

/// The Aphanite server summary shown on the Aphanite page.
#[derive(Clone, Debug, PartialEq, Eq)]
pub struct AphaniteSummary {
    pub storage_id: StorageId,
    pub server_name: String,
    pub server_url: String,
}

/// The abstract value of `AphaniteSummary`.
pub struct AphaniteSummaryView {
    pub storage_id: u64,
    pub server_name: Seq<char>,
    pub server_url: Seq<char>,
}

impl DeepView for AphaniteSummary {
    type V = AphaniteSummaryView;

    open spec fn deep_view(&self) -> AphaniteSummaryView {
        AphaniteSummaryView {
            storage_id: self.storage_id.deep_view(),
            server_name: self.server_name.deep_view(),
            server_url: self.server_url.deep_view(),
        }
    }
}

impl View for AphaniteSummary {
    type V = AphaniteSummaryView;

    open spec fn view(&self) -> AphaniteSummaryView {
        self.deep_view()
    }
}

impl PlainData for AphaniteSummary {
    fn same(&self, other: &Self) -> (r: bool) {
        self.storage_id.same(&other.storage_id)
            && self.server_name.same(&other.server_name)
            && self.server_url.same(&other.server_url)
    }

    fn copied(&self) -> (r: Self) {
        AphaniteSummary {
            storage_id: self.storage_id.copied(),
            server_name: self.server_name.copied(),
            server_url: self.server_url.copied(),
        }
    }
}

} // verus!
