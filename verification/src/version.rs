//! Release tags and dotted version numbers.
use vstd::prelude::*;

use crate::text::{
    chars_of, digit, is_digit, lemma_trimmed_ends, lemma_trimmed_when_ends_clean, trim_bounds,
    trimmed,
};

verus! {

// ---------------------------------------------------------------------------
// Versions inside release tags
// ---------------------------------------------------------------------------

/// Index of the first ASCII digit of `t` at or after `i`, or `t.len()`.
pub open spec fn digit_start(t: Seq<char>, i: int) -> int
    decreases t.len() - i,
{
    if i < 0 || i >= t.len() {
        t.len() as int
    } else if is_digit(t[i]) {
        i
    } else {
        digit_start(t, i + 1)
    }
}

/// Index of the first character at or after `i` that is neither an ASCII
/// digit nor a dot, or `t.len()`.
pub open spec fn numeric_run_end(t: Seq<char>, i: int) -> int
    decreases t.len() - i,
{
    if i < 0 || i >= t.len() {
        t.len() as int
    } else if is_digit(t[i]) || t[i] == '.' {
        numeric_run_end(t, i + 1)
    } else {
        i
    }
}

/// The version carried by a release tag: the tag is trimmed; if it holds no
/// ASCII digit it is its own version; otherwise the version is the run of
/// digits and dots that starts at its first digit.
pub open spec fn tag_version(tag: Seq<char>) -> Seq<char> {
    let t = trimmed(tag);
    let start = digit_start(t, 0);
    if start >= t.len() {
        t
    } else {
        t.subrange(start, numeric_run_end(t, start))
    }
}

proof fn lemma_digit_start_bounds(t: Seq<char>, i: int)
    requires
        0 <= i <= t.len(),
    ensures
        i <= digit_start(t, i) <= t.len(),
        digit_start(t, i) < t.len() ==> is_digit(t[digit_start(t, i)]),
        forall|j: int| i <= j < digit_start(t, i) ==> !is_digit(#[trigger] t[j]),
    decreases t.len() - i,
{
    if i < t.len() && !is_digit(t[i]) {
        lemma_digit_start_bounds(t, i + 1);
    }
}

proof fn lemma_numeric_run_bounds(t: Seq<char>, i: int)
    requires
        0 <= i <= t.len(),
    ensures
        i <= numeric_run_end(t, i) <= t.len(),
        forall|j: int|
            i <= j < numeric_run_end(t, i) ==> is_digit(#[trigger] t[j]) || t[j] == '.',
    decreases t.len() - i,
{
    if i < t.len() && (is_digit(t[i]) || t[i] == '.') {
        lemma_numeric_run_bounds(t, i + 1);
    }
}

/// Extracts the version number from a release tag such as
/// `desktop-auto-v1.4.0` (giving `1.4.0`). A tag without any digit is
/// returned trimmed.
pub fn parse_version_from_tag(tag: &str) -> (r: String)
    ensures
        r@ == tag_version(tag@),
{
    let chars = chars_of(tag);
    let (a, b) = trim_bounds(&chars);
    let ghost t = chars@.subrange(a as int, b as int);
    let mut start = a;
    while start < b && !digit(chars[start])
        invariant
            chars@ == tag@,
            a <= start <= b <= chars.len(),
            t == chars@.subrange(a as int, b as int),
            digit_start(t, 0) == digit_start(t, start - a),
        decreases b - start,
    {
        assert(t[start - a] == chars@[start as int]);
        start = start + 1;
    }
    if start == b {
        return tag.substring_char(a, b).to_owned();
    }
    assert(t[start - a] == chars@[start as int]);
    let mut end = start;
    while end < b && (digit(chars[end]) || chars[end] == '.')
        invariant
            chars@ == tag@,
            a <= start <= end <= b <= chars.len(),
            t == chars@.subrange(a as int, b as int),
            numeric_run_end(t, start - a) == numeric_run_end(t, end - a),
        decreases b - end,
    {
        assert(t[end - a] == chars@[end as int]);
        end = end + 1;
    }
    assert(t.subrange(start - a, end - a) =~= chars@.subrange(start as int, end as int));
    tag.substring_char(start, end).to_owned()
}

// ---------------------------------------------------------------------------
// Dotted version numbers
// ---------------------------------------------------------------------------

/// `s` split at every `.` (`str::split('.')`): there is always at least one
/// part, and `k` dots give `k + 1` parts.
pub open spec fn split_on_dots(s: Seq<char>) -> Seq<Seq<char>>
    decreases s.len(),
{
    if s.len() == 0 {
        seq![Seq::<char>::empty()]
    } else {
        let init = split_on_dots(s.drop_last());
        if s.last() == '.' {
            init.push(Seq::<char>::empty())
        } else {
            init.update(init.len() - 1, init.last().push(s.last()))
        }
    }
}

/// The value of an ASCII digit.
pub open spec fn digit_value(c: char) -> nat {
    (c as u32 - '0' as u32) as nat
}

/// The value of a string of decimal digits.
pub open spec fn decimal_value(d: Seq<char>) -> nat
    decreases d.len(),
{
    if d.len() == 0 {
        0
    } else {
        10 * decimal_value(d.drop_last()) + digit_value(d.last())
    }
}

pub open spec fn all_digits(d: Seq<char>) -> bool {
    forall|i: int| 0 <= i < d.len() ==> is_digit(#[trigger] d[i])
}

/// A non-empty string of ASCII digits whose value fits in a `u64`.
pub open spec fn parse_digits(d: Seq<char>) -> Option<u64> {
    if d.len() > 0 && all_digits(d) && decimal_value(d) <= u64::MAX {
        Some(decimal_value(d) as u64)
    } else {
        None
    }
}

/// What `str::parse::<u64>` gives: an optional `+` followed by one or more
/// ASCII digits whose value fits in a `u64`; anything else is an error.
pub open spec fn parse_u64(p: Seq<char>) -> Option<u64> {
    if p.len() > 0 && p[0] == '+' {
        parse_digits(p.drop_first())
    } else {
        parse_digits(p)
    }
}

/// A version component: its number, or 0 where the part does not parse.
pub open spec fn component_value(p: Seq<char>) -> u64 {
    match parse_u64(p) {
        Some(v) => v,
        None => 0,
    }
}

/// The numeric components of a dotted version string.
pub open spec fn version_components(s: Seq<char>) -> Seq<u64> {
    split_on_dots(s).map_values(|p: Seq<char>| component_value(p))
}

/// Component `i` of a version, where missing components count as 0.
pub open spec fn component_at(v: Seq<u64>, i: int) -> u64 {
    if 0 <= i < v.len() {
        v[i]
    } else {
        0
    }
}

pub open spec fn max_len(l: Seq<u64>, r: Seq<u64>) -> int {
    if l.len() >= r.len() {
        l.len() as int
    } else {
        r.len() as int
    }
}

/// `r` is greater than `l` in the lexicographic order of components, the
/// shorter one padded with zeros.
pub open spec fn components_newer(l: Seq<u64>, r: Seq<u64>) -> bool {
    exists|i: int|
        0 <= i < max_len(l, r) && #[trigger] component_at(r, i) > component_at(l, i) && (forall|
            j: int,
        |
            0 <= j < i ==> #[trigger] component_at(r, j) == component_at(l, j))
}

/// The two versions have equal components, zero padding aside.
pub open spec fn components_equal(l: Seq<u64>, r: Seq<u64>) -> bool {
    forall|i: int| #[trigger] component_at(l, i) == component_at(r, i)
}

/// `remote` names a newer version than `local`.
pub open spec fn newer_version(local: Seq<char>, remote: Seq<char>) -> bool {
    components_newer(version_components(local), version_components(remote))
}

/// `a` and `b` name the same version (such as `1.3` and `1.3.0`).
pub open spec fn same_version(a: Seq<char>, b: Seq<char>) -> bool {
    components_equal(version_components(a), version_components(b))
}

proof fn lemma_decimal_prefix_le(d: Seq<char>, k: int)
    requires
        0 <= k <= d.len(),
    ensures
        decimal_value(d.take(k)) <= decimal_value(d),
    decreases d.len(),
{
    if k < d.len() {
        assert(d.drop_last().take(k) =~= d.take(k));
        lemma_decimal_prefix_le(d.drop_last(), k);
    } else {
        assert(d.take(k) =~= d);
    }
}

proof fn lemma_decimal_step(d: Seq<char>, k: int)
    requires
        0 <= k < d.len(),
    ensures
        decimal_value(d.take(k + 1)) == 10 * decimal_value(d.take(k)) + digit_value(d[k]),
        all_digits(d.take(k + 1)) == (all_digits(d.take(k)) && is_digit(d[k])),
{
    assert(d.take(k + 1).drop_last() =~= d.take(k));
    if all_digits(d.take(k)) && is_digit(d[k]) {
        assert forall|i: int| 0 <= i < k + 1 implies is_digit(#[trigger] d.take(k + 1)[i]) by {
            if i < k {
                assert(d.take(k + 1)[i] == d.take(k)[i]);
            }
        }
    }
    if all_digits(d.take(k + 1)) {
        assert(d.take(k + 1)[k] == d[k]);
        assert forall|i: int| 0 <= i < k implies is_digit(#[trigger] d.take(k)[i]) by {
            assert(d.take(k + 1)[i] == d.take(k)[i]);
        }
    }
}

proof fn lemma_too_large(d: Seq<char>, k: int)
    requires
        0 <= k <= d.len(),
        decimal_value(d.take(k)) > u64::MAX,
    ensures
        parse_digits(d) is None,
{
    if all_digits(d) {
        lemma_decimal_prefix_le(d, k);
    }
}

/// `parse_digits` on the characters `v[i..hi]`.
fn parse_digits_at(v: &Vec<char>, i: usize, hi: usize) -> (r: Option<u64>)
    requires
        i <= hi <= v.len(),
    ensures
        r == parse_digits(v@.subrange(i as int, hi as int)),
{
    if i == hi {
        return None;
    }
    let ghost d = v@.subrange(i as int, hi as int);
    let mut acc: u64 = 0;
    let mut j = i;
    assert(d.take(0) =~= Seq::<char>::empty());
    while j < hi
        invariant
            i <= j <= hi <= v.len(),
            d == v@.subrange(i as int, hi as int),
            acc as nat == decimal_value(d.take(j - i)),
            all_digits(d.take(j - i)),
        decreases hi - j,
    {
        let c = v[j];
        assert(d[j - i] == c);
        proof {
            lemma_decimal_step(d, j - i);
        }
        if !digit(c) {
            return None;
        }
        let dv = (c as u32 - '0' as u32) as u64;
        match acc.checked_mul(10) {
            None => {
                proof {
                    lemma_too_large(d, j + 1 - i);
                }
                return None;
            },
            Some(m) => match m.checked_add(dv) {
                None => {
                    proof {
                        lemma_too_large(d, j + 1 - i);
                    }
                    return None;
                },
                Some(n) => {
                    acc = n;
                },
            },
        }
        j = j + 1;
    }
    assert(d.take(j - i) =~= d);
    Some(acc)
}

/// `str::parse::<u64>` on the characters `v[lo..hi]`.
fn parse_u64_at(v: &Vec<char>, lo: usize, hi: usize) -> (r: Option<u64>)
    requires
        lo <= hi <= v.len(),
    ensures
        r == parse_u64(v@.subrange(lo as int, hi as int)),
{
    let ghost p = v@.subrange(lo as int, hi as int);
    if lo < hi && v[lo] == '+' {
        assert(p.drop_first() =~= v@.subrange(lo + 1, hi as int));
        parse_digits_at(v, lo + 1, hi)
    } else {
        parse_digits_at(v, lo, hi)
    }
}

/// The numeric components of a dotted version string: each `.`-separated
/// part parsed as a `u64`, or 0 where it does not parse.
pub fn version_parts(s: &str) -> (r: Vec<u64>)
    ensures
        r@ == version_components(s@),
{
    let v = chars_of(s);
    let n = v.len();
    let mut comps: Vec<u64> = Vec::new();
    let mut k: usize = 0;
    let mut i: usize = 0;
    let ghost mut done: Seq<Seq<char>> = Seq::empty();
    assert(v@.take(0) =~= Seq::<char>::empty());
    assert(v@.subrange(0, 0) =~= Seq::<char>::empty());
    assert(done.push(Seq::<char>::empty()) =~= seq![Seq::<char>::empty()]);
    while i < n
        invariant
            n == v.len(),
            v@ == s@,
            k <= i <= n,
            split_on_dots(v@.take(i as int)) == done.push(v@.subrange(k as int, i as int)),
            comps@ == done.map_values(|p: Seq<char>| component_value(p)),
        decreases n - i,
    {
        let ghost prefix = v@.take(i + 1);
        assert(prefix.drop_last() =~= v@.take(i as int));
        assert(prefix.last() == v@[i as int]);
        if v[i] == '.' {
            let c = match parse_u64_at(&v, k, i) {
                Some(x) => x,
                None => 0,
            };
            comps.push(c);
            proof {
                let part = v@.subrange(k as int, i as int);
                assert(done.push(part).map_values(|p: Seq<char>| component_value(p))
                    =~= done.map_values(|p: Seq<char>| component_value(p)).push(
                    component_value(part),
                ));
                done = done.push(part);
                assert(v@.subrange(i + 1, i + 1) =~= Seq::<char>::empty());
            }
            k = i + 1;
        } else {
            proof {
                let init = done.push(v@.subrange(k as int, i as int));
                assert(v@.subrange(k as int, i as int).push(v@[i as int]) =~= v@.subrange(
                    k as int,
                    i + 1,
                ));
                assert(init.update(init.len() - 1, init.last().push(v@[i as int])) =~= done.push(
                    v@.subrange(k as int, i + 1),
                ));
            }
        }
        i = i + 1;
    }
    let c = match parse_u64_at(&v, k, n) {
        Some(x) => x,
        None => 0,
    };
    comps.push(c);
    proof {
        assert(v@.take(n as int) =~= v@);
        let part = v@.subrange(k as int, n as int);
        assert(done.push(part).map_values(|p: Seq<char>| component_value(p)) =~= done.map_values(
            |p: Seq<char>| component_value(p),
        ).push(component_value(part)));
    }
    comps
}

/// Whether `remote` names a newer version than `local`. Versions are
/// compared component by component; a missing component counts as 0 and a
/// component that is not a number counts as 0.
pub fn is_newer_version(local: &str, remote: &str) -> (r: bool)
    ensures
        r == newer_version(local@, remote@),
{
    let local_parts = version_parts(local);
    let remote_parts = version_parts(remote);
    let ghost l = local_parts@;
    let ghost rp = remote_parts@;
    let len = if local_parts.len() >= remote_parts.len() {
        local_parts.len()
    } else {
        remote_parts.len()
    };
    let mut index: usize = 0;
    while index < len
        invariant
            l == local_parts@,
            rp == remote_parts@,
            l == version_components(local@),
            rp == version_components(remote@),
            len == max_len(l, rp),
            index <= len,
            forall|j: int| 0 <= j < index ==> #[trigger] component_at(rp, j) == component_at(l, j),
        decreases len - index,
    {
        let left = if index < local_parts.len() {
            local_parts[index]
        } else {
            0
        };
        let right = if index < remote_parts.len() {
            remote_parts[index]
        } else {
            0
        };
        assert(left == component_at(l, index as int));
        assert(right == component_at(rp, index as int));
        if right > left {
            assert(components_newer(l, rp));
            return true;
        }
        if right < left {
            assert forall|i: int|
                0 <= i < max_len(l, rp) && component_at(rp, i) > component_at(l, i) implies exists|
                j: int,
            | 0 <= j < i && #[trigger] component_at(rp, j) != component_at(l, j) by {
                assert(component_at(rp, index as int) != component_at(l, index as int));
            }
            assert(!components_newer(l, rp));
            return false;
        }
        index = index + 1;
    }
    assert(!components_newer(l, rp));
    false
}

// ---------------------------------------------------------------------------
// Laws
// ---------------------------------------------------------------------------

/// No version is newer than itself.
pub proof fn lemma_newer_irreflexive(a: Seq<char>)
    ensures
        !newer_version(a, a),
{
}

/// If `b` is newer than `a`, then `a` is not newer than `b`.
pub proof fn lemma_newer_asymmetric(a: Seq<char>, b: Seq<char>)
    requires
        newer_version(a, b),
    ensures
        !newer_version(b, a),
{
    let l = version_components(a);
    let r = version_components(b);
    let i = choose|i: int|
        0 <= i < max_len(l, r) && #[trigger] component_at(r, i) > component_at(l, i) && (forall|
            j: int,
        | 0 <= j < i ==> #[trigger] component_at(r, j) == component_at(l, j));
    if newer_version(b, a) {
        let k = choose|k: int|
            0 <= k < max_len(r, l) && #[trigger] component_at(l, k) > component_at(r, k) && (
            forall|j: int| 0 <= j < k ==> #[trigger] component_at(l, j) == component_at(r, j));
        if k < i {
            assert(component_at(r, k) == component_at(l, k));
        } else if i < k {
            assert(component_at(l, i) == component_at(r, i));
        }
    }
}

/// Newer-than is transitive.
pub proof fn lemma_newer_transitive(a: Seq<char>, b: Seq<char>, c: Seq<char>)
    requires
        newer_version(a, b),
        newer_version(b, c),
    ensures
        newer_version(a, c),
{
    let va = version_components(a);
    let vb = version_components(b);
    let vc = version_components(c);
    let i = choose|i: int|
        0 <= i < max_len(va, vb) && #[trigger] component_at(vb, i) > component_at(va, i) && (
        forall|j: int| 0 <= j < i ==> #[trigger] component_at(vb, j) == component_at(va, j));
    let k = choose|k: int|
        0 <= k < max_len(vb, vc) && #[trigger] component_at(vc, k) > component_at(vb, k) && (
        forall|j: int| 0 <= j < k ==> #[trigger] component_at(vc, j) == component_at(vb, j));
    let m = if i <= k {
        i
    } else {
        k
    };
    assert(component_at(vc, m) > component_at(va, m));
    assert(m < vc.len());
    assert forall|j: int| 0 <= j < m implies #[trigger] component_at(vc, j) == component_at(
        va,
        j,
    ) by {
        assert(component_at(vb, j) == component_at(va, j));
        assert(component_at(vc, j) == component_at(vb, j));
    }
}

/// Versions are ordered numerically by their first differing component:
/// where `r` agrees with `l` on every component before `i` and its component
/// `i` is the larger number, `r` is newer.
pub proof fn lemma_larger_component_is_newer(l: Seq<u64>, r: Seq<u64>, i: int)
    requires
        0 <= i,
        forall|j: int| 0 <= j < i ==> component_at(r, j) == component_at(l, j),
        component_at(r, i) > component_at(l, i),
    ensures
        components_newer(l, r),
        !components_newer(r, l),
{
    assert(i < r.len());
    assert(0 <= i < max_len(l, r));
    assert(forall|j: int| 0 <= j < i ==> #[trigger] component_at(r, j) == component_at(l, j));
    assert(component_at(r, i) > component_at(l, i));
    if components_newer(r, l) {
        let k = choose|k: int|
            0 <= k < max_len(r, l) && #[trigger] component_at(l, k) > component_at(r, k) && (
            forall|j: int| 0 <= j < k ==> #[trigger] component_at(l, j) == component_at(r, j));
        if k < i {
            assert(component_at(r, k) == component_at(l, k));
        } else if i < k {
            assert(component_at(l, i) == component_at(r, i));
        }
    }
}

/// The same law on version strings: where the remote version agrees with
/// the local one on the components before `i` and has the larger number at
/// `i`, it is newer, and the local one is not newer than it.
pub proof fn lemma_larger_component_version_is_newer(local: Seq<char>, remote: Seq<char>, i: int)
    requires
        0 <= i,
        forall|j: int|
            0 <= j < i ==> component_at(version_components(remote), j) == component_at(
                version_components(local),
                j,
            ),
        component_at(version_components(remote), i) > component_at(version_components(local), i),
    ensures
        newer_version(local, remote),
        !newer_version(remote, local),
{
    lemma_larger_component_is_newer(version_components(local), version_components(remote), i);
}

/// Any two versions are either the same version, or exactly one of them is
/// newer than the other.
pub proof fn lemma_newer_trichotomy(a: Seq<char>, b: Seq<char>)
    ensures
        same_version(a, b) || newer_version(a, b) || newer_version(b, a),
        same_version(a, b) ==> !newer_version(a, b) && !newer_version(b, a),
{
    let l = version_components(a);
    let r = version_components(b);
    if !same_version(a, b) {
        let w = choose|w: int| component_at(l, w) != component_at(r, w);
        assert(0 <= w < max_len(l, r));
        lemma_first_difference(l, r, w);
    }
}

/// Where two component sequences differ at `w`, they differ first at some
/// index no greater than `w`; whichever is larger there is the newer one.
proof fn lemma_first_difference(l: Seq<u64>, r: Seq<u64>, w: int)
    requires
        0 <= w < max_len(l, r),
        component_at(l, w) != component_at(r, w),
    ensures
        components_newer(l, r) || components_newer(r, l),
    decreases w,
{
    if exists|j: int| 0 <= j < w && component_at(l, j) != component_at(r, j) {
        let j = choose|j: int| 0 <= j < w && component_at(l, j) != component_at(r, j);
        lemma_first_difference(l, r, j);
    } else {
        if component_at(r, w) > component_at(l, w) {
            assert(components_newer(l, r));
        } else {
            assert(component_at(l, w) > component_at(r, w));
            assert(forall|j: int|
                0 <= j < w ==> #[trigger] component_at(l, j) == component_at(r, j));
            assert(components_newer(r, l));
        }
    }
}

/// A missing component counts as 0: appending `.0` to a version names the
/// same version.
pub proof fn lemma_trailing_zero_component(s: Seq<char>)
    ensures
        same_version(s, s + ".0"@),
        version_components(s + ".0"@) == version_components(s).push(0),
{
    reveal_strlit(".0");
    let with_dot = s.push('.');
    let t = s + ".0"@;
    assert(t =~= with_dot.push('0'));
    assert(t.drop_last() =~= with_dot);
    assert(with_dot.drop_last() =~= s);
    let zero = seq!['0'];
    assert(Seq::<char>::empty().push('0') =~= zero);
    assert(with_dot.last() == '.');
    assert(split_on_dots(with_dot) == split_on_dots(s).push(Seq::<char>::empty()));
    assert(t.last() == '0');
    let init = split_on_dots(with_dot);
    assert(split_on_dots(t) == init.update(init.len() - 1, init.last().push('0')));
    assert(split_on_dots(t) =~= split_on_dots(s).push(zero));
    assert(decimal_value(zero.drop_last()) == 0);
    assert(all_digits(zero));
    assert(component_value(zero) == 0);
    assert(version_components(t) =~= version_components(s).push(0));
    let l = version_components(s);
    assert forall|i: int| #[trigger] component_at(l, i) == component_at(l.push(0), i) by {}
}

/// Reading the version out of a tag twice gives what reading it once does.
pub proof fn lemma_tag_version_idempotent(tag: Seq<char>)
    ensures
        tag_version(tag_version(tag)) == tag_version(tag),
{
    let t = trimmed(tag);
    let start = digit_start(t, 0);
    lemma_digit_start_bounds(t, 0);
    lemma_trimmed_ends(tag);
    if start >= t.len() {
        lemma_trimmed_when_ends_clean(t);
    } else {
        lemma_numeric_run_bounds(t, start + 1);
        assert(numeric_run_end(t, start) == numeric_run_end(t, start + 1));
        let v = t.subrange(start, numeric_run_end(t, start));
        lemma_numeric_run_bounds(t, start);
        assert(v.len() > 0);
        assert(v[0] == t[start]);
        lemma_trimmed_when_ends_clean(v);
        assert(digit_start(v, 0) == 0);
        lemma_numeric_run_bounds(v, 0);
        lemma_run_to_end(v, 0);
        assert(v.subrange(0, v.len() as int) =~= v);
    }
}

/// A version read from a tag that holds a digit starts with a digit and
/// consists of digits and dots only.
pub proof fn lemma_tag_version_numeric(tag: Seq<char>)
    requires
        exists|i: int| 0 <= i < trimmed(tag).len() && is_digit(#[trigger] trimmed(tag)[i]),
    ensures
        tag_version(tag).len() > 0,
        is_digit(tag_version(tag)[0]),
        forall|i: int|
            0 <= i < tag_version(tag).len() ==> is_digit(#[trigger] tag_version(tag)[i])
                || tag_version(tag)[i] == '.',
{
    let t = trimmed(tag);
    lemma_digit_start_bounds(t, 0);
    let w = choose|i: int| 0 <= i < t.len() && is_digit(#[trigger] t[i]);
    assert(digit_start(t, 0) <= w);
    let start = digit_start(t, 0);
    lemma_numeric_run_bounds(t, start + 1);
    assert(numeric_run_end(t, start) == numeric_run_end(t, start + 1));
    lemma_numeric_run_bounds(t, start);
    let v = t.subrange(start, numeric_run_end(t, start));
    assert(v[0] == t[start]);
    assert forall|i: int| 0 <= i < v.len() implies is_digit(#[trigger] v[i]) || v[i] == '.' by {
        assert(v[i] == t[start + i]);
    }
}

proof fn lemma_run_to_end(v: Seq<char>, i: int)
    requires
        0 <= i <= v.len(),
        forall|j: int| i <= j < v.len() ==> is_digit(#[trigger] v[j]) || v[j] == '.',
    ensures
        numeric_run_end(v, i) == v.len(),
    decreases v.len() - i,
{
    if i < v.len() {
        lemma_run_to_end(v, i + 1);
    }
}

/// Appending a digit to a number's digits multiplies its value by ten and
/// adds the digit.
pub proof fn lemma_decimal_append_digit(d: Seq<char>, c: char)
    ensures
        decimal_value(d.push(c)) == 10 * decimal_value(d) + digit_value(c),
{
    assert(d.push(c).drop_last() =~= d);
}

/// Leading zeros do not change a number's value.
pub proof fn lemma_decimal_leading_zero(d: Seq<char>)
    ensures
        decimal_value(seq!['0'] + d) == decimal_value(d),
    decreases d.len(),
{
    if d.len() == 0 {
        assert(seq!['0'] + d =~= seq!['0']);
        assert(seq!['0'].drop_last() =~= Seq::<char>::empty());
        assert(seq!['0'].last() == '0');
        assert(digit_value('0') == 0);
        assert(decimal_value(seq!['0']) == 10 * decimal_value(Seq::<char>::empty()) + digit_value(
            '0',
        ));
    } else {
        let z = seq!['0'] + d;
        assert(z.drop_last() =~= seq!['0'] + d.drop_last());
        assert(z.last() == d.last());
        lemma_decimal_leading_zero(d.drop_last());
        assert(decimal_value(z) == 10 * decimal_value(z.drop_last()) + digit_value(z.last()));
    }
}

/// A leading `+` is accepted once and does not change the number.
pub proof fn lemma_parse_plus_sign(p: Seq<char>)
    requires
        p.len() > 0,
        p[0] != '+',
    ensures
        parse_u64(seq!['+'] + p) == parse_u64(p),
{
    assert((seq!['+'] + p).drop_first() =~= p);
}

/// The version of a tag holding a digit is its first run of digits and dots:
/// it starts at the trimmed tag's first digit, no digit comes before it, it
/// holds only digits and dots, and it stops at the end or at a character
/// that is neither.
pub proof fn lemma_tag_version_is_first_numeric_run(tag: Seq<char>)
    requires
        exists|i: int| 0 <= i < trimmed(tag).len() && is_digit(#[trigger] trimmed(tag)[i]),
    ensures
        exists|start: int, end: int|
            0 <= start < end <= trimmed(tag).len() && tag_version(tag) == trimmed(tag).subrange(
                start,
                end,
            ) && is_digit(trimmed(tag)[start]) && (forall|j: int|
                0 <= j < start ==> !is_digit(#[trigger] trimmed(tag)[j])) && (forall|j: int|
                start <= j < end ==> is_digit(#[trigger] trimmed(tag)[j]) || trimmed(tag)[j]
                    == '.') && (end == trimmed(tag).len() || !(is_digit(trimmed(tag)[end])
                || trimmed(tag)[end] == '.')),
{
    let t = trimmed(tag);
    lemma_digit_start_bounds(t, 0);
    let w = choose|i: int| 0 <= i < t.len() && is_digit(#[trigger] t[i]);
    assert(digit_start(t, 0) <= w);
    let start = digit_start(t, 0);
    lemma_numeric_run_bounds(t, start + 1);
    assert(numeric_run_end(t, start) == numeric_run_end(t, start + 1));
    lemma_numeric_run_bounds(t, start);
    lemma_numeric_run_stops(t, start);
    let end = numeric_run_end(t, start);
    assert(tag_version(tag) == t.subrange(start, end));
}

proof fn lemma_numeric_run_stops(t: Seq<char>, i: int)
    requires
        0 <= i <= t.len(),
    ensures
        numeric_run_end(t, i) == t.len() || !(is_digit(t[numeric_run_end(t, i)]) || t[numeric_run_end(
            t,
            i,
        )] == '.'),
    decreases t.len() - i,
{
    if i < t.len() && (is_digit(t[i]) || t[i] == '.') {
        lemma_numeric_run_stops(t, i + 1);
    }
}

} // verus!
