//! Release-version arithmetic of the self-updater: parsing four-part version
//! tags, comparing versions, normalising release tags, choosing the latest
//! release and deciding when to notify about it.
use vstd::prelude::*;
use crate::control::config::{config_dir, config_dir_spec, join_path, path_join};
use crate::text::{chars_of, decimal, digits_value, digit_char, digit_value, is_digit, lemma_digits_value_decimal, owned, push_char, push_decimal, push_str};

verus! {

/// Seconds for which a version check stays fresh, and between two notices.
pub const CACHE_TTL: i64 = 86400;

pub const GITCODE_API: &'static str = "https://gitcode.com/api/v5/repos/CloudDeveloperDepartment/devbrige/releases";

pub const GITCODE_INSTALL_SH: &'static str = "https://gitcode.com/CloudDeveloperDepartment/devbrige/releases/download/latest/install.sh";

pub const GITCODE_INSTALL_PS: &'static str = "https://gitcode.com/CloudDeveloperDepartment/devbrige/releases/download/latest/install.ps1";

/// A four-component version, compared component by component.
pub type Version = (u64, u64, u64, u64);

/// The outcome of a release check, as kept in the version cache.
#[derive(Debug, Clone)]
pub struct CheckResult {
    pub latest_version: String,
    pub latest_tag: String,
    pub checked_at: i64,
    pub last_notify_at: i64,
}

// ---------------------------------------------------------------------
// Specification of version parsing
// ---------------------------------------------------------------------

/// The tag without one leading `v`.
pub open spec fn strip_v(s: Seq<char>) -> Seq<char> {
    if s.len() > 0 && s[0] == 'v' {
        s.drop_first()
    } else {
        s
    }
}

/// Characters that may appear in the numeric part of a version.
pub open spec fn is_numeric_char(c: char) -> bool {
    is_digit(c) || c == '.'
}

/// Length of the longest prefix made of digits and dots.
pub open spec fn numeric_len(s: Seq<char>) -> nat
    decreases s.len(),
{
    if s.len() > 0 && is_numeric_char(s[0]) {
        1 + numeric_len(s.drop_first())
    } else {
        0
    }
}

/// The longest prefix made of digits and dots.
pub open spec fn numeric_prefix(s: Seq<char>) -> Seq<char> {
    s.take(numeric_len(s) as int)
}

/// `s` split at every `.` (`str::split('.')`); always at least one piece.
pub open spec fn split_dots(s: Seq<char>) -> Seq<Seq<char>>
    decreases s.len(),
{
    if s.len() == 0 {
        seq![Seq::<char>::empty()]
    } else {
        let prev = split_dots(s.drop_last());
        if s.last() == '.' {
            prev.push(Seq::<char>::empty())
        } else {
            prev.update(prev.len() - 1, prev.last().push(s.last()))
        }
    }
}

/// A component that `u64::from_str` accepts: at least one digit, in range.
pub open spec fn valid_component(p: Seq<char>) -> bool {
    p.len() > 0 && digits_value(p) <= u64::MAX
}

/// The dot-separated components of the numeric part of a tag.
pub open spec fn version_parts(s: Seq<char>) -> Seq<Seq<char>> {
    split_dots(numeric_prefix(strip_v(s)))
}

/// A tag parses when its numeric part has three or four valid components;
/// a missing fourth component is zero.
pub open spec fn parse_version_spec(s: Seq<char>) -> Option<Version> {
    let parts = version_parts(s);
    if 3 <= parts.len() <= 4 && forall|i: int| 0 <= i < parts.len() ==> valid_component(
        #[trigger] parts[i],
    ) {
        Some(
            (
                digits_value(parts[0]) as u64,
                digits_value(parts[1]) as u64,
                digits_value(parts[2]) as u64,
                if parts.len() == 4 {
                    digits_value(parts[3]) as u64
                } else {
                    0u64
                },
            ),
        )
    } else {
        None
    }
}

/// Lexicographic "strictly greater" on versions.
pub open spec fn version_gt(a: Version, b: Version) -> bool {
    ||| a.0 > b.0
    ||| (a.0 == b.0 && a.1 > b.1)
    ||| (a.0 == b.0 && a.1 == b.1 && a.2 > b.2)
    ||| (a.0 == b.0 && a.1 == b.1 && a.2 == b.2 && a.3 > b.3)
}

/// `latest` is newer than `current`: an unparsable `latest` never is, and a
/// parsable `latest` is newer than an unparsable `current`.
pub open spec fn is_newer_spec(current: Seq<char>, latest: Seq<char>) -> bool {
    match parse_version_spec(latest) {
        None => false,
        Some(l) => match parse_version_spec(current) {
            None => true,
            Some(c) => version_gt(l, c),
        },
    }
}

/// Number of `.` characters.
pub open spec fn dot_count(s: Seq<char>) -> nat
    decreases s.len(),
{
    if s.len() == 0 {
        0
    } else {
        dot_count(s.drop_last()) + if s.last() == '.' { 1nat } else { 0nat }
    }
}

/// `a.b.c` for a version.
pub open spec fn three_part_text(v: Version) -> Seq<char> {
    decimal(v.0 as nat) + seq!['.'] + decimal(v.1 as nat) + seq!['.'] + decimal(v.2 as nat)
}

/// `a.b.c.d` for a version.
pub open spec fn four_part_text(v: Version) -> Seq<char> {
    three_part_text(v) + seq!['.'] + decimal(v.3 as nat)
}

/// The normalised version of a release tag: four components when the tag
/// has at least four dot-separated pieces and a non-zero fourth component,
/// three otherwise.
pub open spec fn version_from_tag_spec(tag: Seq<char>) -> Option<Seq<char>> {
    match parse_version_spec(tag) {
        None => None,
        Some(v) => Some(
            if dot_count(strip_v(tag)) >= 3 && v.3 != 0 {
                four_part_text(v)
            } else {
                three_part_text(v)
            },
        ),
    }
}

// ---------------------------------------------------------------------
// Lemmas
// ---------------------------------------------------------------------

proof fn lemma_numeric_len(s: Seq<char>, k: int)
    requires
        0 <= k <= s.len(),
        forall|j: int| 0 <= j < k ==> is_numeric_char(#[trigger] s[j]),
        k == s.len() || !is_numeric_char(s[k]),
    ensures
        numeric_len(s) == k,
    decreases k,
{
    if k > 0 {
        let t = s.drop_first();
        assert forall|j: int| 0 <= j < k - 1 implies is_numeric_char(#[trigger] t[j]) by {
            assert(t[j] == s[j + 1]);
        }
        if k - 1 < t.len() {
            assert(t[k - 1] == s[k]);
        }
        lemma_numeric_len(t, k - 1);
    }
}

proof fn lemma_split_dot_free(y: Seq<char>)
    requires
        forall|j: int| 0 <= j < y.len() ==> #[trigger] y[j] != '.',
    ensures
        split_dots(y) == seq![y],
    decreases y.len(),
{
    if y.len() > 0 {
        lemma_split_dot_free(y.drop_last());
        assert(y.drop_last().push(y.last()) =~= y);
    } else {
        assert(y =~= Seq::<char>::empty());
    }
}

proof fn lemma_split_append_piece(x: Seq<char>, y: Seq<char>)
    requires
        forall|j: int| 0 <= j < y.len() ==> #[trigger] y[j] != '.',
    ensures
        split_dots(x + seq!['.'] + y) == split_dots(x).push(y),
    decreases y.len(),
{
    let xd = x + seq!['.'];
    if y.len() == 0 {
        assert(xd + y =~= xd);
        assert(xd.drop_last() =~= x);
        assert(y =~= Seq::<char>::empty());
    } else {
        let y0 = y.drop_last();
        assert forall|j: int| 0 <= j < y0.len() implies #[trigger] y0[j] != '.' by {
            assert(y0[j] == y[j]);
        }
        assert(y[y.len() - 1] != '.');
        lemma_split_append_piece(x, y0);
        assert((xd + y).drop_last() =~= xd + y0);
        assert((xd + y).last() == y.last());
        assert(y0.push(y.last()) =~= y);
        assert(split_dots(xd + y) =~= split_dots(x).push(y));
    }
}

proof fn lemma_all_numeric_text(t: Seq<char>)
    requires
        forall|j: int| 0 <= j < t.len() ==> is_numeric_char(#[trigger] t[j]),
    ensures
        numeric_prefix(t) == t,
{
    lemma_numeric_len(t, t.len() as int);
    assert(t.take(t.len() as int) =~= t);
}

/// The normalised text of a version parses back to that version's parts.
proof fn lemma_three_part_text(v: Version)
    ensures
        version_parts(three_part_text(v)) == seq![
            decimal(v.0 as nat),
            decimal(v.1 as nat),
            decimal(v.2 as nat),
        ],
        version_parts(four_part_text(v)) == seq![
            decimal(v.0 as nat),
            decimal(v.1 as nat),
            decimal(v.2 as nat),
            decimal(v.3 as nat),
        ],
{
    let a = decimal(v.0 as nat);
    let b = decimal(v.1 as nat);
    let c = decimal(v.2 as nat);
    let d = decimal(v.3 as nat);
    lemma_digits_value_decimal(v.0 as nat);
    lemma_digits_value_decimal(v.1 as nat);
    lemma_digits_value_decimal(v.2 as nat);
    lemma_digits_value_decimal(v.3 as nat);
    assert forall|j: int| 0 <= j < b.len() implies #[trigger] b[j] != '.' by {
        assert(is_digit(b[j]));
    }
    assert forall|j: int| 0 <= j < c.len() implies #[trigger] c[j] != '.' by {
        assert(is_digit(c[j]));
    }
    assert forall|j: int| 0 <= j < d.len() implies #[trigger] d[j] != '.' by {
        assert(is_digit(d[j]));
    }
    assert forall|j: int| 0 <= j < a.len() implies #[trigger] a[j] != '.' by {
        assert(is_digit(a[j]));
    }
    lemma_split_dot_free(a);
    lemma_split_append_piece(a, b);
    let ab = a + seq!['.'] + b;
    lemma_split_append_piece(ab, c);
    let t3 = three_part_text(v);
    assert(t3 =~= ab + seq!['.'] + c);
    lemma_split_append_piece(t3, d);
    let t4 = four_part_text(v);
    assert(t4 =~= t3 + seq!['.'] + d);
    assert forall|j: int| 0 <= j < t3.len() implies is_numeric_char(#[trigger] t3[j]) by {
        if j < a.len() {
            assert(t3[j] == a[j]);
        } else if j == a.len() {
        } else if j < a.len() + 1 + b.len() {
            assert(t3[j] == b[j - a.len() - 1]);
        } else if j == a.len() + 1 + b.len() {
        } else {
            assert(t3[j] == c[j - a.len() - 1 - b.len() - 1]);
        }
    }
    assert forall|j: int| 0 <= j < t4.len() implies is_numeric_char(#[trigger] t4[j]) by {
        if j < t3.len() {
            assert(t4[j] == t3[j]);
        } else if j == t3.len() {
        } else {
            assert(t4[j] == d[j - t3.len() - 1]);
        }
    }
    assert(t3[0] == a[0]);
    assert(t4[0] == a[0]);
    assert(is_digit(a[0]));
    assert(strip_v(t3) == t3);
    assert(strip_v(t4) == t4);
    lemma_all_numeric_text(t3);
    lemma_all_numeric_text(t4);
    assert(split_dots(a) == seq![a]);
    assert(seq![a].push(b) =~= seq![a, b]);
    assert(seq![a, b].push(c) =~= seq![a, b, c]);
    assert(seq![a, b, c].push(d) =~= seq![a, b, c, d]);
}

proof fn lemma_numeric_len_bound(s: Seq<char>)
    ensures
        numeric_len(s) <= s.len(),
    decreases s.len(),
{
    if s.len() > 0 {
        lemma_numeric_len_bound(s.drop_first());
    }
}

proof fn lemma_split_len(s: Seq<char>)
    ensures
        split_dots(s).len() == dot_count(s) + 1,
    decreases s.len(),
{
    if s.len() > 0 {
        lemma_split_len(s.drop_last());
    }
}

proof fn lemma_dot_count_prefix(s: Seq<char>, k: int)
    requires
        0 <= k <= s.len(),
    ensures
        dot_count(s.take(k)) <= dot_count(s),
    decreases s.len(),
{
    if k < s.len() {
        assert(s.drop_last().take(k) =~= s.take(k));
        lemma_dot_count_prefix(s.drop_last(), k);
    } else {
        assert(s.take(k) =~= s);
    }
}

/// Law: a normalised release version parses to the same version as the tag
/// it came from.
pub proof fn lemma_version_from_tag_round_trip(tag: Seq<char>)
    requires
        version_from_tag_spec(tag) is Some,
    ensures
        parse_version_spec(version_from_tag_spec(tag).unwrap()) == parse_version_spec(tag),
{
    let v = parse_version_spec(tag).unwrap();
    let st = strip_v(tag);
    lemma_numeric_len_bound(st);
    lemma_split_len(numeric_prefix(st));
    lemma_dot_count_prefix(st, numeric_len(st) as int);
    lemma_three_part_text(v);
    lemma_digits_value_decimal(v.0 as nat);
    lemma_digits_value_decimal(v.1 as nat);
    lemma_digits_value_decimal(v.2 as nat);
    lemma_digits_value_decimal(v.3 as nat);
    let a = decimal(v.0 as nat);
    let b = decimal(v.1 as nat);
    let c = decimal(v.2 as nat);
    let d = decimal(v.3 as nat);
    let p3 = seq![a, b, c];
    let p4 = seq![a, b, c, d];
    assert(forall|i: int| 0 <= i < p3.len() ==> valid_component(#[trigger] p3[i]));
    assert(forall|i: int| 0 <= i < p4.len() ==> valid_component(#[trigger] p4[i]));
}

/// Law: "strictly greater" on versions is irreflexive, transitive and total.
pub proof fn lemma_version_order(a: Version, b: Version, c: Version)
    ensures
        !version_gt(a, a),
        version_gt(a, b) && version_gt(b, c) ==> version_gt(a, c),
        a != b ==> (version_gt(a, b) || version_gt(b, a)),
        version_gt(a, b) ==> !version_gt(b, a),
{
}

/// Law: "is newer than" is irreflexive, asymmetric and transitive over all
/// tags, parsable or not.
pub proof fn lemma_is_newer_strict_order(a: Seq<char>, b: Seq<char>, c: Seq<char>)
    ensures
        !is_newer_spec(a, a),
        is_newer_spec(a, b) ==> !is_newer_spec(b, a),
        is_newer_spec(a, b) && is_newer_spec(b, c) ==> is_newer_spec(a, c),
{
}

/// The components of a version, most significant first.
pub open spec fn components(v: Version) -> Seq<u64> {
    seq![v.0, v.1, v.2, v.3]
}

/// Law: versions are ordered lexicographically, major first, then minor,
/// patch and the fourth component: `a` is greater than `b` exactly when, at
/// the first component where they differ, `a`'s is the greater.
pub proof fn lemma_version_gt_lexicographic(a: Version, b: Version)
    ensures
        version_gt(a, b) <==> exists|i: int|
            0 <= i < 4 && (forall|j: int| 0 <= j < i ==> components(a)[j] == components(b)[j])
                && #[trigger] components(a)[i] > components(b)[i],
{
    let ca = components(a);
    let cb = components(b);
    if version_gt(a, b) {
        if a.0 > b.0 {
            assert(ca[0] > cb[0]);
        } else if a.1 > b.1 {
            assert(ca[1] > cb[1] && ca[0] == cb[0]);
        } else if a.2 > b.2 {
            assert(ca[2] > cb[2] && ca[0] == cb[0] && ca[1] == cb[1]);
        } else {
            assert(ca[3] > cb[3] && ca[0] == cb[0] && ca[1] == cb[1] && ca[2] == cb[2]);
        }
    }
    if exists|i: int|
        0 <= i < 4 && (forall|j: int| 0 <= j < i ==> ca[j] == cb[j]) && #[trigger] ca[i] > cb[i] {
        let i = choose|i: int|
            0 <= i < 4 && (forall|j: int| 0 <= j < i ==> ca[j] == cb[j]) && #[trigger] ca[i] > cb[i];
        if i >= 1 {
            assert(ca[0] == cb[0]);
        }
        if i >= 2 {
            assert(ca[1] == cb[1]);
        }
        if i >= 3 {
            assert(ca[2] == cb[2]);
        }
    }
}

/// Law: a later patch release is newer whatever the fourth components are,
/// and a fourth component decides only between equal major, minor and
/// patch; for tags that parse, "is newer" is exactly this order.
pub proof fn lemma_is_newer_patch_before_fourth(current: Seq<char>, latest: Seq<char>)
    requires
        parse_version_spec(current) is Some,
        parse_version_spec(latest) is Some,
    ensures
        ({
            let c = parse_version_spec(current).unwrap();
            let l = parse_version_spec(latest).unwrap();
            &&& (l.0 == c.0 && l.1 == c.1 && l.2 > c.2) ==> is_newer_spec(current, latest)
            &&& (l.0 == c.0 && l.1 == c.1 && l.2 < c.2) ==> !is_newer_spec(current, latest)
            &&& (l.0 == c.0 && l.1 == c.1 && l.2 == c.2) ==> (is_newer_spec(current, latest) <==> l.3
                > c.3)
            &&& l.0 > c.0 ==> is_newer_spec(current, latest)
            &&& (l.0 == c.0 && l.1 > c.1) ==> is_newer_spec(current, latest)
        }),
{
    let c = parse_version_spec(current).unwrap();
    let l = parse_version_spec(latest).unwrap();
    lemma_version_gt_lexicographic(l, c);
    if l.0 == c.0 && l.1 == c.1 && l.2 < c.2 {
        assert(components(l)[2] < components(c)[2]);
    }
}

// ---------------------------------------------------------------------
// Executable code
// ---------------------------------------------------------------------

/// Parses a version tag such as `v1.2.3`, `1.2.3.4` or `1.2.3-rc1`.
pub fn parse_version(v: &str) -> (r: Option<Version>)
    ensures
        r == parse_version_spec(v@),
{
    let cs = chars_of(v);
    let start: usize = if cs.len() > 0 && cs[0] == 'v' { 1 } else { 0 };
    let ghost stripped = strip_v(v@);
    assert(stripped =~= cs@.skip(start as int));
    let mut end: usize = start;
    while end < cs.len() && (('0' <= cs[end] && cs[end] <= '9') || cs[end] == '.')
        invariant
            cs@ == v@,
            start <= end <= cs@.len(),
            stripped == cs@.skip(start as int),
            forall|j: int| start <= j < end ==> is_numeric_char(#[trigger] cs@[j]),
        decreases cs@.len() - end,
    {
        end = end + 1;
    }
    proof {
        assert forall|j: int| 0 <= j < end - start implies is_numeric_char(#[trigger] stripped[j]) by {
            assert(stripped[j] == cs@[j + start]);
        }
        if end < cs@.len() {
            assert(stripped[end - start] == cs@[end as int]);
        }
        lemma_numeric_len(stripped, end - start);
    }
    let ghost prefix = numeric_prefix(stripped);
    assert(prefix =~= cs@.subrange(start as int, end as int));
    // Scan the numeric prefix, splitting at dots.
    let mut completed: usize = 0;
    let mut all_ok = true;
    let mut v0: u64 = 0;
    let mut v1: u64 = 0;
    let mut v2: u64 = 0;
    let mut v3: u64 = 0;
    let mut cur: u64 = 0;
    let mut cur_len: usize = 0;
    let mut cur_over = false;
    let ghost mut done: Seq<Seq<char>> = Seq::empty();
    let ghost mut current: Seq<char> = Seq::empty();
    let mut i: usize = start;
    assert(prefix.take(0) =~= Seq::<char>::empty());
    while i < end
        invariant
            cs@ == v@,
            start <= i <= end <= cs@.len(),
            prefix == cs@.subrange(start as int, end as int),
            forall|j: int| start <= j < end ==> is_numeric_char(#[trigger] cs@[j]),
            split_dots(prefix.take(i - start)) == done.push(current),
            completed == done.len(),
            completed <= i,
            all_ok == (forall|j: int| 0 <= j < done.len() ==> valid_component(#[trigger] done[j])),
            all_ok && done.len() > 0 ==> v0 == digits_value(done[0]),
            all_ok && done.len() > 1 ==> v1 == digits_value(done[1]),
            all_ok && done.len() > 2 ==> v2 == digits_value(done[2]),
            all_ok && done.len() > 3 ==> v3 == digits_value(done[3]),
            done.len() <= 3 ==> v3 == 0,
            cur_len == current.len(),
            cur_len <= i - start,
            !cur_over ==> cur == digits_value(current),
            cur_over ==> digits_value(current) > u64::MAX,
        decreases end - i,
    {
        let c = cs[i];
        let ghost before = prefix.take(i - start);
        assert(prefix.take(i + 1 - start) =~= before.push(c));
        assert(prefix.take(i + 1 - start).drop_last() =~= before);
        if c == '.' {
            let part_ok = cur_len > 0 && !cur_over;
            if all_ok && part_ok {
                if completed == 0 {
                    v0 = cur;
                } else if completed == 1 {
                    v1 = cur;
                } else if completed == 2 {
                    v2 = cur;
                } else if completed == 3 {
                    v3 = cur;
                }
            }
            all_ok = all_ok && part_ok;
            proof {
                let nd = done.push(current);
                assert(forall|j: int| 0 <= j < done.len() ==> nd[j] == done[j]);
                assert(nd[done.len() as int] == current);
                done = nd;
                current = Seq::empty();
            }
            completed = completed + 1;
            cur = 0;
            cur_len = 0;
            cur_over = false;
        } else {
            assert(is_numeric_char(cs@[i as int]));
            let d: u64 = (c as u32 - '0' as u32) as u64;
            assert(d == digit_value(c));
            let ghost nc = current.push(c);
            assert(nc.drop_last() =~= current);
            if cur_over {
            } else if cur > (u64::MAX - d) / 10 {
                cur_over = true;
            } else {
                cur = cur * 10 + d;
            }
            proof {
                let old_done = done.push(current);
                assert(old_done.last() == current);
                assert(old_done.update(old_done.len() - 1, nc) =~= done.push(nc));
                current = nc;
            }
            cur_len = cur_len + 1;
        }
        i = i + 1;
    }
    assert(prefix.take(end - start) =~= prefix);
    let ghost parts = done.push(current);
    assert(parts == version_parts(v@));
    let last_ok = cur_len > 0 && !cur_over;
    assert(forall|j: int| 0 <= j < done.len() ==> parts[j] == done[j]);
    assert(parts[done.len() as int] == current);
    assert(parts.len() == completed + 1);
    if !(all_ok && last_ok) || completed < 2 || completed > 3 {
        proof {
            if 3 <= parts.len() <= 4 && forall|j: int|
                0 <= j < parts.len() ==> valid_component(#[trigger] parts[j]) {
                assert(valid_component(parts[done.len() as int]));
                assert forall|j: int| 0 <= j < done.len() implies valid_component(#[trigger] done[j]) by {
                    assert(valid_component(parts[j]));
                }
            }
        }
        return None;
    }
    if completed == 2 {
        v2 = cur;
    } else {
        v3 = cur;
    }
    assert(forall|j: int| 0 <= j < parts.len() ==> valid_component(#[trigger] parts[j]));
    assert(v0 == digits_value(parts[0]));
    assert(v1 == digits_value(parts[1]));
    assert(v2 == digits_value(parts[2]));
    assert(parts.len() == 4 ==> v3 == digits_value(parts[3]));
    assert(parts.len() == 3 ==> v3 == 0);
    Some((v0, v1, v2, v3))
}

fn version_gt_exec(a: Version, b: Version) -> (r: bool)
    ensures
        r == version_gt(a, b),
{
    if a.0 != b.0 {
        a.0 > b.0
    } else if a.1 != b.1 {
        a.1 > b.1
    } else if a.2 != b.2 {
        a.2 > b.2
    } else {
        a.3 > b.3
    }
}

/// `latest` is a newer release than `current`.
pub fn is_newer(current: &str, latest: &str) -> (r: bool)
    ensures
        r == is_newer_spec(current@, latest@),
{
    let l = match parse_version(latest) {
        None => return false,
        Some(l) => l,
    };
    match parse_version(current) {
        Some(c) => version_gt_exec(l, c),
        None => true,
    }
}

fn dots_at_least_three(s: &Vec<char>, start: usize) -> (r: bool)
    requires
        start <= s@.len(),
    ensures
        r == (dot_count(s@.skip(start as int)) >= 3),
{
    let mut n: usize = 0;
    let mut i: usize = start;
    while i < s.len()
        invariant
            start <= i <= s@.len(),
            n == dot_count(s@.subrange(start as int, i as int)),
            n <= i - start,
        decreases s@.len() - i,
    {
        assert(s@.subrange(start as int, i + 1).drop_last() =~= s@.subrange(start as int, i as int));
        if s[i] == '.' {
            n = n + 1;
        }
        i = i + 1;
    }
    assert(s@.subrange(start as int, s@.len() as int) =~= s@.skip(start as int));
    n >= 3
}

/// Normalises a release tag to its version text.
pub fn version_from_tag(tag: &str) -> (r: Option<String>)
    ensures
        r matches Some(s) ==> version_from_tag_spec(tag@) == Some(s@),
        r is None ==> version_from_tag_spec(tag@) is None,
{
    let v = match parse_version(tag) {
        None => return None,
        Some(v) => v,
    };
    let cs = chars_of(tag);
    let start: usize = if cs.len() > 0 && cs[0] == 'v' { 1 } else { 0 };
    assert(strip_v(tag@) =~= cs@.skip(start as int));
    let four = dots_at_least_three(&cs, start) && v.3 != 0;
    let mut out = String::new();
    push_decimal(&mut out, v.0);
    push_char(&mut out, '.');
    push_decimal(&mut out, v.1);
    push_char(&mut out, '.');
    push_decimal(&mut out, v.2);
    assert(out@ =~= three_part_text(v));
    if four {
        push_char(&mut out, '.');
        push_decimal(&mut out, v.3);
        assert(out@ =~= four_part_text(v));
    }
    Some(out)
}

/// The newest release among `tags`, as `(tag, version)`: the first tag whose
/// version no other tag's version is newer than; tags without a version are
/// skipped.
pub fn latest_release(tags: &Vec<String>) -> (r: Option<(String, String)>)
    ensures
        r is None <==> (forall|i: int| 0 <= i < tags@.len() ==> version_from_tag_spec(
            #[trigger] tags@[i]@,
        ) is None),
        r matches Some(best) ==> {
            &&& exists|i: int| 0 <= i < tags@.len() && #[trigger] tags@[i]@ == best.0@
            &&& version_from_tag_spec(best.0@) == Some(best.1@)
            &&& forall|i: int| 0 <= i < tags@.len() ==> (#[trigger] version_from_tag_spec(tags@[i]@)
                matches Some(other) ==> !is_newer_spec(best.1@, other))
            &&& exists|k: int| 0 <= k < tags@.len() && #[trigger] tags@[k]@ == best.0@ && forall|j: int|
                0 <= j < k ==> (#[trigger] version_from_tag_spec(tags@[j]@) matches Some(other)
                ==> is_newer_spec(other, best.1@))
        },
{
    let mut best: Option<(String, String)> = None;
    let ghost mut bi: int = 0;
    let mut i: usize = 0;
    while i < tags.len()
        invariant
            i <= tags@.len(),
            best is None <==> (forall|j: int| 0 <= j < i ==> version_from_tag_spec(
                #[trigger] tags@[j]@,
            ) is None),
            best matches Some(b) ==> {
                &&& exists|j: int| 0 <= j < i && #[trigger] tags@[j]@ == b.0@
                &&& version_from_tag_spec(b.0@) == Some(b.1@)
                &&& parse_version_spec(b.1@) is Some
                &&& forall|j: int| 0 <= j < i ==> (#[trigger] version_from_tag_spec(tags@[j]@)
                    matches Some(other) ==> !is_newer_spec(b.1@, other))
                &&& 0 <= bi < i
                &&& tags@[bi]@ == b.0@
                &&& forall|j: int| 0 <= j < bi ==> (#[trigger] version_from_tag_spec(tags@[j]@)
                    matches Some(other) ==> is_newer_spec(other, b.1@))
            },
        decreases tags@.len() - i,
    {
        let tag = &tags[i];
        match version_from_tag(tag.as_str()) {
            None => {},
            Some(version) => {
                proof {
                    lemma_version_from_tag_round_trip(tag@);
                }
                let replace = match &best {
                    None => true,
                    Some(b) => is_newer(b.1.as_str(), version.as_str()),
                };
                if replace {
                    proof {
                        let nv = parse_version_spec(version@).unwrap();
                        assert forall|j: int| 0 <= j < i + 1 implies (#[trigger] version_from_tag_spec(
                            tags@[j]@,
                        ) matches Some(other) ==> !is_newer_spec(version@, other)) by {
                            if version_from_tag_spec(tags@[j]@) is Some && j < i {
                                let other = version_from_tag_spec(tags@[j]@).unwrap();
                                lemma_version_from_tag_round_trip(tags@[j]@);
                                let b = best.unwrap();
                                let bv = parse_version_spec(b.1@).unwrap();
                                let ov = parse_version_spec(other).unwrap();
                                assert(!is_newer_spec(b.1@, other));
                                lemma_version_order(ov, bv, nv);
                            }
                        }
                        assert(tags@[i as int]@ == tag@);
                        assert forall|j: int| 0 <= j < i implies (#[trigger] version_from_tag_spec(
                            tags@[j]@,
                        ) matches Some(other) ==> is_newer_spec(other, version@)) by {
                            if version_from_tag_spec(tags@[j]@) is Some {
                                let other = version_from_tag_spec(tags@[j]@).unwrap();
                                lemma_version_from_tag_round_trip(tags@[j]@);
                                let b = best.unwrap();
                                let bv = parse_version_spec(b.1@).unwrap();
                                let ov = parse_version_spec(other).unwrap();
                                assert(!is_newer_spec(b.1@, other));
                                lemma_version_order(nv, bv, ov);
                                lemma_version_order(ov, bv, nv);
                            }
                        }
                        bi = i as int;
                    }
                    best = Some((tag.clone(), version));
                } else {
                    proof {
                        let b = best.unwrap();
                        let bv = parse_version_spec(b.1@).unwrap();
                        let nv = parse_version_spec(version@).unwrap();
                        lemma_version_order(bv, nv, nv);
                        assert forall|j: int| 0 <= j < i + 1 implies (#[trigger] version_from_tag_spec(
                            tags@[j]@,
                        ) matches Some(other) ==> !is_newer_spec(b.1@, other)) by {
                            if j == i {
                                assert(tags@[j]@ == tag@);
                            }
                        }
                        let w = choose|j: int| 0 <= j < i && #[trigger] tags@[j]@ == b.0@;
                        assert(0 <= w < i + 1 && tags@[w]@ == b.0@);
                    }
                }
            },
        }
        proof {
            if best is Some {
                let b = best.unwrap();
                if !(exists|j: int| 0 <= j < i + 1 && #[trigger] tags@[j]@ == b.0@) {
                    assert(false);
                }
            }
        }
        i = i + 1;
    }
    proof {
        if best is Some {
            let b = best.unwrap();
            assert(0 <= bi < tags@.len() && tags@[bi]@ == b.0@);
        }
    }
    best
}

/// A cached check is fresh for `CACHE_TTL` seconds after it was made.
pub open spec fn is_fresh_spec(checked_at: int, now: int) -> bool {
    now - checked_at <= CACHE_TTL
}

/// Whether a cached check made at `checked_at` is still fresh at `now`.
pub fn cache_is_fresh(result: &CheckResult, now: i64) -> (r: bool)
    ensures
        r == is_fresh_spec(result.checked_at as int, now as int),
{
    (now as i128) - (result.checked_at as i128) <= CACHE_TTL as i128
}

/// A new version is announced when the latest release is newer than the
/// running one and no notice was given within the last `CACHE_TTL` seconds.
pub open spec fn should_notify_spec(current: Seq<char>, result: CheckResult, now: int) -> bool {
    &&& is_newer_spec(current, result.latest_version@)
    &&& !(result.last_notify_at > 0 && now - result.last_notify_at < CACHE_TTL)
}

/// Whether to announce `result` to a user running version `current`.
pub fn should_notify(current: &str, result: &CheckResult, now: i64) -> (r: bool)
    ensures
        r == should_notify_spec(current@, *result, now as int),
{
    if !is_newer(current, result.latest_version.as_str()) {
        return false;
    }
    !(result.last_notify_at > 0 && (now as i128) - (result.last_notify_at as i128) < CACHE_TTL as i128)
}

/// A fresh check result for `(tag, version)`, made at `now`, never notified.
pub fn new_check_result(tag: String, version: String, now: i64) -> (r: CheckResult)
    ensures
        r.latest_tag == tag,
        r.latest_version == version,
        r.checked_at == now,
        r.last_notify_at == 0,
{
    CheckResult { latest_version: version, latest_tag: tag, checked_at: now, last_notify_at: 0 }
}

/// The install commands: PowerShell on Windows, a shell pipe elsewhere.
pub open spec fn install_command_spec(windows: bool) -> Seq<char> {
    if windows {
        "  # GitCode\n  irm "@ + GITCODE_INSTALL_PS@
            + " | iex\n\n  # GitHub\n  irm https://github.com/hu-qi/devspace-devbridge-rs/releases/latest/download/install.ps1 | iex"@
    } else {
        "  # GitCode\n  curl -fsSL "@ + GITCODE_INSTALL_SH@
            + " | bash\n\n  # GitHub\n  curl -fsSL https://github.com/hu-qi/devspace-devbridge-rs/releases/latest/download/install.sh | bash"@
    }
}

/// The shell commands that install the latest release.
pub fn install_command(windows: bool) -> (r: String)
    ensures
        r@ == install_command_spec(windows),
{
    if windows {
        let mut s = owned("  # GitCode\n  irm ");
        push_str(&mut s, GITCODE_INSTALL_PS);
        push_str(
            &mut s,
            " | iex\n\n  # GitHub\n  irm https://github.com/hu-qi/devspace-devbridge-rs/releases/latest/download/install.ps1 | iex",
        );
        s
    } else {
        let mut s = owned("  # GitCode\n  curl -fsSL ");
        push_str(&mut s, GITCODE_INSTALL_SH);
        push_str(
            &mut s,
            " | bash\n\n  # GitHub\n  curl -fsSL https://github.com/hu-qi/devspace-devbridge-rs/releases/latest/download/install.sh | bash",
        );
        s
    }
}

/// `<home>/.huawei/devbridge/version_cache.json`: the version cache beside
/// the configuration file.
pub open spec fn cache_path_spec(home: Seq<char>) -> Seq<char> {
    path_join(config_dir_spec(home), "version_cache.json"@)
}

/// Where release checks are cached, `None` where the home directory cannot
/// be resolved.
pub fn cache_path(home: Option<&str>) -> (r: Option<String>)
    ensures
        match home {
            None => r is None,
            Some(h) => r is Some && r.unwrap()@ == cache_path_spec(h@),
        },
{
    match config_dir(home) {
        None => None,
        Some(dir) => Some(join_path(dir, "version_cache.json")),
    }
}

/// Records that a notice was given at `now`.
pub fn mark_notified(result: &mut CheckResult, now: i64)
    ensures
        *final(result) == (CheckResult { last_notify_at: now, ..*old(result) }),
{
    result.last_notify_at = now;
}

/// Law: a notice is given only for a newer release; a release that was
/// never announced is announced as soon as it is newer; after a notice at
/// `t`, none is given again for `CACHE_TTL` seconds, and after that it is
/// announced again exactly when it is newer.
pub proof fn lemma_notify_throttle(current: Seq<char>, result: CheckResult, t: i64, now: int)
    ensures
        !is_newer_spec(current, result.latest_version@) ==> !should_notify_spec(current, result, now),
        result.last_notify_at <= 0 ==> (should_notify_spec(current, result, now) == is_newer_spec(
            current,
            result.latest_version@,
        )),
        t > 0 && now - t < CACHE_TTL ==> !should_notify_spec(
            current,
            CheckResult { last_notify_at: t, ..result },
            now,
        ),
        t > 0 && now - t >= CACHE_TTL ==> (should_notify_spec(
            current,
            CheckResult { last_notify_at: t, ..result },
            now,
        ) == is_newer_spec(current, result.latest_version@)),
{
}

/// Law: a cached check is fresh from when it was made until `CACHE_TTL`
/// seconds later, and stays stale after that: freshness at a moment implies
/// freshness at every earlier one.
pub proof fn lemma_fresh_window(checked_at: int, now: int, earlier: int)
    ensures
        is_fresh_spec(checked_at, checked_at),
        is_fresh_spec(checked_at, checked_at + CACHE_TTL),
        !is_fresh_spec(checked_at, checked_at + CACHE_TTL + 1),
        earlier <= now && is_fresh_spec(checked_at, now) ==> is_fresh_spec(checked_at, earlier),
{
}

/// The notice of a newer release, with the install commands.
pub fn update_notice(latest_version: &str, current: &str, windows: bool) -> (r: String)
    ensures
        r@ == "\nA new version is available: "@ + latest_version@ + " (current: "@ + current@
            + ")\nUpdate:\n"@ + install_command_spec(windows) + "\n"@,
{
    let mut s = owned("\nA new version is available: ");
    push_str(&mut s, latest_version);
    push_str(&mut s, " (current: ");
    push_str(&mut s, current);
    push_str(&mut s, ")\nUpdate:\n");
    let cmd = install_command(windows);
    push_str(&mut s, cmd.as_str());
    push_str(&mut s, "\n");
    s
}

} // verus!
