//! SDK version tags: which tags are numeric, how they are ordered, which
//! one a `git ls-remote --tags` listing names as the latest, and how the
//! `.danmuji-version` file is read and written.

use vstd::prelude::*;
use crate::text::{
    chars_of, copy_chars, is_space_char, lemma_single_line, lemma_split_nonempty,
    lemma_split_without_sep, lemma_trim_ends, lemma_trim_idempotent, lines, lines_spec,
    split_on, split_spec, decimal_spec, digit_char, string_of, trim, trim_spec, trim_start_spec, views, words, words_spec,
};

verus! {

/// An ASCII decimal digit.
pub open spec fn is_digit_char(c: char) -> bool {
    '0' <= c && c <= '9'
}

/// The value of an ASCII decimal digit.
pub open spec fn digit_value(c: char) -> int {
    (c as u32) - 48
}

/// The value of a string of decimal digits, read most significant first.
pub open spec fn decimal_value(p: Seq<char>) -> int
    decreases p.len(),
{
    if p.len() == 0 {
        0
    } else {
        decimal_value(p.drop_last()) * 10 + digit_value(p.last())
    }
}

/// All characters of `p` are decimal digits.
pub open spec fn all_digits(p: Seq<char>) -> bool {
    forall|i: int| 0 <= i < p.len() ==> is_digit_char(#[trigger] p[i])
}

/// One dot-separated component of a numeric tag: a non-empty run of digits
/// whose value fits in a `u64`.
pub open spec fn is_numeric_part(p: Seq<char>) -> bool {
    &&& p.len() > 0
    &&& all_digits(p)
    &&& decimal_value(p) <= u64::MAX
}

/// A tag without one leading `'v'`.
pub open spec fn strip_v_spec(tag: Seq<char>) -> Seq<char> {
    if tag.len() > 0 && tag[0] == 'v' {
        tag.drop_first()
    } else {
        tag
    }
}

/// The numeric key of a tag such as `v1.2.3` or `2024.10`: the values of its
/// dot-separated parts, or `None` when some part is not a number.
pub open spec fn numeric_tag_key_spec(tag: Seq<char>) -> Option<Seq<u64>> {
    let parts = split_spec(strip_v_spec(tag), '.');
    if forall|i: int| 0 <= i < parts.len() ==> is_numeric_part(#[trigger] parts[i]) {
        Some(parts.map_values(|p: Seq<char>| decimal_value(p) as u64))
    } else {
        None
    }
}

proof fn lemma_decimal_nonneg(p: Seq<char>)
    requires
        all_digits(p),
    ensures
        decimal_value(p) >= 0,
    decreases p.len(),
{
    if p.len() > 0 {
        assert(is_digit_char(p[p.len() - 1]));
        lemma_decimal_nonneg(p.drop_last());
    }
}

/// The decimal spelling of a number is a string of digits that reads back
/// as that number, with no leading zero except for zero itself.
pub proof fn lemma_decimal_spelling_reads_back(n: nat)
    ensures
        decimal_spec(n).len() > 0,
        all_digits(decimal_spec(n)),
        decimal_value(decimal_spec(n)) == n,
        decimal_spec(n).len() > 1 ==> decimal_spec(n)[0] != '0',
    decreases n,
{
    let d = decimal_spec(n);
    if n < 10 {
        assert(d.drop_last() =~= Seq::<char>::empty());
        assert(decimal_value(d.drop_last()) == 0);
        assert(d.last() == digit_char(n));
        assert(digit_value(digit_char(n)) == n);
        assert(decimal_value(d) == n);
    } else {
        lemma_decimal_spelling_reads_back(n / 10);
        let p = decimal_spec(n / 10);
        assert(d.drop_last() =~= p);
        assert(d.last() == digit_char(n % 10));
        assert(digit_value(digit_char(n % 10)) == n % 10);
        assert(n == (n / 10) * 10 + n % 10) by (nonlinear_arith);
        assert(decimal_value(d) == decimal_value(p) * 10 + digit_value(d.last()));
        assert(decimal_value(d) == n);
        assert(is_digit_char(digit_char(n % 10)));
        assert(d[0] == p[0]);
        assert forall|i: int| 0 <= i < d.len() implies is_digit_char(#[trigger] d[i]) by {
            if i < p.len() {
                assert(d[i] == p[i]);
            }
        }
        if p.len() == 1 {
            assert(p.drop_last() =~= Seq::<char>::empty());
            assert(p.last() == p[0]);
            assert(decimal_value(p.drop_last()) == 0);
            assert(decimal_value(p) == digit_value(p[0]));
            assert(digit_value(p[0]) == n / 10);
        }
    }
}

/// Appending digits never makes the value smaller.
proof fn lemma_decimal_prefix(p: Seq<char>, k: int)
    requires
        all_digits(p),
        0 <= k <= p.len(),
    ensures
        decimal_value(p.take(k)) <= decimal_value(p),
    decreases p.len(),
{
    if k < p.len() {
        assert(p.drop_last().take(k) =~= p.take(k));
        lemma_decimal_prefix(p.drop_last(), k);
        lemma_decimal_nonneg(p.drop_last());
        assert(is_digit_char(p[p.len() - 1]));
    } else {
        assert(p.take(k) =~= p);
    }
}

/// The value of a component of a numeric tag, or `None` when it is empty,
/// holds a non-digit or does not fit in a `u64`.
fn parse_part(p: &Vec<char>) -> (res: Option<u64>)
    ensures
        res is Some <==> is_numeric_part(p@),
        res matches Some(v) ==> v == decimal_value(p@),
{
    let n = p.len();
    if n == 0 {
        return None;
    }
    let mut acc: u64 = 0;
    let mut i: usize = 0;
    while i < n
        invariant
            n == p@.len(),
            i <= n,
            all_digits(p@.take(i as int)),
            acc == decimal_value(p@.take(i as int)),
        decreases n - i,
    {
        let c = p[i];
        let ghost t = p@.take(i + 1);
        assert(t.drop_last() =~= p@.take(i as int));
        if !('0' <= c && c <= '9') {
            assert(!is_digit_char(p@[i as int]));
            return None;
        }
        let d = (c as u32 - 48) as u64;
        match acc.checked_mul(10) {
            None => {
                proof {
                    lemma_decimal_nonneg(p@.take(i as int));
                    assert(all_digits(t));
                    lemma_overflow_persists(p@, i + 1);
                }
                return None;
            },
            Some(m) => match m.checked_add(d) {
                None => {
                    proof {
                        assert(all_digits(t));
                        lemma_overflow_persists(p@, i + 1);
                    }
                    return None;
                },
                Some(v) => {
                    acc = v;
                },
            },
        }
        i = i + 1;
    }
    assert(p@.take(n as int) =~= p@);
    Some(acc)
}

/// Once a prefix of digits overflows a `u64`, the whole part does, or it
/// holds a non-digit.
proof fn lemma_overflow_persists(p: Seq<char>, k: int)
    requires
        0 <= k <= p.len(),
        all_digits(p.take(k)),
        decimal_value(p.take(k)) > u64::MAX,
    ensures
        !is_numeric_part(p),
{
    if all_digits(p) {
        lemma_decimal_prefix(p, k);
    }
}


/// The numeric key of a tag, as `numeric_tag_key_spec` defines it: an
/// optional leading `'v'` is dropped and each dot-separated part must be a
/// non-empty decimal number that fits in a `u64`.
pub fn numeric_tag_key(tag: &str) -> (res: Option<Vec<u64>>)
    ensures
        match res {
            Some(k) => numeric_tag_key_spec(tag@) == Some(k@),
            None => numeric_tag_key_spec(tag@) is None,
        },
{
    let chars = chars_of(tag);
    numeric_key_of(&chars)
}

/// `numeric_tag_key` on the characters of a tag.
fn numeric_key_of(tag: &Vec<char>) -> (res: Option<Vec<u64>>)
    ensures
        match res {
            Some(k) => numeric_tag_key_spec(tag@) == Some(k@),
            None => numeric_tag_key_spec(tag@) is None,
        },
{
    let body = if tag.len() > 0 && tag[0] == 'v' {
        let mut rest: Vec<char> = Vec::new();
        let n = tag.len();
        for i in 1..n
            invariant
                n == tag@.len(),
                1 <= n,
                rest@ == tag@.subrange(1, i as int),
        {
            rest.push(tag[i]);
            assert(tag@.subrange(1, i + 1) =~= tag@.subrange(1, i as int).push(tag@[i as int]));
        }
        assert(rest@ =~= tag@.drop_first());
        rest
    } else {
        copy_chars(tag)
    };
    assert(body@ == strip_v_spec(tag@));
    let parts = split_on(&body, '.');
    let ghost ps = split_spec(body@, '.');
    let mut key: Vec<u64> = Vec::new();
    let n = parts.len();
    for i in 0..n
        invariant
            n == parts@.len(),
            views(parts@) == ps,
            ps == split_spec(strip_v_spec(tag@), '.'),
            forall|j: int| 0 <= j < i ==> is_numeric_part(#[trigger] ps[j]),
            key@ == ps.take(i as int).map_values(|p: Seq<char>| decimal_value(p) as u64),
    {
        assert(parts@[i as int]@ == ps[i as int]);
        match parse_part(&parts[i]) {
            None => {
                return None;
            },
            Some(v) => {
                key.push(v);
                assert(ps.take(i + 1) =~= ps.take(i as int).push(ps[i as int]));
                assert(key@ =~= ps.take(i + 1).map_values(|p: Seq<char>| decimal_value(p) as u64));
            },
        }
    }
    assert(ps.take(n as int) =~= ps);
    Some(key)
}


/// How two version keys are ordered.
#[derive(Clone, Copy, Debug, PartialEq, Eq, Structural)]
pub enum VersionOrder {
    Less,
    Equal,
    Greater,
}

impl VersionOrder {
    /// The same relation seen from the other side.
    pub open spec fn flip(self) -> VersionOrder {
        match self {
            VersionOrder::Less => VersionOrder::Greater,
            VersionOrder::Equal => VersionOrder::Equal,
            VersionOrder::Greater => VersionOrder::Less,
        }
    }
}

/// Component `i` of a key, where missing components count as zero.
pub open spec fn key_at(k: Seq<u64>, i: int) -> u64 {
    if 0 <= i < k.len() {
        k[i]
    } else {
        0
    }
}

/// The larger of the two lengths.
pub open spec fn max_len(l: Seq<u64>, r: Seq<u64>) -> int {
    if l.len() >= r.len() {
        l.len() as int
    } else {
        r.len() as int
    }
}

/// Lexicographic comparison from component `i` on, with the shorter key
/// padded with zeros.
pub open spec fn compare_keys_from(l: Seq<u64>, r: Seq<u64>, i: int) -> VersionOrder
    decreases max_len(l, r) - i,
{
    if i >= max_len(l, r) {
        VersionOrder::Equal
    } else if key_at(l, i) < key_at(r, i) {
        VersionOrder::Less
    } else if key_at(l, i) > key_at(r, i) {
        VersionOrder::Greater
    } else {
        compare_keys_from(l, r, i + 1)
    }
}

/// Lexicographic comparison of two keys, the shorter padded with zeros, so
/// that `1.2` and `1.2.0` are equal.
pub open spec fn compare_keys(l: Seq<u64>, r: Seq<u64>) -> VersionOrder {
    compare_keys_from(l, r, 0)
}

/// Compares two numeric version keys component by component, treating
/// missing components as zero.
pub fn compare_version_key(left: &[u64], right: &[u64]) -> (res: VersionOrder)
    ensures
        res == compare_keys(left@, right@),
{
    let len = if left.len() >= right.len() { left.len() } else { right.len() };
    let mut index: usize = 0;
    while index < len
        invariant
            len == max_len(left@, right@),
            index <= len,
            compare_keys(left@, right@) == compare_keys_from(left@, right@, index as int),
        decreases len - index,
    {
        let l = if index < left.len() { left[index] } else { 0 };
        let r = if index < right.len() { right[index] } else { 0 };
        if l < r {
            return VersionOrder::Less;
        } else if l > r {
            return VersionOrder::Greater;
        }
        index = index + 1;
    }
    VersionOrder::Equal
}

proof fn lemma_compare_flip_from(l: Seq<u64>, r: Seq<u64>, i: int)
    ensures
        compare_keys_from(l, r, i) == compare_keys_from(r, l, i).flip(),
    decreases max_len(l, r) - i,
{
    if i < max_len(l, r) && key_at(l, i) == key_at(r, i) {
        lemma_compare_flip_from(l, r, i + 1);
    }
}

/// Swapping the two keys swaps `Less` and `Greater` and keeps `Equal`.
pub proof fn lemma_compare_antisymmetric(l: Seq<u64>, r: Seq<u64>)
    ensures
        compare_keys(l, r) == compare_keys(r, l).flip(),
{
    lemma_compare_flip_from(l, r, 0);
}

proof fn lemma_compare_equal_from(l: Seq<u64>, r: Seq<u64>, i: int)
    requires
        0 <= i,
    ensures
        compare_keys_from(l, r, i) == VersionOrder::Equal <==> forall|j: int|
            i <= j ==> #[trigger] key_at(l, j) == key_at(r, j),
    decreases max_len(l, r) - i,
{
    if i < max_len(l, r) {
        lemma_compare_equal_from(l, r, i + 1);
    } else {
        assert forall|j: int| i <= j implies #[trigger] key_at(l, j) == key_at(r, j) by {}
    }
}

/// Two keys compare `Equal` exactly when they agree once padded with zeros.
pub proof fn lemma_compare_equal_iff_padded(l: Seq<u64>, r: Seq<u64>)
    ensures
        compare_keys(l, r) == VersionOrder::Equal <==> forall|j: int|
            0 <= j ==> #[trigger] key_at(l, j) == key_at(r, j),
{
    lemma_compare_equal_from(l, r, 0);
}


/// One step of the comparison, valid at every position, also past both ends.
proof fn lemma_compare_step(l: Seq<u64>, r: Seq<u64>, i: int)
    requires
        0 <= i,
    ensures
        compare_keys_from(l, r, i) == (if key_at(l, i) < key_at(r, i) {
            VersionOrder::Less
        } else if key_at(l, i) > key_at(r, i) {
            VersionOrder::Greater
        } else {
            compare_keys_from(l, r, i + 1)
        }),
{
}

proof fn lemma_compare_trans_from(a: Seq<u64>, b: Seq<u64>, c: Seq<u64>, i: int, m: int)
    requires
        0 <= i,
        m >= a.len(),
        m >= b.len(),
        m >= c.len(),
    ensures
        compare_keys_from(a, b, i) != VersionOrder::Greater && compare_keys_from(b, c, i)
            != VersionOrder::Greater ==> compare_keys_from(a, c, i) != VersionOrder::Greater,
        compare_keys_from(a, b, i) == VersionOrder::Less && compare_keys_from(b, c, i)
            != VersionOrder::Greater ==> compare_keys_from(a, c, i) == VersionOrder::Less,
        compare_keys_from(a, b, i) != VersionOrder::Greater && compare_keys_from(b, c, i)
            == VersionOrder::Less ==> compare_keys_from(a, c, i) == VersionOrder::Less,
    decreases m - i,
{
    if i < m {
        lemma_compare_step(a, b, i);
        lemma_compare_step(b, c, i);
        lemma_compare_step(a, c, i);
        lemma_compare_trans_from(a, b, c, i + 1, m);
    }
}

/// Keys are ordered transitively: `a <= b <= c` gives `a <= c`, and the
/// result is strict when either step is.
pub proof fn lemma_compare_transitive(a: Seq<u64>, b: Seq<u64>, c: Seq<u64>)
    ensures
        compare_keys(a, b) != VersionOrder::Greater && compare_keys(b, c) != VersionOrder::Greater
            ==> compare_keys(a, c) != VersionOrder::Greater,
        compare_keys(a, b) == VersionOrder::Less && compare_keys(b, c) != VersionOrder::Greater
            ==> compare_keys(a, c) == VersionOrder::Less,
        compare_keys(a, b) != VersionOrder::Greater && compare_keys(b, c) == VersionOrder::Less
            ==> compare_keys(a, c) == VersionOrder::Less,
{
    let m = max_len(a, b) + c.len();
    lemma_compare_trans_from(a, b, c, 0, m);
}


/// The prefix of the references that name tags.
pub open spec fn tag_ref_prefix() -> Seq<char> {
    seq!['r', 'e', 'f', 's', '/', 't', 'a', 'g', 's', '/']
}

/// The tag that one line of `git ls-remote --tags --refs` output names: the
/// second whitespace-separated field, without its `refs/tags/` prefix.
pub open spec fn ls_remote_tag(line: Seq<char>) -> Option<Seq<char>> {
    let w = words_spec(line);
    if w.len() >= 2 && w[1].len() >= 10 && w[1].take(10) == tag_ref_prefix() {
        Some(w[1].skip(10))
    } else {
        None
    }
}

/// The numeric tag named by a line, with its key.
pub open spec fn numeric_tag_of_line(line: Seq<char>) -> Option<(Seq<u64>, Seq<char>)> {
    match ls_remote_tag(line) {
        Some(tag) => match numeric_tag_key_spec(tag) {
            Some(key) => Some((key, tag)),
            None => None,
        },
        None => None,
    }
}

/// The greatest numeric tag among `lines`, with its key; of several equal
/// greatest keys the first one listed wins.
pub open spec fn latest_of(lines: Seq<Seq<char>>) -> Option<(Seq<u64>, Seq<char>)>
    decreases lines.len(),
{
    if lines.len() == 0 {
        None
    } else {
        let prev = latest_of(lines.drop_last());
        match numeric_tag_of_line(lines.last()) {
            None => prev,
            Some((key, tag)) => match prev {
                None => Some((key, tag)),
                Some((best_key, best_tag)) => if compare_keys(key, best_key)
                    == VersionOrder::Greater {
                    Some((key, tag))
                } else {
                    prev
                },
            },
        }
    }
}

/// The latest numeric SDK tag in a `git ls-remote --tags --refs` listing.
pub open spec fn latest_tag_spec(listing: Seq<char>) -> Option<Seq<char>> {
    match latest_of(lines_spec(listing)) {
        Some((key, tag)) => Some(tag),
        None => None,
    }
}

fn tag_of_line(line: &Vec<char>) -> (res: Option<Vec<char>>)
    ensures
        match res {
            Some(t) => ls_remote_tag(line@) == Some(t@),
            None => ls_remote_tag(line@) is None,
        },
{
    let w = words(line);
    if w.len() < 2 {
        return None;
    }
    let field = &w[1];
    assert(field@ == words_spec(line@)[1]);
    if field.len() < 10 {
        return None;
    }
    let prefix = vec!['r', 'e', 'f', 's', '/', 't', 'a', 'g', 's', '/'];
    assert(prefix@ =~= tag_ref_prefix());
    let mut k: usize = 0;
    while k < 10
        invariant
            k <= 10,
            field@.len() >= 10,
            field@ == words_spec(line@)[1],
            words_spec(line@).len() >= 2,
            prefix@ == tag_ref_prefix(),
            forall|j: int| 0 <= j < k ==> field@[j] == prefix@[j],
        decreases 10 - k,
    {
        if field[k] != prefix[k] {
            assert(field@.take(10)[k as int] != tag_ref_prefix()[k as int]);
            assert(field@.take(10) != tag_ref_prefix());
            return None;
        }
        k = k + 1;
    }
    assert(field@.take(10) =~= tag_ref_prefix());
    let mut tag: Vec<char> = Vec::new();
    let n = field.len();
    for i in 10..n
        invariant
            n == field@.len(),
            n >= 10,
            tag@ == field@.subrange(10, i as int),
    {
        tag.push(field[i]);
        assert(field@.subrange(10, i + 1) =~= field@.subrange(10, i as int).push(field@[i as int]));
    }
    assert(tag@ =~= field@.skip(10));
    Some(tag)
}

/// The latest numeric tag that a `git ls-remote --tags --refs` listing
/// names, or `None` when it names none: lines whose second field does not
/// start with `refs/tags/`, or whose tag is not numeric, are passed over,
/// and a later tag replaces the current one only when its key is greater.
pub fn latest_numeric_tag(listing: &str) -> (res: Option<String>)
    ensures
        match res {
            Some(t) => latest_tag_spec(listing@) == Some(t@),
            None => latest_tag_spec(listing@) is None,
        },
{
    let chars = chars_of(listing);
    let ls = lines(&chars);
    let ghost lv = lines_spec(listing@);
    let mut best_key: Vec<u64> = Vec::new();
    let mut best_tag: Vec<char> = Vec::new();
    let mut found = false;
    let n = ls.len();
    assert(lv.skip(0) =~= lv);
    for i in 0..n
        invariant
            n == ls@.len(),
            views(ls@) == lv,
            match latest_of(lv.take(i as int)) {
                Some((k, t)) => found && best_key@ == k && best_tag@ == t,
                None => !found,
            },
    {
        let ghost pre = lv.take(i as int);
        assert(lv.take(i + 1).drop_last() =~= pre);
        assert(lv.take(i + 1).last() == ls@[i as int]@);
        match tag_of_line(&ls[i]) {
            None => {},
            Some(tag) => match numeric_key_of(&tag) {
                None => {},
                Some(key) => {
                    if !found || compare_version_key(key.as_slice(), best_key.as_slice())
                        == VersionOrder::Greater {
                        best_key = key;
                        best_tag = tag;
                        found = true;
                    }
                },
            },
        }
    }
    assert(lv.take(n as int) =~= lv);
    if found {
        Some(string_of(&best_tag))
    } else {
        None
    }
}


/// `j` is where the greatest key first appears among `lines`: no numeric
/// tag listed before it reaches its key, and none listed after exceeds it.
pub open spec fn first_greatest_at(lines: Seq<Seq<char>>, j: int, key: Seq<u64>) -> bool {
    &&& forall|i: int|
        0 <= i < j ==> (#[trigger] numeric_tag_of_line(lines[i]) matches Some((k, t)) ==> compare_keys(
            k,
            key,
        ) == VersionOrder::Less)
    &&& forall|i: int|
        0 <= i < lines.len() ==> (#[trigger] numeric_tag_of_line(lines[i]) matches Some((k, t))
            ==> compare_keys(k, key) != VersionOrder::Greater)
}

/// The tag chosen among `lines` is a numeric tag of greatest key, the first
/// such one listed; there is none exactly when no line names a numeric tag.
pub proof fn lemma_latest_of_is_first_greatest(lines: Seq<Seq<char>>)
    ensures
        latest_of(lines) is None <==> forall|i: int|
            0 <= i < lines.len() ==> #[trigger] numeric_tag_of_line(lines[i]) is None,
        latest_of(lines) matches Some((key, tag)) ==> exists|j: int|
            0 <= j < lines.len() && #[trigger] numeric_tag_of_line(lines[j]) == Some((key, tag))
                && first_greatest_at(lines, j, key),
    decreases lines.len(),
{
    if lines.len() > 0 {
        let pre = lines.drop_last();
        let n = lines.len() - 1;
        lemma_latest_of_is_first_greatest(pre);
        assert forall|i: int| 0 <= i < n implies lines[i] == pre[i] by {}
        match numeric_tag_of_line(lines.last()) {
            None => {
                if let Some((key, tag)) = latest_of(pre) {
                    let j = choose|j: int|
                        0 <= j < pre.len() && #[trigger] numeric_tag_of_line(pre[j]) == Some((key, tag))
                            && first_greatest_at(pre, j, key);
                    assert(numeric_tag_of_line(lines[j]) == Some((key, tag)));
                    assert(first_greatest_at(lines, j, key));
                } else {
                    assert forall|i: int| 0 <= i < lines.len() implies #[trigger] numeric_tag_of_line(lines[i]) is None by {
                        if i < n {
                            assert(numeric_tag_of_line(pre[i]) is None);
                        }
                    }
                }
            },
            Some((key, tag)) => {
                assert(numeric_tag_of_line(lines[n]) == Some((key, tag)));
                match latest_of(pre) {
                    None => {
                        assert forall|i: int| 0 <= i < n implies #[trigger] numeric_tag_of_line(lines[i]) is None by {
                            assert(numeric_tag_of_line(pre[i]) is None);
                        }
                        lemma_compare_equal_iff_padded(key, key);
                        assert(first_greatest_at(lines, n, key));
                    },
                    Some((bk, bt)) => {
                        let j = choose|j: int|
                            0 <= j < pre.len() && #[trigger] numeric_tag_of_line(pre[j]) == Some((bk, bt))
                                && first_greatest_at(pre, j, bk);
                        lemma_compare_antisymmetric(key, bk);
                        if compare_keys(key, bk) == VersionOrder::Greater {
                            assert forall|i: int| 0 <= i < lines.len() implies (#[trigger] numeric_tag_of_line(lines[i]) matches Some((k, t)) ==> compare_keys(k, key) == VersionOrder::Less) || i == n by {
                                if i < n {
                                    assert(numeric_tag_of_line(pre[i]) == numeric_tag_of_line(lines[i]));
                                    if let Some((k, t)) = numeric_tag_of_line(lines[i]) {
                                        lemma_compare_transitive(k, bk, key);
                                    }
                                }
                            }
                            lemma_compare_equal_iff_padded(key, key);
                            assert(first_greatest_at(lines, n, key));
                        } else {
                            assert(numeric_tag_of_line(lines[j]) == Some((bk, bt)));
                            assert forall|i: int| 0 <= i < lines.len() implies (#[trigger] numeric_tag_of_line(lines[i]) matches Some((k, t)) ==> compare_keys(k, bk) != VersionOrder::Greater) by {
                                if i < n {
                                    assert(numeric_tag_of_line(pre[i]) == numeric_tag_of_line(lines[i]));
                                }
                            }
                            assert forall|i: int| 0 <= i < j implies (#[trigger] numeric_tag_of_line(lines[i]) matches Some((k, t)) ==> compare_keys(k, bk) == VersionOrder::Less) by {
                                assert(numeric_tag_of_line(pre[i]) == numeric_tag_of_line(lines[i]));
                            }
                            assert(first_greatest_at(lines, j, bk));
                        }
                    },
                }
            },
        }
    }
}

/// The tag that `latest_numeric_tag` picks from a listing is a numeric tag
/// of greatest key among the listed ones, the first such listed; it picks
/// none exactly when no line names a numeric tag.
pub proof fn lemma_latest_tag_is_first_greatest(listing: Seq<char>)
    ensures
        latest_tag_spec(listing) is None <==> forall|i: int|
            0 <= i < lines_spec(listing).len() ==> #[trigger] numeric_tag_of_line(
                lines_spec(listing)[i],
            ) is None,
        latest_tag_spec(listing) matches Some(tag) ==> exists|j: int, key: Seq<u64>|
            #![trigger first_greatest_at(lines_spec(listing), j, key)]
            0 <= j < lines_spec(listing).len() && numeric_tag_of_line(lines_spec(listing)[j])
                == Some((key, tag)) && first_greatest_at(lines_spec(listing), j, key),
{
    lemma_latest_of_is_first_greatest(lines_spec(listing));
}


/// Why a version could not be had.
#[derive(Debug)]
pub enum VersionError {
    /// The version given through `source` (an option name, or the SDK
    /// version to write) is empty once trimmed.
    Empty { source: String },
    /// The version file holds no version line.
    EmptyFile,
    /// The tag listing names no numeric tag.
    NoNumericTags,
}

/// The text after the option or value that was empty.
pub const EMPTY_VERSION_MESSAGE_TAIL: &'static str = " cannot be empty";

/// The text after the path of an empty version file.
pub const EMPTY_FILE_MESSAGE_TAIL: &'static str = " is empty";

/// The text before the repository whose listing had no numeric tag.
pub const NO_NUMERIC_TAGS_MESSAGE_HEAD: &'static str = "no numeric SDK tags found in ";

impl VersionError {
    /// What the tool says of this error, given the version file's path as
    /// shown to the user and the SDK repository that was asked for tags.
    pub fn message(&self, file: &str, sdk_repo: &str) -> (res: String)
        ensures
            res@ == match *self {
                VersionError::Empty { source } => source@ + EMPTY_VERSION_MESSAGE_TAIL@,
                VersionError::EmptyFile => file@ + EMPTY_FILE_MESSAGE_TAIL@,
                VersionError::NoNumericTags => NO_NUMERIC_TAGS_MESSAGE_HEAD@ + sdk_repo@,
            },
    {
        match self {
            VersionError::Empty { source } => {
                let mut out = String::from_str(source.as_str());
                out.append(EMPTY_VERSION_MESSAGE_TAIL);
                out
            },
            VersionError::EmptyFile => {
                let mut out = String::from_str(file);
                out.append(EMPTY_FILE_MESSAGE_TAIL);
                out
            },
            VersionError::NoNumericTags => {
                let mut out = String::from_str(NO_NUMERIC_TAGS_MESSAGE_HEAD);
                out.append(sdk_repo);
                out
            },
        }
    }
}

/// `version` without surrounding whitespace, or an error naming `source`
/// when nothing is left.
pub fn non_empty_version(version: &str, source: &str) -> (res: Result<String, VersionError>)
    ensures
        match res {
            Ok(v) => trim_spec(version@).len() > 0 && v@ == trim_spec(version@),
            Err(e) => trim_spec(version@).len() == 0 && (e matches VersionError::Empty { source: s }
                && s@ == source@),
        },
{
    let chars = chars_of(version);
    let trimmed = trim(&chars);
    if trimmed.len() == 0 {
        Err(VersionError::Empty { source: source.to_string() })
    } else {
        Ok(string_of(&trimmed))
    }
}


/// What a line of the version file says: the text before any `'#'`,
/// trimmed.
pub open spec fn version_line_value(line: Seq<char>) -> Seq<char> {
    trim_spec(split_spec(line, '#')[0])
}

/// The first of `lines` that says something.
pub open spec fn first_version_in(lines: Seq<Seq<char>>) -> Option<Seq<char>>
    decreases lines.len(),
{
    if lines.len() == 0 {
        None
    } else if version_line_value(lines[0]).len() > 0 {
        Some(version_line_value(lines[0]))
    } else {
        first_version_in(lines.drop_first())
    }
}

/// The version that the text of a version file holds: its first line that
/// is not empty once comments (from `'#'` on) and surrounding whitespace are
/// removed.
pub open spec fn version_in_text(text: Seq<char>) -> Option<Seq<char>> {
    first_version_in(lines_spec(text))
}

/// Reads the version out of the text of a `.danmuji-version` file; `None`
/// when no line holds one.
pub fn parse_version_text(text: &str) -> (res: Option<String>)
    ensures
        match res {
            Some(v) => version_in_text(text@) == Some(v@),
            None => version_in_text(text@) is None,
        },
{
    let chars = chars_of(text);
    let ls = lines(&chars);
    let ghost lv = lines_spec(text@);
    let n = ls.len();
    assert(lv.skip(0) =~= lv);
    for i in 0..n
        invariant
            n == ls@.len(),
            views(ls@) == lv,
            lv == lines_spec(text@),
            first_version_in(lv) == first_version_in(lv.skip(i as int)),
    {
        let parts = split_on(&ls[i], '#');
        proof {
            lemma_split_nonempty(ls@[i as int]@, '#');
        }
        assert(parts@[0]@ == split_spec(ls@[i as int]@, '#')[0]);
        let value = trim(&parts[0]);
        let ghost rest = lv.skip(i as int);
        assert(rest[0] == lv[i as int]);
        assert(rest.drop_first() =~= lv.skip(i + 1));
        assert(rest.len() > 0);
        assert(version_line_value(rest[0]) == value@);
        if value.len() > 0 {
            assert(first_version_in(rest) == Some(value@));
            let out = string_of(&value);
            assert(version_in_text(text@) == Some(out@));
            return Some(out);
        }
    }
    assert(lv.skip(n as int) =~= Seq::<Seq<char>>::empty());
    None
}

/// The text written to a `.danmuji-version` file for `sdk_version`: the
/// trimmed version and a line ending; an error when the trimmed version is
/// empty.
pub fn version_file_contents(sdk_version: &str) -> (res: Result<String, VersionError>)
    ensures
        match res {
            Ok(c) => trim_spec(sdk_version@).len() > 0 && c@ == trim_spec(sdk_version@).push('\n'),
            Err(e) => trim_spec(sdk_version@).len() == 0 && (e matches VersionError::Empty { source: s }
                && s@ == "sdk version"@),
        },
{
    let version = non_empty_version(sdk_version, "sdk version")?;
    let mut chars = chars_of(version.as_str());
    chars.push('\n');
    Ok(string_of(&chars))
}


/// What is written to the version file is read back: for a version whose
/// trimmed text holds no line break and no `'#'`, reading the text that
/// `version_file_contents` writes gives the trimmed version.
pub proof fn lemma_version_file_round_trip(sdk_version: Seq<char>)
    requires
        trim_spec(sdk_version).len() > 0,
        !trim_spec(sdk_version).contains('\n'),
        !trim_spec(sdk_version).contains('#'),
    ensures
        version_in_text(trim_spec(sdk_version).push('\n')) == Some(trim_spec(sdk_version)),
{
    let t = trim_spec(sdk_version);
    lemma_trim_ends(sdk_version);
    assert(is_space_char('\r'));
    assert forall|i: int| 0 <= i < t.len() implies t[i] != '\n' by {
        if t[i] == '\n' {
            assert(t.contains('\n'));
        }
    }
    assert forall|i: int| 0 <= i < t.len() implies t[i] != '#' by {
        if t[i] == '#' {
            assert(t.contains('#'));
        }
    }
    lemma_single_line(t);
    lemma_split_without_sep(t, '#');
    lemma_trim_idempotent(sdk_version);
    let ls = lines_spec(t.push('\n'));
    assert(ls[0] == t);
    assert(version_line_value(ls[0]) == t);
}


/// When every piece is made of digits, every character is a digit or the
/// separator.
proof fn lemma_split_digits(s: Seq<char>, sep: char)
    requires
        forall|i: int| 0 <= i < split_spec(s, sep).len() ==> all_digits(#[trigger] split_spec(s, sep)[i]),
    ensures
        forall|i: int| 0 <= i < s.len() ==> #[trigger] s[i] == sep || is_digit_char(s[i]),
    decreases s.len(),
{
    if s.len() > 0 {
        let prev = split_spec(s.drop_last(), sep);
        let cur = split_spec(s, sep);
        lemma_split_nonempty(s.drop_last(), sep);
        if s.last() == sep {
            assert forall|i: int| 0 <= i < prev.len() implies all_digits(#[trigger] prev[i]) by {
                assert(cur[i] == prev[i]);
            }
        } else {
            let k = prev.len() - 1;
            assert forall|i: int| 0 <= i < prev.len() implies all_digits(#[trigger] prev[i]) by {
                if i == k {
                    assert(cur[k] == prev[k].push(s.last()));
                    assert(all_digits(cur[k]));
                    assert forall|j: int| 0 <= j < prev[k].len() implies is_digit_char(#[trigger] prev[k][j]) by {
                        assert(cur[k][j] == prev[k][j]);
                    }
                } else {
                    assert(cur[i] == prev[i]);
                }
            }
            assert(cur[k] == prev[k].push(s.last()));
            assert(all_digits(cur[k]));
            assert(cur[k][cur[k].len() - 1] == s.last());
        }
        lemma_split_digits(s.drop_last(), sep);
        assert forall|i: int| 0 <= i < s.len() implies #[trigger] s[i] == sep || is_digit_char(s[i]) by {
            if i < s.len() - 1 {
                assert(s[i] == s.drop_last()[i]);
            }
        }
    }
}

/// A numeric tag is not empty and holds only digits, dots and a leading
/// `'v'`.
proof fn lemma_numeric_tag_chars(tag: Seq<char>)
    requires
        numeric_tag_key_spec(tag) is Some,
    ensures
        tag.len() > 0,
        forall|i: int|
            0 <= i < tag.len() ==> #[trigger] tag[i] == '.' || is_digit_char(tag[i]) || (i == 0
                && tag[i] == 'v'),
{
    let body = strip_v_spec(tag);
    let parts = split_spec(body, '.');
    lemma_split_nonempty(body, '.');
    assert(is_numeric_part(parts[0]));
    if body.len() == 0 {
        assert(parts =~= seq![Seq::<char>::empty()]);
        assert(false);
    }
    lemma_split_digits(body, '.');
    assert forall|i: int| 0 <= i < tag.len() implies #[trigger] tag[i] == '.' || is_digit_char(tag[i]) || (i == 0 && tag[i] == 'v') by {
        if tag.len() > 0 && tag[0] == 'v' {
            if i > 0 {
                assert(tag[i] == body[i - 1]);
            }
        } else {
            assert(tag[i] == body[i]);
        }
    }
}

/// A text without `White_Space` is its own trimmed form.
proof fn lemma_trim_no_space(t: Seq<char>)
    requires
        forall|i: int| 0 <= i < t.len() ==> !is_space_char(#[trigger] t[i]),
    ensures
        trim_spec(t) == t,
{
    if t.len() > 0 {
        assert(!is_space_char(t[0]));
        assert(trim_start_spec(t) == t);
        assert(!is_space_char(t[t.len() - 1]));
    }
}

/// A tag picked from a listing is not empty, holds no `White_Space`, no line
/// break and no `'#'`.
pub proof fn lemma_latest_tag_is_plain(listing: Seq<char>)
    requires
        latest_tag_spec(listing) is Some,
    ensures
        ({
            let t = latest_tag_spec(listing)->0;
            &&& t.len() > 0
            &&& trim_spec(t) == t
            &&& !t.contains('\n')
            &&& !t.contains('#')
        }),
{
    let t = latest_tag_spec(listing)->0;
    lemma_latest_tag_is_first_greatest(listing);
    let ls = lines_spec(listing);
    let (j, key) = choose|j: int, key: Seq<u64>|
        #![trigger first_greatest_at(lines_spec(listing), j, key)]
        0 <= j < lines_spec(listing).len() && numeric_tag_of_line(lines_spec(listing)[j]) == Some((key, t))
            && first_greatest_at(lines_spec(listing), j, key);
    lemma_numeric_tag_chars(t);
    assert forall|i: int| 0 <= i < t.len() implies !is_space_char(#[trigger] t[i]) by {
        assert(t[i] == '.' || is_digit_char(t[i]) || t[i] == 'v');
    }
    lemma_trim_no_space(t);
    if t.contains('\n') {
        let i = choose|i: int| 0 <= i < t.len() && t[i] == '\n';
        assert(t[i] == '.' || is_digit_char(t[i]) || (i == 0 && t[i] == 'v'));
    }
    if t.contains('#') {
        let i = choose|i: int| 0 <= i < t.len() && t[i] == '#';
        assert(t[i] == '.' || is_digit_char(t[i]) || (i == 0 && t[i] == 'v'));
    }
}

} // verus!
