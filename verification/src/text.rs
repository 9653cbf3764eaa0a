//! Character-sequence helpers with their mathematical meaning.
//!
//! Strings are reasoned about through their view, the sequence of their
//! Unicode scalar values (`Seq<char>`).
use vstd::prelude::*;

verus! {

// ---------------------------------------------------------------------------
// Specifications
// ---------------------------------------------------------------------------

/// `p` is a prefix of `s`.
pub open spec fn has_prefix(s: Seq<char>, p: Seq<char>) -> bool {
    p.len() <= s.len() && s.take(p.len() as int) == p
}

/// `p` is a suffix of `s`.
pub open spec fn has_suffix(s: Seq<char>, p: Seq<char>) -> bool {
    p.len() <= s.len() && s.skip(s.len() - p.len()) == p
}

/// `p` occurs in `s` starting at position `i`.
pub open spec fn occurs_at(s: Seq<char>, p: Seq<char>, i: int) -> bool {
    0 <= i && i + p.len() <= s.len() && s.subrange(i, i + p.len()) == p
}

/// `p` occurs somewhere in `s`.
pub open spec fn has_infix(s: Seq<char>, p: Seq<char>) -> bool {
    exists|i: int| occurs_at(s, p, i)
}

/// An ASCII upper-case letter.
pub open spec fn is_ascii_upper(c: char) -> bool {
    'A' <= c && c <= 'Z'
}

/// `c` and `d` are the same character when ASCII letters are compared
/// without regard to case.
pub open spec fn same_ignoring_ascii_case(c: char, d: char) -> bool {
    ||| c == d
    ||| is_ascii_upper(c) && (c as int) + 32 == (d as int)
    ||| is_ascii_upper(d) && (d as int) + 32 == (c as int)
}

/// `p` occurs in `s` at position `i` when ASCII letters are compared without
/// regard to case.
pub open spec fn occurs_at_ignoring_ascii_case(s: Seq<char>, p: Seq<char>, i: int) -> bool {
    &&& 0 <= i
    &&& i + p.len() <= s.len()
    &&& forall|j: int| 0 <= j < p.len() ==> #[trigger] same_ignoring_ascii_case(s[i + j], p[j])
}

/// `p` occurs somewhere in `s` when ASCII letters are compared without regard
/// to case.
pub open spec fn has_infix_ignoring_ascii_case(s: Seq<char>, p: Seq<char>) -> bool {
    exists|i: int| occurs_at_ignoring_ascii_case(s, p, i)
}

/// Unicode `White_Space`, the characters that `char::is_whitespace` accepts.
pub open spec fn is_white_space(c: char) -> bool {
    ||| '\u{9}' <= c && c <= '\u{d}'
    ||| c == ' '
    ||| c == '\u{85}'
    ||| c == '\u{a0}'
    ||| c == '\u{1680}'
    ||| '\u{2000}' <= c && c <= '\u{200a}'
    ||| c == '\u{2028}'
    ||| c == '\u{2029}'
    ||| c == '\u{202f}'
    ||| c == '\u{205f}'
    ||| c == '\u{3000}'
}

/// Every character of `s` is white space.
pub open spec fn all_white_space(s: Seq<char>) -> bool {
    forall|i: int| 0 <= i < s.len() ==> #[trigger] is_white_space(s[i])
}

/// `s` without its leading white space.
pub open spec fn trim_start(s: Seq<char>) -> Seq<char>
    decreases s.len(),
{
    if s.len() > 0 && is_white_space(s[0]) {
        trim_start(s.drop_first())
    } else {
        s
    }
}

/// `s` without its trailing white space.
pub open spec fn trim_end(s: Seq<char>) -> Seq<char>
    decreases s.len(),
{
    if s.len() > 0 && is_white_space(s.last()) {
        trim_end(s.drop_last())
    } else {
        s
    }
}

/// `s` without its leading and trailing white space (`str::trim`).
pub open spec fn trim(s: Seq<char>) -> Seq<char> {
    trim_end(trim_start(s))
}

/// `s` with every occurrence of `from` replaced by `to`, the occurrences
/// taken from left to right without overlap (`str::replace`).
pub open spec fn replace_all(s: Seq<char>, from: Seq<char>, to: Seq<char>) -> Seq<char>
    decreases s.len(),
{
    if from.len() == 0 || s.len() < from.len() {
        s
    } else if s.take(from.len() as int) == from {
        to + replace_all(s.skip(from.len() as int), from, to)
    } else {
        seq![s[0]] + replace_all(s.drop_first(), from, to)
    }
}

/// The views of a sequence of strings.
pub open spec fn views(v: Seq<String>) -> Seq<Seq<char>> {
    v.map_values(|s: String| s@)
}

/// The items of `items` written one after another with `sep` between them.
pub open spec fn join(items: Seq<Seq<char>>, sep: Seq<char>) -> Seq<char>
    decreases items.len(),
{
    if items.len() == 0 {
        seq![]
    } else if items.len() == 1 {
        items[0]
    } else {
        join(items.drop_last(), sep) + sep + items.last()
    }
}

// ---------------------------------------------------------------------------
// Lemmas
// ---------------------------------------------------------------------------

/// Leading white space does not change what `trim_start` leaves.
pub proof fn lemma_trim_start_white_prefix(w: Seq<char>, s: Seq<char>)
    requires
        all_white_space(w),
    ensures
        trim_start(w + s) == trim_start(s),
    decreases w.len(),
{
    if w.len() > 0 {
        assert((w + s).drop_first() =~= w.drop_first() + s);
        lemma_trim_start_white_prefix(w.drop_first(), s);
    } else {
        assert(w + s =~= s);
    }
}

/// Trailing white space does not change what `trim_end` leaves.
pub proof fn lemma_trim_end_white_suffix(s: Seq<char>, w: Seq<char>)
    requires
        all_white_space(w),
    ensures
        trim_end(s + w) == trim_end(s),
    decreases w.len(),
{
    if w.len() > 0 {
        assert((s + w).drop_last() =~= s + w.drop_last());
        assert((s + w).last() == w.last());
        lemma_trim_end_white_suffix(s, w.drop_last());
    } else {
        assert(s + w =~= s);
    }
}

/// What `trim_start` leaves is empty or starts with a character that is not
/// white space, and it is a suffix of its argument.
pub proof fn lemma_trim_start_shape(s: Seq<char>)
    ensures
        trim_start(s).len() == 0 || !is_white_space(trim_start(s)[0]),
        trim_start(s).len() <= s.len(),
        trim_start(s) == s.skip(s.len() - trim_start(s).len()),
        all_white_space(s.take(s.len() - trim_start(s).len())),
    decreases s.len(),
{
    if s.len() > 0 && is_white_space(s[0]) {
        lemma_trim_start_shape(s.drop_first());
        let t = trim_start(s.drop_first());
        assert(s.drop_first().skip(s.drop_first().len() - t.len()) =~= s.skip(s.len() - t.len()));
        assert forall|i: int| 0 <= i < s.len() - t.len() implies #[trigger] is_white_space(
            s.take(s.len() - t.len())[i],
        ) by {
            if i > 0 {
                assert(s.take(s.len() - t.len())[i] == s.drop_first().take(
                    s.drop_first().len() - t.len(),
                )[i - 1]);
            }
        }
    } else {
        assert(s.skip(0) =~= s);
    }
}

/// What `trim_end` leaves is empty or ends with a character that is not
/// white space, and it is a prefix of its argument.
pub proof fn lemma_trim_end_shape(s: Seq<char>)
    ensures
        trim_end(s).len() == 0 || !is_white_space(trim_end(s).last()),
        trim_end(s).len() <= s.len(),
        trim_end(s) == s.take(trim_end(s).len() as int),
        all_white_space(s.skip(trim_end(s).len() as int)),
    decreases s.len(),
{
    if s.len() > 0 && is_white_space(s.last()) {
        lemma_trim_end_shape(s.drop_last());
        let t = trim_end(s.drop_last());
        assert(s.drop_last().take(t.len() as int) =~= s.take(t.len() as int));
        assert forall|i: int| 0 <= i < s.len() - t.len() implies #[trigger] is_white_space(
            s.skip(t.len() as int)[i],
        ) by {
            if i < s.len() - t.len() - 1 {
                assert(s.skip(t.len() as int)[i] == s.drop_last().skip(t.len() as int)[i]);
            }
        }
    } else {
        assert(s.take(s.len() as int) =~= s);
    }
}

/// `trim_start` leaves a sequence that does not start with white space
/// unchanged.
pub proof fn lemma_trim_start_fixed(s: Seq<char>)
    requires
        s.len() == 0 || !is_white_space(s[0]),
    ensures
        trim_start(s) == s,
{
}

/// `trim_end` leaves a sequence that does not end with white space unchanged.
pub proof fn lemma_trim_end_fixed(s: Seq<char>)
    requires
        s.len() == 0 || !is_white_space(s.last()),
    ensures
        trim_end(s) == s,
{
}

/// Removing trailing white space keeps a first character that is not white
/// space.
pub proof fn lemma_trim_end_keeps_start(s: Seq<char>)
    requires
        s.len() == 0 || !is_white_space(s[0]),
    ensures
        trim_end(s).len() == 0 || !is_white_space(trim_end(s)[0]),
    decreases s.len(),
{
    if s.len() > 0 && is_white_space(s.last()) {
        lemma_trim_end_keeps_start(s.drop_last());
    }
}

/// Trimming twice is the same as trimming once.
pub proof fn lemma_trim_idempotent(s: Seq<char>)
    ensures
        trim(trim(s)) == trim(s),
{
    let t = trim(s);
    lemma_trim_start_shape(s);
    lemma_trim_end_keeps_start(trim_start(s));
    lemma_trim_start_fixed(t);
    lemma_trim_end_shape(trim_start(s));
    lemma_trim_end_fixed(t);
}

/// Leading and trailing white space around `s` does not change `trim(s)`.
pub proof fn lemma_trim_ignores_surrounding_white_space(w1: Seq<char>, s: Seq<char>, w2: Seq<char>)
    requires
        all_white_space(w1),
        all_white_space(w2),
    ensures
        trim(w1 + s + w2) == trim(s),
{
    assert(w1 + s + w2 =~= w1 + (s + w2));
    lemma_trim_start_white_prefix(w1, s + w2);
    // trim_start(s + w2) is either empty (when s is all white space) or
    // trim_start(s) + w2.
    lemma_trim_start_shape(s);
    let k = s.len() - trim_start(s).len();
    assert((s + w2).take(k) =~= s.take(k));
    lemma_trim_start_skip(s + w2, k);
    assert((s + w2).skip(k) =~= trim_start(s) + w2);
    if trim_start(s).len() == 0 {
        assert(trim_start(s) + w2 =~= w2);
        lemma_trim_start_all_white(w2);
        lemma_trim_end_fixed(trim_start(s));
    } else {
        lemma_trim_start_fixed(trim_start(s) + w2);
        lemma_trim_end_white_suffix(trim_start(s), w2);
    }
}

/// A sequence of white space trims to nothing at the start.
pub proof fn lemma_trim_start_all_white(w: Seq<char>)
    requires
        all_white_space(w),
    ensures
        trim_start(w).len() == 0,
    decreases w.len(),
{
    if w.len() > 0 {
        lemma_trim_start_all_white(w.drop_first());
    }
}

/// Skipping `k` leading characters of white space does not change
/// `trim_start`.
pub proof fn lemma_trim_start_skip(s: Seq<char>, k: int)
    requires
        0 <= k <= s.len(),
        all_white_space(s.take(k)),
    ensures
        trim_start(s) == trim_start(s.skip(k)),
{
    assert(s =~= s.take(k) + s.skip(k));
    lemma_trim_start_white_prefix(s.take(k), s.skip(k));
}

/// One step of `replace_all` on a sequence at least as long as `from`.
pub proof fn lemma_replace_all_step(s: Seq<char>, from: Seq<char>, to: Seq<char>)
    requires
        from.len() > 0,
        s.len() >= from.len(),
    ensures
        s.take(from.len() as int) == from ==> replace_all(s, from, to) == to + replace_all(
            s.skip(from.len() as int),
            from,
            to,
        ),
        s.take(from.len() as int) != from ==> replace_all(s, from, to) == seq![s[0]]
            + replace_all(s.drop_first(), from, to),
{
}

/// A template in which `from` does not occur is left unchanged by
/// `replace_all`.
pub proof fn lemma_replace_all_absent(s: Seq<char>, from: Seq<char>, to: Seq<char>)
    requires
        from.len() > 0,
        !has_infix(s, from),
    ensures
        replace_all(s, from, to) == s,
    decreases s.len(),
{
    if s.len() >= from.len() {
        if s.take(from.len() as int) == from {
            assert(occurs_at(s, from, 0));
        }
        assert(!has_infix(s.drop_first(), from)) by {
            if has_infix(s.drop_first(), from) {
                let i = choose|i: int| occurs_at(s.drop_first(), from, i);
                assert(s.subrange(i + 1, i + 1 + from.len()) =~= s.drop_first().subrange(
                    i,
                    i + from.len(),
                ));
                assert(occurs_at(s, from, i + 1));
            }
        }
        lemma_replace_all_absent(s.drop_first(), from, to);
        assert(seq![s[0]] + s.drop_first() =~= s);
    }
}

/// No occurrence of `from` starts inside `x`, whatever follows `x`.
pub open spec fn closed_prefix(x: Seq<char>, from: Seq<char>) -> bool {
    forall|y: Seq<char>, i: int| 0 <= i < x.len() ==> !#[trigger] occurs_at(x + y, from, i)
}

/// A sequence without the first character of `from` is a closed prefix.
pub proof fn lemma_closed_prefix_without_first(x: Seq<char>, from: Seq<char>)
    requires
        from.len() > 0,
        forall|i: int| 0 <= i < x.len() ==> x[i] != from[0],
    ensures
        closed_prefix(x, from),
{
    assert forall|y: Seq<char>, i: int| 0 <= i < x.len() implies !#[trigger] occurs_at(
        x + y,
        from,
        i,
    ) by {
        if occurs_at(x + y, from, i) {
            assert((x + y).subrange(i, i + from.len())[0] == from[0]);
        }
    }
}

/// A closed prefix followed by characters other than the first of `from` is
/// a closed prefix.
pub proof fn lemma_closed_prefix_extend_free(x: Seq<char>, z: Seq<char>, from: Seq<char>)
    requires
        from.len() > 0,
        closed_prefix(x, from),
        forall|i: int| 0 <= i < z.len() ==> z[i] != from[0],
    ensures
        closed_prefix(x + z, from),
{
    assert forall|y: Seq<char>, i: int| 0 <= i < (x + z).len() implies !#[trigger] occurs_at(
        (x + z) + y,
        from,
        i,
    ) by {
        assert((x + z) + y =~= x + (z + y));
        if i < x.len() {
            assert(!occurs_at(x + (z + y), from, i));
        } else if occurs_at((x + z) + y, from, i) {
            assert(((x + z) + y).subrange(i, i + from.len())[0] == from[0]);
            assert(((x + z) + y)[i] == z[i - x.len()]);
        }
    }
}

/// A closed prefix, then a piece in which `from` does not occur, then a
/// character that `from` does not hold, is a closed prefix.
pub proof fn lemma_closed_prefix_extend_piece(x: Seq<char>, p: Seq<char>, c: char, from: Seq<char>)
    requires
        from.len() > 0,
        closed_prefix(x, from),
        !has_infix(p, from),
        !from.contains(c),
    ensures
        closed_prefix(x + p + seq![c], from),
{
    let xp = x + p + seq![c];
    assert forall|y: Seq<char>, i: int| 0 <= i < xp.len() implies !#[trigger] occurs_at(
        xp + y,
        from,
        i,
    ) by {
        let s = xp + y;
        let m = from.len() as int;
        let k = (x.len() + p.len()) as int;
        assert(s =~= x + (p + seq![c] + y));
        if i < x.len() {
            assert(!occurs_at(x + (p + seq![c] + y), from, i));
        } else if occurs_at(s, from, i) {
            assert(s[k] == c);
            if i + m <= k {
                assert(s.subrange(i, i + m) =~= p.subrange(i - x.len(), i - x.len() + m));
                assert(occurs_at(p, from, i - x.len()));
            } else {
                assert(s.subrange(i, i + m)[k - i] == from[k - i]);
                assert(from[k - i] == c);
            }
        }
    }
}

/// Replacing in a closed prefix followed by `y` keeps the prefix.
pub proof fn lemma_replace_all_closed_prefix(x: Seq<char>, y: Seq<char>, from: Seq<char>, to: Seq<char>)
    requires
        from.len() > 0,
        closed_prefix(x, from),
    ensures
        replace_all(x + y, from, to) == x + replace_all(y, from, to),
    decreases x.len(),
{
    if x.len() == 0 {
        assert(x + y =~= y);
        assert(x + replace_all(y, from, to) =~= replace_all(y, from, to));
    } else {
        let s = x + y;
        let m = from.len() as int;
        let x1 = x.drop_first();
        assert(closed_prefix(x1, from)) by {
            assert forall|z: Seq<char>, i: int| 0 <= i < x1.len() implies !#[trigger] occurs_at(
                x1 + z,
                from,
                i,
            ) by {
                assert(!occurs_at(x + z, from, i + 1));
                if occurs_at(x1 + z, from, i) {
                    assert((x + z).subrange(i + 1, i + 1 + m) =~= (x1 + z).subrange(i, i + m));
                }
            }
        }
        lemma_replace_all_closed_prefix(x1, y, from, to);
        assert(s.drop_first() =~= x1 + y);
        if s.len() < m {
            lemma_replace_all_short(y, from, to);
            lemma_replace_all_short(x1 + y, from, to);
            assert(x + y =~= seq![x[0]] + (x1 + y));
        } else {
            assert(!occurs_at(x + y, from, 0));
            assert(s.subrange(0, m) =~= s.take(m));
            assert(x + replace_all(y, from, to) =~= seq![x[0]] + (x1 + replace_all(y, from, to)));
        }
    }
}

/// A sequence shorter than `from` is left unchanged.
pub proof fn lemma_replace_all_short(s: Seq<char>, from: Seq<char>, to: Seq<char>)
    requires
        s.len() < from.len(),
    ensures
        replace_all(s, from, to) == s,
{
}

// ---------------------------------------------------------------------------
// Executable helpers
// ---------------------------------------------------------------------------

/// The characters of `s`, in order.
pub fn chars_of(s: &str) -> (v: Vec<char>)
    ensures
        v@ == s@,
{
    let mut v: Vec<char> = Vec::new();
    for c in it: s.chars()
        invariant
            v@ == it.seq().take(it.index() as int),
    {
        v.push(c);
    }
    v
}

/// Whether `a` and `b` hold the same characters.
pub fn same_text(a: &str, b: &str) -> (r: bool)
    ensures
        r == (a@ == b@),
{
    let x = chars_of(a);
    let y = chars_of(b);
    if x.len() != y.len() {
        return false;
    }
    let mut i: usize = 0;
    while i < x.len()
        invariant
            x@ == a@,
            y@ == b@,
            x.len() == y.len(),
            i <= x.len(),
            forall|j: int| 0 <= j < i ==> x@[j] == y@[j],
        decreases x.len() - i,
    {
        if x[i] != y[i] {
            return false;
        }
        i = i + 1;
    }
    assert(a@ =~= b@);
    true
}

/// Whether `p` occurs in `s` at position `i` (on character vectors).
fn occurs_at_exec(s: &Vec<char>, p: &Vec<char>, i: usize) -> (r: bool)
    requires
        i <= s.len(),
    ensures
        r == occurs_at(s@, p@, i as int),
{
    if p.len() > s.len() - i {
        return false;
    }
    let mut j: usize = 0;
    while j < p.len()
        invariant
            i + p.len() <= s.len(),
            j <= p.len(),
            forall|k: int| 0 <= k < j ==> s@[i + k] == p@[k],
        decreases p.len() - j,
    {
        if s[i + j] != p[j] {
            assert(s@.subrange(i as int, i + p.len())[j as int] != p@[j as int]);
            return false;
        }
        j = j + 1;
    }
    assert(s@.subrange(i as int, i + p.len()) =~= p@);
    true
}

/// Whether `s` starts with `p` (`str::starts_with`).
pub fn starts_with(s: &str, p: &str) -> (r: bool)
    ensures
        r == has_prefix(s@, p@),
{
    let x = chars_of(s);
    let y = chars_of(p);
    let r = occurs_at_exec(&x, &y, 0);
    proof {
        if y.len() <= x.len() {
            assert(x@.subrange(0, y.len() as int) =~= x@.take(y.len() as int));
        }
    }
    r
}

/// Whether `c` and `d` are the same character when ASCII letters are
/// compared without regard to case.
fn same_char_ignoring_ascii_case(c: char, d: char) -> (r: bool)
    ensures
        r == same_ignoring_ascii_case(c, d),
{
    let x: u32 = c as u32;
    let y: u32 = d as u32;
    x == y || (65 <= x && x <= 90 && x + 32 == y) || (65 <= y && y <= 90 && y + 32 == x)
}

/// Whether `p` occurs in `s` when ASCII letters are compared without regard
/// to case.
pub fn contains_ignoring_ascii_case(s: &str, p: &str) -> (r: bool)
    ensures
        r == has_infix_ignoring_ascii_case(s@, p@),
{
    let x = chars_of(s);
    let y = chars_of(p);
    if y.len() > x.len() {
        assert forall|i: int| !occurs_at_ignoring_ascii_case(s@, p@, i) by {}
        return false;
    }
    let mut i: usize = 0;
    while i <= x.len() - y.len()
        invariant
            x@ == s@,
            y@ == p@,
            y.len() <= x.len(),
            forall|k: int| 0 <= k < i ==> !occurs_at_ignoring_ascii_case(s@, p@, k),
        decreases x.len() - y.len() + 1 - i,
    {
        let mut j: usize = 0;
        let mut all = true;
        while j < y.len()
            invariant
                x@ == s@,
                y@ == p@,
                i + y.len() <= x.len(),
                j <= y.len(),
                all ==> forall|k: int| 0 <= k < j ==> same_ignoring_ascii_case(s@[i + k], p@[k]),
                !all ==> !occurs_at_ignoring_ascii_case(s@, p@, i as int),
            decreases y.len() - j,
        {
            if all && !same_char_ignoring_ascii_case(x[i + j], y[j]) {
                all = false;
            }
            j = j + 1;
        }
        if all {
            assert(occurs_at_ignoring_ascii_case(s@, p@, i as int));
            return true;
        }
        i = i + 1;
    }
    assert forall|k: int| !occurs_at_ignoring_ascii_case(s@, p@, k) by {
        if 0 <= k < i {
        }
    }
    false
}

/// `s` without the prefix `p`, or `None` when `s` does not start with `p`
/// (`str::strip_prefix`).
pub fn strip_prefix<'a>(s: &'a str, p: &str) -> (r: Option<&'a str>)
    ensures
        r is Some <==> has_prefix(s@, p@),
        r matches Some(rest) ==> rest@ == s@.skip(p@.len() as int),
{
    if starts_with(s, p) {
        let n = s.unicode_len();
        let m = p.unicode_len();
        Some(s.substring_char(m, n))
    } else {
        None
    }
}

/// `s` without its leading and trailing white space (`str::trim`).
pub fn trim_text(s: &str) -> (r: &str)
    ensures
        r@ == trim(s@),
{
    let x = chars_of(s);
    let n = x.len();
    let mut i: usize = 0;
    while i < n && is_white_space_exec(x[i])
        invariant
            x@ == s@,
            n == x.len(),
            i <= n,
            all_white_space(s@.take(i as int)),
        decreases n - i,
    {
        i = i + 1;
        assert(all_white_space(s@.take(i as int))) by {
            assert forall|k: int| 0 <= k < i implies #[trigger] is_white_space(
                s@.take(i as int)[k],
            ) by {
                if k < i - 1 {
                    assert(s@.take(i as int)[k] == s@.take(i - 1)[k]);
                }
            }
        }
    }
    proof {
        lemma_trim_start_skip(s@, i as int);
        lemma_trim_start_fixed(s@.skip(i as int));
    }
    let ghost t = s@.skip(i as int);
    assert(trim_start(s@) == t);
    let mut j: usize = n;
    while j > i && is_white_space_exec(x[j - 1])
        invariant
            x@ == s@,
            n == x.len(),
            i <= j <= n,
            t == s@.skip(i as int),
            trim_end(t) == trim_end(s@.subrange(i as int, j as int)),
        decreases j,
    {
        let ghost u = s@.subrange(i as int, j as int);
        assert(u.drop_last() =~= s@.subrange(i as int, j - 1));
        j = j - 1;
    }
    proof {
        let u = s@.subrange(i as int, j as int);
        lemma_trim_end_fixed(u);
        assert(trim_end(s@.subrange(i as int, n as int)) == trim_end(t)) by {
            assert(s@.subrange(i as int, n as int) =~= t);
        }
    }
    s.substring_char(i, j)
}

/// Whether `c` is Unicode white space (`char::is_whitespace`).
pub fn is_white_space_exec(c: char) -> (r: bool)
    ensures
        r == is_white_space(c),
{
    ('\u{9}' <= c && c <= '\u{d}') || c == ' ' || c == '\u{85}' || c == '\u{a0}' || c
        == '\u{1680}' || ('\u{2000}' <= c && c <= '\u{200a}') || c == '\u{2028}' || c
        == '\u{2029}' || c == '\u{202f}' || c == '\u{205f}' || c == '\u{3000}'
}

/// `s` with every occurrence of `from` replaced by `to`, left to right and
/// without overlap (`str::replace`).
pub fn replace_text(s: &str, from: &str, to: &str) -> (r: String)
    requires
        from@.len() > 0,
    ensures
        r@ == replace_all(s@, from@, to@),
{
    let x = chars_of(s);
    let f = chars_of(from);
    let n = x.len();
    let m = f.len();
    let mut out = String::new();
    let mut i: usize = 0;
    assert(s@.skip(0) =~= s@);
    while m <= n - i
        invariant
            x@ == s@,
            f@ == from@,
            n == x.len(),
            m == f.len(),
            m > 0,
            i <= n,
            replace_all(s@, from@, to@) == out@ + replace_all(s@.skip(i as int), from@, to@),
        decreases n - i,
    {
        let ghost rest = s@.skip(i as int);
        proof {
            lemma_replace_all_step(rest, from@, to@);
        }
        if occurs_at_exec(&x, &f, i) {
            assert(rest.take(m as int) =~= s@.subrange(i as int, i + m));
            assert(rest.skip(m as int) =~= s@.skip(i + m));
            out.append(to);
            i = i + m;
        } else {
            assert(rest.take(m as int) =~= s@.subrange(i as int, i + m));
            assert(rest.drop_first() =~= s@.skip(i + 1));
            let piece = s.substring_char(i, i + 1);
            assert(piece@ =~= seq![rest[0]]);
            out.append(piece);
            i = i + 1;
        }
    }
    let tail = s.substring_char(i, n);
    assert(tail@ =~= s@.skip(i as int));
    out.append(tail);
    out
}

/// The items of `items` written one after another with `sep` between them
/// (`[String]::join`).
pub fn join_text(items: &Vec<String>, sep: &str) -> (r: String)
    ensures
        r@ == join(views(items@), sep@),
{
    let mut out = String::new();
    let ghost vs = views(items@);
    let mut i: usize = 0;
    while i < items.len()
        invariant
            vs == views(items@),
            i <= items.len(),
            out@ == join(vs.take(i as int), sep@),
        decreases items.len() - i,
    {
        if i > 0 {
            out.append(sep);
        }
        out.append(items[i].as_str());
        assert(vs.take(i + 1).drop_last() =~= vs.take(i as int));
        i = i + 1;
    }
    assert(vs.take(items.len() as int) =~= vs);
    out
}

} // verus!
