//! Character-sequence helpers: prefixes, suffixes, substring search and fields.

use vstd::prelude::*;

verus! {

/// `p` is the beginning of `s`.
pub open spec fn is_prefix(p: Seq<char>, s: Seq<char>) -> bool {
    p.len() <= s.len() && s.subrange(0, p.len() as int) == p
}

/// `p` is the end of `s`.
pub open spec fn is_suffix(p: Seq<char>, s: Seq<char>) -> bool {
    p.len() <= s.len() && s.subrange(s.len() - p.len(), s.len() as int) == p
}

/// `p` stands in `s` at position `i`.
pub open spec fn occurs_at(p: Seq<char>, s: Seq<char>, i: int) -> bool {
    0 <= i && i + p.len() <= s.len() && s.subrange(i, i + p.len()) == p
}

/// `p` stands somewhere in `s`.
pub open spec fn has_substring(s: Seq<char>, p: Seq<char>) -> bool {
    exists|i: int| occurs_at(p, s, i)
}

/// The longest beginning of `s` that does not hold `c`.
pub open spec fn until(s: Seq<char>, c: char) -> Seq<char>
    decreases s.len(),
{
    if s.len() == 0 || s[0] == c {
        Seq::empty()
    } else {
        seq![s[0]] + until(s.drop_first(), c)
    }
}

/// When the first `c` of `s` stands at `i`, or `s` has none and `i` is its length,
/// `until(s, c)` is the first `i` characters of `s`.
pub proof fn lemma_until_is_subrange(s: Seq<char>, c: char, i: int)
    requires
        0 <= i <= s.len(),
        forall|k: int| 0 <= k < i ==> s[k] != c,
        i < s.len() ==> s[i] == c,
    ensures
        until(s, c) == s.subrange(0, i),
    decreases s.len(),
{
    if s.len() == 0 || s[0] == c {
        assert(i == 0);
        assert(s.subrange(0, 0) =~= Seq::<char>::empty());
    } else {
        let t = s.drop_first();
        assert forall|k: int| 0 <= k < i - 1 implies t[k] != c by {
            assert(t[k] == s[k + 1]);
        }
        lemma_until_is_subrange(t, c, i - 1);
        assert(s.subrange(0, i) =~= seq![s[0]] + t.subrange(0, i - 1));
    }
}

/// The longest beginning of `s` without `c` holds no `c`.
pub proof fn lemma_until_excludes(s: Seq<char>, c: char)
    ensures
        !until(s, c).contains(c),
    decreases s.len(),
{
    if s.len() == 0 || s[0] == c {
        assert(until(s, c) =~= Seq::<char>::empty());
    } else {
        lemma_until_excludes(s.drop_first(), c);
        let rest = until(s.drop_first(), c);
        let all = until(s, c);
        assert(all =~= seq![s[0]] + rest);
        if all.contains(c) {
            let k = choose|k: int| 0 <= k < all.len() && all[k] == c;
            if k > 0 {
                assert(rest[k - 1] == c);
            }
        }
    }
}

/// Dictionary order on texts, character by character by code point; a text
/// comes before every text that it begins.
pub open spec fn lex_le(a: Seq<char>, b: Seq<char>) -> bool
    decreases a.len(),
{
    if a.len() == 0 {
        true
    } else if b.len() == 0 {
        false
    } else if a[0] != b[0] {
        (a[0] as int) < (b[0] as int)
    } else {
        lex_le(a.drop_first(), b.drop_first())
    }
}

/// Every text is in order with itself.
pub proof fn lemma_lex_reflexive(a: Seq<char>)
    ensures
        lex_le(a, a),
    decreases a.len(),
{
    if a.len() > 0 {
        lemma_lex_reflexive(a.drop_first());
    }
}

/// Of two texts, one comes before the other or they are equal in order.
pub proof fn lemma_lex_total(a: Seq<char>, b: Seq<char>)
    ensures
        lex_le(a, b) || lex_le(b, a),
    decreases a.len(),
{
    if a.len() > 0 && b.len() > 0 && a[0] == b[0] {
        lemma_lex_total(a.drop_first(), b.drop_first());
    }
}

/// Dictionary order is transitive.
pub proof fn lemma_lex_transitive(a: Seq<char>, b: Seq<char>, c: Seq<char>)
    requires
        lex_le(a, b),
        lex_le(b, c),
    ensures
        lex_le(a, c),
    decreases a.len(),
{
    if a.len() > 0 && b.len() > 0 && c.len() > 0 && a[0] == b[0] && b[0] == c[0] {
        lemma_lex_transitive(a.drop_first(), b.drop_first(), c.drop_first());
    }
}

/// Whether `a` comes before `b` in dictionary order, or equals it.
pub fn text_le(a: &Vec<char>, b: &Vec<char>) -> (r: bool)
    ensures
        r == lex_le(a@, b@),
{
    let mut i: usize = 0;
    assert(a@.skip(0) =~= a@);
    assert(b@.skip(0) =~= b@);
    while i < a.len() && i < b.len() && a[i] == b[i]
        invariant
            i <= a.len(),
            i <= b.len(),
            lex_le(a@, b@) == lex_le(a@.skip(i as int), b@.skip(i as int)),
        decreases a.len() - i,
    {
        assert(a@.skip(i as int).drop_first() =~= a@.skip(i + 1));
        assert(b@.skip(i as int).drop_first() =~= b@.skip(i + 1));
        i = i + 1;
    }
    if i == a.len() {
        true
    } else if i == b.len() {
        false
    } else {
        a[i] < b[i]
    }
}

/// The characters of a string slice, in order.
pub fn chars_of(s: &str) -> (v: Vec<char>)
    ensures
        v@ == s@,
{
    let n: usize = s.unicode_len();
    let mut v: Vec<char> = Vec::new();
    let mut i: usize = 0;
    while i < n
        invariant
            n == s@.len(),
            i <= n,
            v@ == s@.subrange(0, i as int),
        decreases n - i,
    {
        let c = s.get_char(i);
        v.push(c);
        assert(v@ =~= s@.subrange(0, i + 1));
        i = i + 1;
    }
    assert(s@.subrange(0, n as int) =~= s@);
    v
}

/// The characters of `s` from position `from` up to, not including, `to`.
pub(crate) fn slice_chars(s: &Vec<char>, from: usize, to: usize) -> (r: Vec<char>)
    requires
        from <= to <= s.len(),
    ensures
        r@ == s@.subrange(from as int, to as int),
{
    let mut r: Vec<char> = Vec::new();
    let mut i: usize = from;
    while i < to
        invariant
            from <= i <= to,
            to <= s.len(),
            r@ == s@.subrange(from as int, i as int),
        decreases to - i,
    {
        r.push(s[i]);
        assert(r@ =~= s@.subrange(from as int, i + 1));
        i = i + 1;
    }
    r
}

/// Whether two string slices hold the same text.
pub fn same_text(a: &str, b: &str) -> (r: bool)
    ensures
        r == (a@ == b@),
{
    let x: String = a.to_owned();
    let y: String = b.to_owned();
    x == y
}

/// Whether `s` begins with `p`.
pub fn starts_with(s: &Vec<char>, p: &Vec<char>) -> (b: bool)
    ensures
        b == is_prefix(p@, s@),
{
    matches_at(s, p, 0)
}

/// Whether `s` ends with `p`.
pub fn ends_with(s: &Vec<char>, p: &Vec<char>) -> (b: bool)
    ensures
        b == is_suffix(p@, s@),
{
    if p.len() > s.len() {
        false
    } else {
        matches_at(s, p, s.len() - p.len())
    }
}

/// Whether `p` stands in `s` at position `at`.
pub fn matches_at(s: &Vec<char>, p: &Vec<char>, at: usize) -> (b: bool)
    ensures
        b == occurs_at(p@, s@, at as int),
{
    if at > s.len() || p.len() > s.len() - at {
        return false;
    }
    let mut k: usize = 0;
    while k < p.len()
        invariant
            at + p.len() <= s.len(),
            k <= p.len(),
            forall|j: int| 0 <= j < k ==> s@[at + j] == p@[j],
        decreases p.len() - k,
    {
        if s[at + k] != p[k] {
            assert(s@.subrange(at as int, at + p.len())[k as int] == s@[at + k]);
            return false;
        }
        k = k + 1;
    }
    assert(s@.subrange(at as int, at + p.len()) =~= p@);
    true
}

/// Whether `p` stands somewhere in `s`.
pub fn contains(s: &Vec<char>, p: &Vec<char>) -> (b: bool)
    ensures
        b == has_substring(s@, p@),
{
    if p.len() > s.len() {
        return false;
    }
    let last: usize = s.len() - p.len();
    let mut i: usize = 0;
    while i < last
        invariant
            last == s.len() - p.len(),
            i <= last,
            forall|j: int| 0 <= j < i ==> !occurs_at(p@, s@, j),
        decreases last - i,
    {
        if matches_at(s, p, i) {
            return true;
        }
        i = i + 1;
    }
    matches_at(s, p, last)
}

/// The position of the first `c` in `s` at or after `from`, or the length of `s`
/// where there is none.
pub(crate) fn find_from(s: &Vec<char>, c: char, from: usize) -> (i: usize)
    requires
        from <= s.len(),
    ensures
        from <= i <= s.len(),
        forall|k: int| from <= k < i ==> s@[k] != c,
        i < s.len() ==> s@[i as int] == c,
        until(s@.skip(from as int), c) == s@.subrange(from as int, i as int),
{
    let mut i: usize = from;
    while i < s.len() && s[i] != c
        invariant
            from <= i <= s.len(),
            forall|k: int| from <= k < i ==> s@[k] != c,
        decreases s.len() - i,
    {
        i = i + 1;
    }
    proof {
        let t = s@.skip(from as int);
        lemma_until_is_subrange(t, c, i - from);
        assert(t.subrange(0, i - from) =~= s@.subrange(from as int, i as int));
    }
    i
}

/// The path of `name` under the directory `base`, as `Path::join` builds it on
/// Unix: an absolute `name` stands alone, and a separator is put between the two
/// unless `base` is empty or ends in one.
pub open spec fn joined(base: Seq<char>, name: Seq<char>) -> Seq<char> {
    if name.len() > 0 && name[0] == '/' {
        name
    } else if base.len() == 0 || base.last() == '/' {
        base + name
    } else {
        base + "/"@ + name
    }
}

/// Builds the path of `name` under the directory `base`.
pub fn join_path(base: &str, name: &str) -> (path: String)
    ensures
        path@ == joined(base@, name@),
{
    let b = chars_of(base);
    let n = chars_of(name);
    if n.len() > 0 && n[0] == '/' {
        return String::from_str(name);
    }
    let mut path = String::from_str(base);
    if b.len() > 0 && b[b.len() - 1] != '/' {
        path.append("/");
    }
    path.append(name);
    path
}

/// How many lines of `s` hold `marker`. Lines end at a line feed.
pub open spec fn marked_lines(s: Seq<char>, marker: Seq<char>) -> nat
    decreases s.len(),
{
    if s.len() == 0 {
        0
    } else {
        let line = until(s, '\n');
        let here: nat = if has_substring(line, marker) {
            1
        } else {
            0
        };
        if line.len() < s.len() {
            here + marked_lines(s.skip(line.len() as int + 1), marker)
        } else {
            here
        }
    }
}

/// Counts the lines of `s` that hold `marker`, up to the greatest `u32`.
pub fn count_marked_lines(s: &Vec<char>, marker: &Vec<char>) -> (count: u32)
    ensures
        count == if marked_lines(s@, marker@) <= u32::MAX {
            marked_lines(s@, marker@)
        } else {
            u32::MAX as nat
        },
{
    let mut count: u32 = 0;
    let mut found: Ghost<nat> = Ghost(0);
    let mut p: usize = 0;
    assert(s@.skip(0) =~= s@);
    while p < s.len()
        invariant
            p <= s.len(),
            marked_lines(s@, marker@) == found@ + marked_lines(s@.skip(p as int), marker@),
            count == if found@ <= u32::MAX {
                found@
            } else {
                u32::MAX as nat
            },
        decreases s.len() - p,
    {
        let e: usize = find_from(s, '\n', p);
        let line = slice_chars(s, p, e);
        let hit = contains(&line, marker);
        proof {
            let rest = s@.skip(p as int);
            assert(until(rest, '\n') == line@);
            if e < s.len() {
                assert(rest.skip(line@.len() as int + 1) =~= s@.skip(e + 1));
            }
            if hit {
                found@ = found@ + 1;
            }
        }
        if hit && count < u32::MAX {
            count = count + 1;
        }
        if e < s.len() {
            p = e + 1;
        } else {
            p = s.len();
            assert(s@.skip(p as int).len() == 0);
        }
    }
    count
}

/// The decimal digit `d` as a text of one character.
pub open spec fn digit_text(d: int) -> Seq<char> {
    if d == 0 {
        "0"@
    } else if d == 1 {
        "1"@
    } else if d == 2 {
        "2"@
    } else if d == 3 {
        "3"@
    } else if d == 4 {
        "4"@
    } else if d == 5 {
        "5"@
    } else if d == 6 {
        "6"@
    } else if d == 7 {
        "7"@
    } else if d == 8 {
        "8"@
    } else {
        "9"@
    }
}

/// The decimal digits of `n`, without leading zeros.
pub open spec fn digits(n: nat) -> Seq<char>
    decreases n,
{
    if n < 10 {
        digit_text(n as int)
    } else {
        digits(n / 10) + digit_text((n % 10) as int)
    }
}

/// The number `n` written in decimal, with a minus sign where it is negative.
pub open spec fn decimal_text(n: int) -> Seq<char> {
    if n < 0 {
        "-"@ + digits((-n) as nat)
    } else {
        digits(n as nat)
    }
}

fn digit_str(d: u64) -> (t: &'static str)
    requires
        d < 10,
    ensures
        t@ == digit_text(d as int),
{
    if d == 0 {
        "0"
    } else if d == 1 {
        "1"
    } else if d == 2 {
        "2"
    } else if d == 3 {
        "3"
    } else if d == 4 {
        "4"
    } else if d == 5 {
        "5"
    } else if d == 6 {
        "6"
    } else if d == 7 {
        "7"
    } else if d == 8 {
        "8"
    } else {
        "9"
    }
}

fn append_digits(out: &mut String, n: u64)
    ensures
        final(out)@ == old(out)@ + digits(n as nat),
    decreases n,
{
    if n >= 10 {
        append_digits(out, n / 10);
    }
    out.append(digit_str(n % 10));
}

/// Writes `n` in decimal.
pub fn decimal(n: i32) -> (t: String)
    ensures
        t@ == decimal_text(n as int),
{
    let mut t = String::new();
    if n < 0 {
        t.append("-");
        let m: u64 = (-(n as i64)) as u64;
        append_digits(&mut t, m);
    } else {
        append_digits(&mut t, n as u64);
    }
    t
}

} // verus!
