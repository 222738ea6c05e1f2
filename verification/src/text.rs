//! Character-sequence utilities: lexicographic order on strings, joining,
//! and the sorted-unique line collection used for the source-URI block.

use vstd::prelude::*;
use vstd::string::*;

verus! {

/// Strict lexicographic order on character sequences, by Unicode scalar
/// value. This is the order in which the source-URI block is emitted.
pub open spec fn seq_char_lt(a: Seq<char>, b: Seq<char>) -> bool
    decreases a.len(),
{
    if b.len() == 0 {
        false
    } else if a.len() == 0 {
        true
    } else if a[0] == b[0] {
        seq_char_lt(a.skip(1), b.skip(1))
    } else {
        (a[0] as int) < (b[0] as int)
    }
}

/// The order is irreflexive.
pub proof fn lemma_lt_irreflexive(a: Seq<char>)
    ensures
        !seq_char_lt(a, a),
    decreases a.len(),
{
    if a.len() > 0 {
        lemma_lt_irreflexive(a.skip(1));
    }
}

/// The order is asymmetric.
pub proof fn lemma_lt_asymmetric(a: Seq<char>, b: Seq<char>)
    requires
        seq_char_lt(a, b),
    ensures
        !seq_char_lt(b, a),
    decreases a.len(),
{
    if a.len() > 0 && b.len() > 0 && a[0] == b[0] {
        lemma_lt_asymmetric(a.skip(1), b.skip(1));
    }
}

/// Any two distinct character sequences are ordered one way or the other.
pub proof fn lemma_lt_connected(a: Seq<char>, b: Seq<char>)
    requires
        a != b,
    ensures
        seq_char_lt(a, b) || seq_char_lt(b, a),
    decreases a.len(),
{
    if a.len() == 0 {
        assert(b.len() > 0) by {
            if b.len() == 0 {
                assert(a =~= b);
            }
        }
    } else if b.len() == 0 {
    } else if a[0] == b[0] {
        assert(a.skip(1) != b.skip(1)) by {
            if a.skip(1) == b.skip(1) {
                assert(a.skip(1).len() == a.len() - 1);
                assert(b.skip(1).len() == b.len() - 1);
                assert(forall|i: int| 1 <= i < a.len() ==> a[i] == a.skip(1)[i - 1]);
                assert(forall|i: int| 1 <= i < b.len() ==> b[i] == b.skip(1)[i - 1]);
                assert(a =~= b);
            }
        }
        lemma_lt_connected(a.skip(1), b.skip(1));
    }
}

/// The order is transitive.
pub proof fn lemma_lt_transitive(a: Seq<char>, b: Seq<char>, c: Seq<char>)
    requires
        seq_char_lt(a, b),
        seq_char_lt(b, c),
    ensures
        seq_char_lt(a, c),
    decreases a.len() + b.len() + c.len(),
{
    if b.len() == 0 {
    } else if a.len() == 0 {
        if c.len() == 0 {
        }
    } else if c.len() == 0 {
    } else {
        if a[0] == b[0] && b[0] == c[0] {
            lemma_lt_transitive(a.skip(1), b.skip(1), c.skip(1));
        }
    }
}

/// Compares two strings in the lexicographic order of their characters.
pub fn str_lt(a: &str, b: &str) -> (r: bool)
    ensures
        r == seq_char_lt(a@, b@),
{
    let a_len = a.unicode_len();
    let b_len = b.unicode_len();
    let mut i: usize = 0;
    proof {
        assert(a@.skip(0) =~= a@);
        assert(b@.skip(0) =~= b@);
    }
    loop
        invariant
            i <= a_len,
            i <= b_len,
            a_len == a@.len(),
            b_len == b@.len(),
            seq_char_lt(a@, b@) == seq_char_lt(a@.skip(i as int), b@.skip(i as int)),
        decreases a_len - i,
    {
        if i == b_len {
            return false;
        }
        if i == a_len {
            return true;
        }
        let ca = a.get_char(i);
        let cb = b.get_char(i);
        if ca == cb {
            proof {
                assert(a@.skip(i as int)[0] == ca);
                assert(b@.skip(i as int)[0] == cb);
                assert(a@.skip(i as int).skip(1) =~= a@.skip(i + 1));
                assert(b@.skip(i as int).skip(1) =~= b@.skip(i + 1));
            }
            i = i + 1;
        } else {
            proof {
                assert(a@.skip(i as int)[0] == ca);
                assert(b@.skip(i as int)[0] == cb);
            }
            return (ca as u32) < (cb as u32);
        }
    }
}

/// The views of a sequence of owned strings.
pub open spec fn views_of(v: Seq<String>) -> Seq<Seq<char>> {
    v.map_values(|s: String| s@)
}

/// Strict ascending order, pairwise, over a sequence of lines. Strictness
/// also rules out duplicates.
pub open spec fn strictly_sorted(s: Seq<Seq<char>>) -> bool {
    forall|i: int, j: int| 0 <= i < j < s.len() ==> seq_char_lt(s[i], s[j])
}

/// What follows the first part when parts are joined: a separator before
/// each remaining part.
pub open spec fn join_after(parts: Seq<Seq<char>>, sep: Seq<char>) -> Seq<char>
    decreases parts.len(),
{
    if parts.len() == 0 {
        Seq::empty()
    } else {
        sep + parts[0] + join_after(parts.skip(1), sep)
    }
}

/// All parts joined with the separator between consecutive parts.
pub open spec fn join_with(parts: Seq<Seq<char>>, sep: Seq<char>) -> Seq<char> {
    if parts.len() == 0 {
        Seq::empty()
    } else {
        parts[0] + join_after(parts.skip(1), sep)
    }
}

/// Joins owned strings with a separator between consecutive entries.
pub fn join_strings(parts: &Vec<String>, sep: &str) -> (r: String)
    ensures
        r@ == join_with(views_of(parts@), sep@),
{
    let n = parts.len();
    let mut r = String::new();
    if n == 0 {
        return r;
    }
    r.append(parts[0].as_str());
    let mut i: usize = 1;
    while i < n
        invariant
            1 <= i <= n,
            n == parts@.len(),
            join_with(views_of(parts@), sep@) == r@ + join_after(
                views_of(parts@).skip(i as int),
                sep@,
            ),
        decreases n - i,
    {
        let ghost views = views_of(parts@);
        let ghost r0 = r@;
        r.append(sep);
        r.append(parts[i].as_str());
        proof {
            assert(views.skip(i as int)[0] == views[i as int]);
            assert(views.skip(i as int).skip(1) =~= views.skip(i + 1));
            assert(r0 + ((sep@ + views[i as int]) + join_after(views.skip(i + 1), sep@)) =~= ((r0
                + sep@) + views[i as int]) + join_after(views.skip(i + 1), sep@));
        }
        i = i + 1;
    }
    proof {
        let views = views_of(parts@);
        assert(views.skip(n as int).len() == 0);
        assert(r@ + join_after(views.skip(n as int), sep@) =~= r@);
    }
    r
}

/// Inserts a line into a strictly sorted line list, keeping it strictly
/// sorted; a line already present is not inserted again.
pub fn insert_line(v: &mut Vec<String>, line: String)
    requires
        strictly_sorted(views_of(old(v)@)),
    ensures
        strictly_sorted(views_of(final(v)@)),
        forall|x: Seq<char>|
            views_of(final(v)@).contains(x) <==> (views_of(old(v)@).contains(x) || x == line@),
{
    let ghost vs0 = views_of(old(v)@);
    let n = v.len();
    let mut i: usize = 0;
    while i < n && str_lt(v[i].as_str(), line.as_str())
        invariant
            0 <= i <= n,
            n == v@.len(),
            *v == *old(v),
            vs0 == views_of(v@),
            vs0.len() == n,
            forall|j: int| 0 <= j < i ==> seq_char_lt(vs0[j], line@),
        decreases n - i,
    {
        proof {
            assert(vs0[i as int] == v@[i as int]@);
        }
        i = i + 1;
    }
    if i < n && str_eq(v[i].as_str(), line.as_str()) {
        proof {
            assert(vs0[i as int] == line@);
            assert(vs0.contains(line@));
        }
        return;
    }
    proof {
        if i < n {
            lemma_lt_connected(line@, vs0[i as int]);
        }
        assert(i < n ==> seq_char_lt(line@, vs0[i as int]));
        assert forall|j: int| i <= j < n implies seq_char_lt(line@, vs0[j]) by {
            if j > i {
                lemma_lt_transitive(line@, vs0[i as int], vs0[j]);
            }
        }
    }
    let ghost oldv = v@;
    v.insert(i, line);
    proof {
        oldv.insert_ensures(i as int, line);
        let vs1 = views_of(v@);
        assert(vs1.len() == vs0.len() + 1);
        assert(forall|k: int| 0 <= k < i ==> vs1[k] == vs0[k]);
        assert(forall|k: int| i <= k < vs0.len() ==> vs1[k + 1] == vs0[k]);
        assert(vs1[i as int] == line@);
        assert forall|p: int, q: int| 0 <= p < q < vs1.len() implies seq_char_lt(
            vs1[p],
            vs1[q],
        ) by {
            if p < i && q < i {
            } else if p < i && q == i {
                assert(vs1[p] == vs0[p]);
            } else if p < i && q > i {
                assert(vs1[q] == vs0[q - 1]);
            } else if p == i {
                assert(vs1[q] == vs0[q - 1]);
            } else {
                assert(vs1[p] == vs0[p - 1]);
                assert(vs1[q] == vs0[q - 1]);
            }
        }
        assert forall|x: Seq<char>| vs1.contains(x) implies (vs0.contains(x) || x == line@) by {
            let k = choose|k: int| 0 <= k < vs1.len() && vs1[k] == x;
            if k < i {
                assert(vs0[k] == x);
            } else if k > i {
                assert(vs0[k - 1] == x);
            }
        }
        assert forall|x: Seq<char>| (vs0.contains(x) || x == line@) implies vs1.contains(x) by {
            if x == line@ {
                assert(vs1[i as int] == x);
            } else {
                let k = choose|k: int| 0 <= k < vs0.len() && vs0[k] == x;
                if k < i {
                    assert(vs1[k] == x);
                } else {
                    assert(vs1[k + 1] == x);
                }
            }
        }
    }
}

/// Two strictly sorted line lists with the same members are identical:
/// the block is a function of the line set alone.
pub proof fn lemma_sorted_unique_equal(a: Seq<Seq<char>>, b: Seq<Seq<char>>)
    requires
        strictly_sorted(a),
        strictly_sorted(b),
        forall|x: Seq<char>| a.contains(x) <==> b.contains(x),
    ensures
        a == b,
    decreases a.len(),
{
    if a.len() == 0 {
        assert(b.len() == 0) by {
            if b.len() > 0 {
                assert(b.contains(b[0]));
                assert(a.contains(b[0]));
            }
        }
        assert(a =~= b);
    } else {
        assert(a.contains(a[0]));
        assert(b.contains(b[0]));
        let j = choose|j: int| 0 <= j < b.len() && b[j] == a[0];
        let k = choose|k: int| 0 <= k < a.len() && a[k] == b[0];
        assert(a[0] == b[0]) by {
            if j > 0 && k > 0 {
                assert(seq_char_lt(b[0], b[j]));
                assert(seq_char_lt(a[0], a[k]));
                lemma_lt_asymmetric(a[0], b[0]);
            }
        }
        let a1 = a.skip(1);
        let b1 = b.skip(1);
        assert(forall|m: int| 0 <= m < a1.len() ==> a1[m] == a[m + 1]);
        assert(forall|m: int| 0 <= m < b1.len() ==> b1[m] == b[m + 1]);
        assert forall|x: Seq<char>| a1.contains(x) implies b1.contains(x) by {
            lemma_tail_member(a, b, x);
        }
        assert forall|x: Seq<char>| b1.contains(x) implies a1.contains(x) by {
            lemma_tail_member(b, a, x);
        }
        lemma_sorted_unique_equal(a1, b1);
        assert(a =~= b) by {
            assert(a1.len() == a.len() - 1);
            assert(b1.len() == b.len() - 1);
            assert(forall|m: int| 1 <= m < a.len() ==> a[m] == a1[m - 1]);
            assert(forall|m: int| 1 <= m < b.len() ==> b[m] == b1[m - 1]);
        }
    }
}

/// A member of the tail of one sorted list is a member of the tail of the
/// other, given equal membership and equal heads.
proof fn lemma_tail_member(a: Seq<Seq<char>>, b: Seq<Seq<char>>, x: Seq<char>)
    requires
        strictly_sorted(a),
        strictly_sorted(b),
        forall|y: Seq<char>| a.contains(y) <==> b.contains(y),
        a.len() > 0,
        b.len() > 0,
        a[0] == b[0],
        a.skip(1).contains(x),
    ensures
        b.skip(1).contains(x),
{
    let a1 = a.skip(1);
    let b1 = b.skip(1);
    let m = choose|m: int| 0 <= m < a1.len() && a1[m] == x;
    assert(a1[m] == a[m + 1]);
    assert(a.contains(x)) by {
        assert(a[m + 1] == x);
    }
    assert(b.contains(x));
    let j = choose|j: int| 0 <= j < b.len() && b[j] == x;
    if j == 0 {
        assert(x == a[0]);
        assert(seq_char_lt(a[0], a[m + 1]));
        lemma_lt_irreflexive(x);
        assert(false);
    }
    assert(b1[j - 1] == x);
    assert(b1.contains(x));
}

/// Whether a character counts as whitespace for trimming. The Unicode
/// white-space property is decided by the standard library; the name
/// stands for its result.
pub uninterp spec fn is_unicode_space(c: char) -> bool;

/// Relies on char::is_whitespace: the Unicode white-space property of the
/// character, a function of the character alone. The space, tab, line
/// feed and carriage return characters are documented members of the
/// property.
#[verifier::external_body]
fn char_is_space(c: char) -> (r: bool)
    ensures
        r == is_unicode_space(c),
        (c == ' ' || c == '\t' || c == '\n' || c == '\r') ==> r,
{
    c.is_whitespace()
}

/// The index of the first non-whitespace character, or the length when
/// every character is whitespace.
pub open spec fn first_non_space(s: Seq<char>) -> int
    decreases s.len(),
{
    if s.len() == 0 {
        0
    } else if !is_unicode_space(s[0]) {
        0
    } else {
        1 + first_non_space(s.skip(1))
    }
}

/// The length of the sequence with trailing whitespace removed.
pub open spec fn end_non_space(s: Seq<char>) -> int
    decreases s.len(),
{
    if s.len() == 0 {
        0
    } else if !is_unicode_space(s.last()) {
        s.len() as int
    } else {
        end_non_space(s.drop_last())
    }
}

/// The sequence with leading and trailing whitespace removed.
pub open spec fn trimmed(s: Seq<char>) -> Seq<char> {
    let a = first_non_space(s);
    let b = end_non_space(s);
    if a <= b {
        s.subrange(a, b)
    } else {
        Seq::empty()
    }
}

/// A position below which everything is whitespace, and which is itself
/// not whitespace unless it is the end, is the first non-whitespace
/// position.
proof fn lemma_first_non_space_unique(s: Seq<char>, i: int)
    requires
        0 <= i <= s.len(),
        forall|j: int| 0 <= j < i ==> is_unicode_space(s[j]),
        i < s.len() ==> !is_unicode_space(s[i]),
    ensures
        i == first_non_space(s),
    decreases s.len(),
{
    if s.len() == 0 {
    } else if !is_unicode_space(s[0]) {
        if i > 0 {
            assert(is_unicode_space(s[0]));
        }
    } else {
        assert(i >= 1) by {
            if i == 0 {
                assert(!is_unicode_space(s[0]));
            }
        }
        let s1 = s.skip(1);
        assert(forall|j: int| 0 <= j < s1.len() ==> s1[j] == s[j + 1]);
        lemma_first_non_space_unique(s1, i - 1);
    }
}

/// The matching uniqueness fact for the trailing-whitespace bound.
proof fn lemma_end_non_space_unique(s: Seq<char>, b: int)
    requires
        0 <= b <= s.len(),
        forall|j: int| b <= j < s.len() ==> is_unicode_space(s[j]),
        b > 0 ==> !is_unicode_space(s[b - 1]),
    ensures
        b == end_non_space(s),
    decreases s.len(),
{
    if s.len() == 0 {
    } else if !is_unicode_space(s.last()) {
        if b < s.len() {
            assert(is_unicode_space(s[s.len() - 1]));
        }
    } else {
        assert(b < s.len()) by {
            if b == s.len() {
                assert(!is_unicode_space(s[s.len() - 1]));
            }
        }
        let s1 = s.drop_last();
        assert(forall|j: int| 0 <= j < s1.len() ==> s1[j] == s[j]);
        lemma_end_non_space_unique(s1, b);
    }
}

/// Removes leading and trailing whitespace.
pub fn trim_str(s: &str) -> (r: String)
    ensures
        r@ == trimmed(s@),
{
    let n = s.unicode_len();
    let mut a: usize = 0;
    while a < n && char_is_space(s.get_char(a))
        invariant
            0 <= a <= n,
            n == s@.len(),
            forall|j: int| 0 <= j < a ==> is_unicode_space(s@[j]),
        decreases n - a,
    {
        a = a + 1;
    }
    let mut b: usize = n;
    while b > a && char_is_space(s.get_char(b - 1))
        invariant
            a <= b <= n,
            n == s@.len(),
            forall|j: int| 0 <= j < a ==> is_unicode_space(s@[j]),
            forall|j: int| b <= j < n ==> is_unicode_space(s@[j]),
        decreases b,
    {
        b = b - 1;
    }
    if b == a {
        // every character is whitespace
        proof {
            lemma_first_non_space_unique(s@, n as int);
            lemma_end_non_space_unique(s@, 0);
            assert(trimmed(s@) =~= Seq::<char>::empty());
        }
        return String::new();
    }
    proof {
        lemma_first_non_space_unique(s@, a as int);
        lemma_end_non_space_unique(s@, b as int);
    }
    let part = s.substring_char(a, b);
    String::from_str(part)
}

/// Each newline replaced by a space, a backslash, and a newline: the
/// continuation form used for multi-line summaries.
pub open spec fn escape_newlines(s: Seq<char>) -> Seq<char>
    decreases s.len(),
{
    if s.len() == 0 {
        Seq::empty()
    } else {
        (if s[0] == '\n' {
            " \\\n"@
        } else {
            seq![s[0]]
        }) + escape_newlines(s.skip(1))
    }
}

/// Rewrites newlines into the continuation form.
pub fn escape_newlines_str(s: &str) -> (r: String)
    ensures
        r@ == escape_newlines(s@),
{
    let n = s.unicode_len();
    let mut r = String::new();
    let mut i: usize = 0;
    proof {
        assert(s@.skip(0) =~= s@);
    }
    while i < n
        invariant
            0 <= i <= n,
            n == s@.len(),
            escape_newlines(s@) == r@ + escape_newlines(s@.skip(i as int)),
        decreases n - i,
    {
        let ghost r0 = r@;
        let ghost rest = s@.skip(i as int);
        let c = s.get_char(i);
        proof {
            assert(rest[0] == c);
            assert(rest.skip(1) =~= s@.skip(i + 1));
        }
        if c == '\n' {
            r.append(" \\\n");
            proof {
                assert(r0 + (" \\\n"@ + escape_newlines(s@.skip(i + 1))) =~= (r0 + " \\\n"@)
                    + escape_newlines(s@.skip(i + 1)));
            }
        } else {
            let piece = s.substring_char(i, i + 1);
            r.append(piece);
            proof {
                assert(piece@ =~= seq![c]);
                assert(r0 + (seq![c] + escape_newlines(s@.skip(i + 1))) =~= (r0 + seq![c])
                    + escape_newlines(s@.skip(i + 1)));
            }
        }
        i = i + 1;
    }
    proof {
        assert(s@.skip(n as int).len() == 0);
        assert(r@ + escape_newlines(s@.skip(n as int)) =~= r@);
    }
    r
}

/// The index of the first separator slash, or the length when there is
/// none.
pub open spec fn first_slash(s: Seq<char>) -> int
    decreases s.len(),
{
    if s.len() == 0 {
        0
    } else if s[0] == '/' {
        0
    } else {
        1 + first_slash(s.skip(1))
    }
}

/// The fields of the sequence, cut at every slash. An empty sequence has
/// one empty field, as the standard split does.
pub open spec fn split_slash(s: Seq<char>) -> Seq<Seq<char>>
    decreases s.len(),
{
    let i = first_slash(s);
    if 0 <= i < s.len() {
        seq![s.subrange(0, i)] + split_slash(s.skip(i + 1))
    } else {
        seq![s]
    }
}

/// A position below which there is no slash, and which holds a slash
/// unless it is the end, is the first slash position.
proof fn lemma_first_slash_unique(s: Seq<char>, i: int)
    requires
        0 <= i <= s.len(),
        forall|j: int| 0 <= j < i ==> s[j] != '/',
        i < s.len() ==> s[i] == '/',
    ensures
        i == first_slash(s),
    decreases s.len(),
{
    if s.len() == 0 {
    } else if s[0] == '/' {
        if i > 0 {
            assert(s[0] != '/');
        }
    } else {
        assert(i >= 1) by {
            if i == 0 {
                assert(s[0] == '/');
            }
        }
        let s1 = s.skip(1);
        assert(forall|j: int| 0 <= j < s1.len() ==> s1[j] == s[j + 1]);
        lemma_first_slash_unique(s1, i - 1);
    }
}

/// Splits a string at every slash.
pub fn split_on_slash(s: &str) -> (r: Vec<String>)
    ensures
        views_of(r@) == split_slash(s@),
{
    let n = s.unicode_len();
    let mut r: Vec<String> = Vec::new();
    let mut start: usize = 0;
    proof {
        assert(s@.skip(0) =~= s@);
        assert(views_of(r@) + split_slash(s@) =~= split_slash(s@));
    }
    loop
        invariant
            0 <= start <= n,
            n == s@.len(),
            split_slash(s@) =~= views_of(r@) + split_slash(s@.skip(start as int)),
        decreases n - start,
    {
        let ghost rest = s@.skip(start as int);
        let mut p: usize = start;
        while p < n && s.get_char(p) != '/'
            invariant
                start <= p <= n,
                n == s@.len(),
                forall|j: int| start <= j < p ==> s@[j] != '/',
            decreases n - p,
        {
            p = p + 1;
        }
        proof {
            assert(forall|j: int| 0 <= j < p - start ==> rest[j] == s@[j + start]);
            lemma_first_slash_unique(rest, p - start);
        }
        let piece = s.substring_char(start, p);
        let ghost vs0 = views_of(r@);
        r.push(String::from_str(piece));
        proof {
            assert(views_of(r@) =~= vs0 + seq![piece@]);
            assert(piece@ =~= rest.subrange(0, p - start));
        }
        if p == n {
            // the final field may be empty; it is still a field
            proof {
                assert(first_slash(rest) == rest.len());
                assert(split_slash(rest) =~= seq![rest]);
                assert(piece@ =~= rest);
                assert(views_of(r@) =~= vs0 + split_slash(rest));
                assert(split_slash(s@) =~= views_of(r@));
            }
            return r;
        }
        proof {
            assert(s@[p as int] == '/');
            assert(rest[p - start] == '/');
            assert(first_slash(rest) == p - start);
            assert(rest.skip(p - start + 1) =~= s@.skip(p + 1));
            assert(split_slash(rest) =~= seq![rest.subrange(0, p - start)] + split_slash(
                s@.skip(p + 1),
            ));
            assert(vs0 + (seq![piece@] + split_slash(s@.skip(p + 1))) =~= (vs0 + seq![piece@])
                + split_slash(s@.skip(p + 1)));
        }
        start = p + 1;
    }
}

/// Whether the first string starts with the second.
pub fn str_has_prefix(s: &str, p: &str) -> (r: bool)
    ensures
        r == p@.is_prefix_of(s@),
{
    let sn = s.unicode_len();
    let pn = p.unicode_len();
    if pn > sn {
        return false;
    }
    let mut i: usize = 0;
    while i < pn
        invariant
            0 <= i <= pn,
            pn <= sn,
            sn == s@.len(),
            pn == p@.len(),
            forall|j: int| 0 <= j < i ==> p@[j] == s@[j],
        decreases pn - i,
    {
        if p.get_char(i) != s.get_char(i) {
            proof {
                assert(!p@.is_prefix_of(s@)) by {
                    if p@.is_prefix_of(s@) {
                        assert(p@[i as int] == s@.subrange(0, pn as int)[i as int]);
                    }
                }
            }
            return false;
        }
        i = i + 1;
    }
    proof {
        assert(p@ =~= s@.subrange(0, pn as int));
    }
    true
}

/// Whether the first string ends with the second.
pub fn str_has_suffix(s: &str, p: &str) -> (r: bool)
    ensures
        r == p@.is_suffix_of(s@),
{
    let sn = s.unicode_len();
    let pn = p.unicode_len();
    if pn > sn {
        return false;
    }
    let off = sn - pn;
    let mut i: usize = 0;
    while i < pn
        invariant
            0 <= i <= pn,
            pn <= sn,
            sn == s@.len(),
            pn == p@.len(),
            off == sn - pn,
            forall|j: int| 0 <= j < i ==> p@[j] == s@[j + off],
        decreases pn - i,
    {
        if p.get_char(i) != s.get_char(off + i) {
            proof {
                assert(!p@.is_suffix_of(s@)) by {
                    if p@.is_suffix_of(s@) {
                        assert(p@[i as int] == s@.subrange(off as int, sn as int)[i as int]);
                    }
                }
            }
            return false;
        }
        i = i + 1;
    }
    proof {
        assert(p@ =~= s@.subrange(off as int, sn as int));
    }
    true
}

/// Whether the string holds the given character.
pub fn contains_char(s: &str, c: char) -> (r: bool)
    ensures
        r == s@.contains(c),
{
    let n = s.unicode_len();
    let mut i: usize = 0;
    while i < n
        invariant
            0 <= i <= n,
            n == s@.len(),
            forall|j: int| 0 <= j < i ==> s@[j] != c,
        decreases n - i,
    {
        if s.get_char(i) == c {
            return true;
        }
        i = i + 1;
    }
    proof {
        if s@.contains(c) {
            let k = choose|k: int| 0 <= k < s@.len() && s@[k] == c;
            assert(s@[k] != c);
        }
    }
    false
}

/// Tests two string slices for equality of their character sequences.
pub fn str_eq(a: &str, b: &str) -> (r: bool)
    ensures
        r == (a@ == b@),
{
    let a_len = a.unicode_len();
    let b_len = b.unicode_len();
    if a_len != b_len {
        proof {
            if a@ == b@ {
                assert(a@.len() == b@.len());
            }
        }
        return false;
    }
    let mut i: usize = 0;
    loop
        invariant
            i <= a_len,
            a_len == a@.len(),
            b_len == b@.len(),
            a_len == b_len,
            forall|j: int| 0 <= j < i ==> a@[j] == b@[j],
        decreases a_len - i,
    {
        if i == a_len {
            proof {
                assert(a@ =~= b@);
            }
            return true;
        }
        let ca = a.get_char(i);
        let cb = b.get_char(i);
        if ca != cb {
            proof {
                if a@ == b@ {
                    assert(a@[i as int] == b@[i as int]);
                }
            }
            return false;
        }
        i = i + 1;
    }
}

} // verus!
