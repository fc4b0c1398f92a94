//! Character-sequence utilities shared by the policy engine and the tools:
//! conversion of a `&str` to its characters, sequence comparison, substring
//! search, token extraction and separator splitting, each tied to a spec-level
//! model of the same operation.

use vstd::prelude::*;
use vstd::string::{StrSliceExecFns, StringExecFns};

verus! {

/// The views of a sequence of character vectors.
pub open spec fn views_of(v: Seq<Vec<char>>) -> Seq<Seq<char>> {
    v.map_values(|x: Vec<char>| x@)
}

/// The views of a sequence of strings.
pub open spec fn string_views(v: Seq<String>) -> Seq<Seq<char>> {
    Seq::new(v.len(), |i: int| v[i]@)
}

/// Clones a vector of strings, keeping every view.
pub fn clone_string_vec(v: &Vec<String>) -> (r: Vec<String>)
    ensures
        string_views(r@) == string_views(v@),
{
    let n: usize = v.len();
    let mut r: Vec<String> = Vec::new();
    let mut i: usize = 0;
    while i < n
        invariant
            n == v@.len(),
            i <= n,
            r@.len() == i,
            forall|j: int| 0 <= j < i ==> #[trigger] r@[j]@ == v@[j]@,
        decreases n - i,
    {
        r.push(v[i].clone());
        i = i + 1;
    }
    proof {
        assert(string_views(r@) =~= string_views(v@));
    }
    r
}

/// True when `needle` occurs contiguously inside `hay`.
pub open spec fn contains_seq(hay: Seq<char>, needle: Seq<char>) -> bool {
    exists|k: int|
        0 <= k <= hay.len() - needle.len() && #[trigger] hay.subrange(k, k + needle.len() as int)
            == needle
}

/// Length of the longest prefix of `s` consisting of spaces.
pub open spec fn spec_leading_spaces(s: Seq<char>) -> int
    decreases s.len(),
{
    if s.len() == 0 {
        0
    } else if s[0] == ' ' {
        1 + spec_leading_spaces(s.skip(1))
    } else {
        0
    }
}

/// Length of the longest prefix of `s` that does not contain `c`.
pub open spec fn spec_prefix_until(s: Seq<char>, c: char) -> int
    decreases s.len(),
{
    if s.len() == 0 {
        0
    } else if s[0] == c {
        0
    } else {
        1 + spec_prefix_until(s.skip(1), c)
    }
}

/// The first whitespace-delimited word of `s`: what remains after leading
/// spaces, cut at the next space. Empty when `s` is empty or all spaces.
pub open spec fn first_token(s: Seq<char>) -> Seq<char> {
    let rest = s.skip(spec_leading_spaces(s));
    rest.take(spec_prefix_until(rest, ' '))
}

/// `s` split on separator `c`: always one more piece than there are
/// separators, so splitting the empty sequence gives one empty piece.
pub open spec fn split_on(s: Seq<char>, c: char) -> Seq<Seq<char>>
    decreases s.len(),
{
    if s.len() == 0 {
        seq![Seq::<char>::empty()]
    } else if s[0] == c {
        seq![Seq::<char>::empty()] + split_on(s.skip(1), c)
    } else {
        let rest = split_on(s.skip(1), c);
        seq![seq![s[0]] + rest[0]] + rest.skip(1)
    }
}

pub proof fn lemma_split_on_nonempty(s: Seq<char>, c: char)
    ensures
        split_on(s, c).len() >= 1,
    decreases s.len(),
{
    if s.len() != 0 {
        lemma_split_on_nonempty(s.skip(1), c);
    }
}

/// Appending one character either starts a fresh piece (a separator) or
/// extends the last piece.
pub proof fn lemma_split_on_push(s: Seq<char>, c: char, x: char)
    ensures
        ({
            let sp = split_on(s, c);
            split_on(s.push(x), c) == if x == c {
                sp.push(Seq::<char>::empty())
            } else {
                sp.drop_last().push(sp.last().push(x))
            }
        }),
    decreases s.len(),
{
    lemma_split_on_nonempty(s, c);
    if s.len() == 0 {
        assert(s.push(x).len() == 1);
        assert(s.push(x)[0] == x);
        assert(s.push(x).skip(1) =~= Seq::<char>::empty());
        if x == c {
            assert(split_on(s, c) == seq![Seq::<char>::empty()]);
            assert(s.push(x).skip(1).len() == 0);
            assert(split_on(s.push(x).skip(1), c) == seq![Seq::<char>::empty()]);
            assert(split_on(s.push(x), c) == seq![Seq::<char>::empty()] + seq![
                Seq::<char>::empty(),
            ]);
            assert(split_on(s.push(x), c) =~~= split_on(s, c).push(Seq::<char>::empty()));
        } else {
            assert(seq![x] + split_on(Seq::<char>::empty(), c)[0] =~= seq![x]);
            assert(split_on(s, c).last().push(x) =~= seq![x]);
            assert(split_on(s.push(x), c) =~~= split_on(s, c).drop_last().push(
                split_on(s, c).last().push(x),
            ));
        }
    } else {
        let t = s.skip(1);
        lemma_split_on_nonempty(t, c);
        lemma_split_on_push(t, c, x);
        assert(s.push(x)[0] == s[0]);
        assert(s.push(x).skip(1) =~= t.push(x));
        let sp = split_on(s, c);
        let tp = split_on(t, c);
        if s[0] == c {
            assert(sp == seq![Seq::<char>::empty()] + tp);
            if x == c {
                assert(split_on(s.push(x), c) =~= sp.push(Seq::<char>::empty()));
            } else {
                assert(sp.last() == tp.last());
                assert(split_on(s.push(x), c) =~= sp.drop_last().push(sp.last().push(x)));
            }
        } else {
            assert(sp == seq![seq![s[0]] + tp[0]] + tp.skip(1));
            if x == c {
                assert(split_on(s.push(x), c) =~= sp.push(Seq::<char>::empty()));
            } else {
                if tp.len() == 1 {
                    assert(tp.drop_last().push(tp.last().push(x))[0] == tp[0].push(x));
                    assert(sp.last() == seq![s[0]] + tp[0]);
                    assert(seq![s[0]] + tp[0].push(x) =~= (seq![s[0]] + tp[0]).push(x));
                    assert(split_on(s.push(x), c) =~= sp.drop_last().push(sp.last().push(x)));
                } else {
                    assert(tp.drop_last().push(tp.last().push(x))[0] == tp[0]);
                    assert(split_on(s.push(x), c) =~= sp.drop_last().push(sp.last().push(x)));
                }
            }
        }
    }
}

/// ASCII whitespace as the interactive prompt strips it.
pub open spec fn is_ws(c: char) -> bool {
    c == ' ' || c == '\t' || c == '\n' || c == '\r'
}

/// Index of the first non-whitespace character, the length when none.
pub open spec fn trim_start_idx(s: Seq<char>) -> int
    decreases s.len(),
{
    if s.len() == 0 {
        0
    } else if is_ws(s[0]) {
        1 + trim_start_idx(s.skip(1))
    } else {
        0
    }
}

/// One past the last non-whitespace character, zero when none.
pub open spec fn trim_end_idx(s: Seq<char>) -> int
    decreases s.len(),
{
    if s.len() == 0 {
        0
    } else if is_ws(s.last()) {
        trim_end_idx(s.drop_last())
    } else {
        s.len() as int
    }
}

/// `s` without leading and trailing whitespace.
pub open spec fn spec_trim(s: Seq<char>) -> Seq<char> {
    let a = trim_start_idx(s);
    let b = trim_end_idx(s);
    if a <= b {
        s.subrange(a, b)
    } else {
        Seq::<char>::empty()
    }
}

proof fn lemma_trim_start_value(s: Seq<char>, i: int)
    requires
        0 <= i <= s.len(),
        forall|j: int| 0 <= j < i ==> is_ws(s[j]),
        i < s.len() ==> !is_ws(s[i]),
    ensures
        trim_start_idx(s) == i,
    decreases i,
{
    if i > 0 {
        lemma_trim_start_value(s.skip(1), i - 1);
    }
}

proof fn lemma_trim_end_value(s: Seq<char>, j: int)
    requires
        0 <= j <= s.len(),
        forall|t: int| j <= t < s.len() ==> is_ws(s[t]),
        j > 0 ==> !is_ws(s[j - 1]),
    ensures
        trim_end_idx(s) == j,
    decreases s.len(),
{
    if j < s.len() {
        assert(is_ws(s.last()));
        lemma_trim_end_value(s.drop_last(), j);
    }
}

/// Whether the character counts as whitespace for trimming.
fn is_ws_char(c: char) -> (r: bool)
    ensures
        r == is_ws(c),
{
    c == ' ' || c == '\t' || c == '\n' || c == '\r'
}

/// `s` without leading and trailing whitespace.
pub fn trim_str(s: &str) -> (r: String)
    ensures
        r@ == spec_trim(s@),
{
    let chars = chars_of(s);
    let n: usize = chars.len();
    let mut i: usize = 0;
    while i < n && is_ws_char(chars[i])
        invariant
            n == s@.len(),
            chars@ == s@,
            i <= n,
            forall|j: int| 0 <= j < i ==> is_ws(s@[j]),
        decreases n - i,
    {
        i = i + 1;
    }
    let mut j: usize = n;
    while j > i && is_ws_char(chars[j - 1])
        invariant
            n == s@.len(),
            chars@ == s@,
            i <= j <= n,
            forall|t: int| j <= t < n ==> is_ws(s@[t]),
        decreases j,
    {
        j = j - 1;
    }
    proof {
        if i == n {
            lemma_trim_start_value(s@, i as int);
            lemma_trim_end_value(s@, 0);
            assert(j == i);
            assert(s@.subrange(i as int, j as int) =~= Seq::<char>::empty());
            if trim_start_idx(s@) <= trim_end_idx(s@) {
                assert(s@.subrange(trim_start_idx(s@), trim_end_idx(s@)) =~= Seq::<
                    char,
                >::empty());
            }
        } else {
            lemma_trim_start_value(s@, i as int);
            assert(j > i);
            lemma_trim_end_value(s@, j as int);
        }
    }
    let piece = s.substring_char(i, j);
    piece.to_owned()
}

/// The decimal digit character for a value below ten.
pub open spec fn digit_char(d: int) -> char {
    if d == 0 {
        '0'
    } else if d == 1 {
        '1'
    } else if d == 2 {
        '2'
    } else if d == 3 {
        '3'
    } else if d == 4 {
        '4'
    } else if d == 5 {
        '5'
    } else if d == 6 {
        '6'
    } else if d == 7 {
        '7'
    } else if d == 8 {
        '8'
    } else {
        '9'
    }
}

/// The decimal rendering of a non-negative number, most significant digit
/// first, without leading zeroes (a lone zero for zero).
pub open spec fn spec_decimal(n: int) -> Seq<char>
    decreases n,
{
    if n < 10 {
        seq![digit_char(n)]
    } else {
        spec_decimal(n / 10) + seq![digit_char(n % 10)]
    }
}

/// One decimal digit as a string slice.
fn digit_str(d: u64) -> (s: &'static str)
    requires
        d < 10,
    ensures
        s@ == seq![digit_char(d as int)],
{
    let r: &'static str = if d == 0 {
        "0"
    } else if d == 1 {
        "1"
    } else if d == 2 {
        "2"
    } else if d == 3 {
        "3"
    } else if d == 4 {
        "4"
    } else if d == 5 {
        "5"
    } else if d == 6 {
        "6"
    } else if d == 7 {
        "7"
    } else if d == 8 {
        "8"
    } else {
        "9"
    };
    proof {
        reveal_strlit("0");
        reveal_strlit("1");
        reveal_strlit("2");
        reveal_strlit("3");
        reveal_strlit("4");
        reveal_strlit("5");
        reveal_strlit("6");
        reveal_strlit("7");
        reveal_strlit("8");
        reveal_strlit("9");
        assert(r@ =~= seq![digit_char(d as int)]);
    }
    r
}

/// The decimal rendering of `n`.
pub fn decimal_string(n: u64) -> (s: String)
    ensures
        s@ == spec_decimal(n as int),
    decreases n,
{
    if n < 10 {
        let mut s = String::new();
        s.append(digit_str(n));
        s
    } else {
        let mut s = decimal_string(n / 10);
        s.append(digit_str(n % 10));
        s
    }
}

/// The characters of `s`, in order.
pub fn chars_of(s: &str) -> (v: Vec<char>)
    ensures
        v@ == s@,
{
    let n: usize = s.unicode_len();
    let mut v: Vec<char> = Vec::new();
    let mut i: usize = 0;
    while i < n
        invariant
            n == s@.len(),
            i <= n,
            v@ == s@.take(i as int),
        decreases n - i,
    {
        v.push(s.get_char(i));
        i = i + 1;
        proof {
            assert(v@ =~= s@.take(i as int));
        }
    }
    proof {
        assert(s@.take(n as int) =~= s@);
    }
    v
}

/// Whether two character vectors hold the same sequence.
pub fn char_seq_eq(a: &Vec<char>, b: &Vec<char>) -> (r: bool)
    ensures
        r == (a@ == b@),
{
    if a.len() != b.len() {
        return false;
    }
    let mut i: usize = 0;
    while i < a.len()
        invariant
            a@.len() == b@.len(),
            i <= a@.len(),
            forall|j: int| 0 <= j < i ==> a@[j] == b@[j],
        decreases a@.len() - i,
    {
        if a[i] != b[i] {
            return false;
        }
        i = i + 1;
    }
    proof {
        assert(a@ =~= b@);
    }
    true
}

/// Whether `needle` matches `hay` starting at offset `k`.
fn matches_at(hay: &Vec<char>, needle: &Vec<char>, k: usize) -> (r: bool)
    requires
        k + needle@.len() <= hay@.len(),
    ensures
        r == (hay@.subrange(k as int, k as int + needle@.len() as int) == needle@),
{
    let hn: usize = hay.len();
    let mut j: usize = 0;
    while j < needle.len()
        invariant
            k + needle@.len() <= hay@.len(),
            hn == hay@.len(),
            j <= needle@.len(),
            forall|t: int| 0 <= t < j ==> hay@[k + t] == needle@[t],
        decreases needle@.len() - j,
    {
        if hay[k + j] != needle[j] {
            proof {
                assert(hay@.subrange(k as int, k as int + needle@.len() as int)[j as int]
                    != needle@[j as int]);
            }
            return false;
        }
        j = j + 1;
    }
    proof {
        assert(hay@.subrange(k as int, k as int + needle@.len() as int) =~= needle@);
    }
    true
}

/// Whether `needle` occurs contiguously inside `hay`.
pub fn contains_chars(hay: &Vec<char>, needle: &Vec<char>) -> (r: bool)
    ensures
        r == contains_seq(hay@, needle@),
{
    if needle.len() > hay.len() {
        return false;
    }
    let bound: usize = hay.len() - needle.len();
    let mut k: usize = 0;
    while k < bound
        invariant
            needle@.len() <= hay@.len(),
            bound == hay@.len() - needle@.len(),
            k <= bound,
            forall|k2: int|
                0 <= k2 < k ==> #[trigger] hay@.subrange(k2, k2 + needle@.len() as int)
                    != needle@,
        decreases bound - k,
    {
        if matches_at(hay, needle, k) {
            return true;
        }
        k = k + 1;
    }
    if matches_at(hay, needle, bound) {
        return true;
    }
    false
}

proof fn lemma_leading_spaces_value(s: Seq<char>, i: int)
    requires
        0 <= i <= s.len(),
        forall|j: int| 0 <= j < i ==> s[j] == ' ',
        i < s.len() ==> s[i] != ' ',
    ensures
        spec_leading_spaces(s) == i,
    decreases i,
{
    if i == 0 {
    } else {
        assert(s[0] == ' ');
        lemma_leading_spaces_value(s.skip(1), i - 1);
    }
}

proof fn lemma_prefix_until_value(s: Seq<char>, c: char, i: int)
    requires
        0 <= i <= s.len(),
        forall|j: int| 0 <= j < i ==> s[j] != c,
        i < s.len() ==> s[i] == c,
    ensures
        spec_prefix_until(s, c) == i,
    decreases i,
{
    if i == 0 {
    } else {
        assert(s[0] != c);
        lemma_prefix_until_value(s.skip(1), c, i - 1);
    }
}

/// The first whitespace-delimited word of `s`.
pub fn first_token_of(s: &Vec<char>) -> (t: Vec<char>)
    ensures
        t@ == first_token(s@),
{
    let n: usize = s.len();
    let mut i: usize = 0;
    while i < n && s[i] == ' '
        invariant
            n == s@.len(),
            i <= n,
            forall|j: int| 0 <= j < i ==> s@[j] == ' ',
        decreases n - i,
    {
        i = i + 1;
    }
    proof {
        lemma_leading_spaces_value(s@, i as int);
    }
    let mut j: usize = i;
    while j < n && s[j] != ' '
        invariant
            n == s@.len(),
            i <= j <= n,
            forall|t: int| i <= t < j ==> s@[t] != ' ',
        decreases n - j,
    {
        j = j + 1;
    }
    proof {
        lemma_prefix_until_value(s@.skip(i as int), ' ', j - i);
    }
    let mut t: Vec<char> = Vec::new();
    let mut k: usize = i;
    while k < j
        invariant
            i <= k <= j <= s@.len(),
            t@ == s@.subrange(i as int, k as int),
        decreases j - k,
    {
        t.push(s[k]);
        k = k + 1;
        proof {
            assert(t@ =~= s@.subrange(i as int, k as int));
        }
    }
    proof {
        let rest = s@.skip(i as int);
        assert(rest.take(j - i) =~= s@.subrange(i as int, j as int));
    }
    t
}

/// The pieces of `s` between occurrences of `sep`.
pub fn split_chars(s: &Vec<char>, sep: char) -> (r: Vec<Vec<char>>)
    ensures
        views_of(r@) == split_on(s@, sep),
        r@.len() >= 1,
{
    let mut done: Vec<Vec<char>> = Vec::new();
    let mut cur: Vec<char> = Vec::new();
    let mut i: usize = 0;
    while i < s.len()
        invariant
            i <= s@.len(),
            views_of(done@).push(cur@) == split_on(s@.take(i as int), sep),
        decreases s@.len() - i,
    {
        proof {
            lemma_split_on_push(s@.take(i as int), sep, s@[i as int]);
            assert(s@.take(i as int).push(s@[i as int]) =~= s@.take(i + 1));
        }
        if s[i] == sep {
            let ghost prev_done = done@;
            let ghost prev_cur = cur@;
            done.push(cur);
            cur = Vec::new();
            proof {
                assert(views_of(done@) =~= views_of(prev_done).push(prev_cur));
                assert(views_of(done@).push(cur@) =~= split_on(s@.take(i as int), sep).push(
                    Seq::<char>::empty(),
                ));
            }
        } else {
            let ghost prev = views_of(done@).push(cur@);
            cur.push(s[i]);
            proof {
                assert(views_of(done@).push(cur@) =~= prev.drop_last().push(
                    prev.last().push(s@[i as int]),
                ));
            }
        }
        i = i + 1;
    }
    proof {
        assert(s@.take(s@.len() as int) =~= s@);
    }
    let ghost final_done = done@;
    let ghost final_cur = cur@;
    done.push(cur);
    proof {
        assert(views_of(done@) =~= views_of(final_done).push(final_cur));
    }
    done
}

} // verus!
