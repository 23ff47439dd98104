//! Verified string utilities shared by the parsers, the path rules and the
//! task pipeline: character access, substring search, split, join and
//! replacement, each specified over `Seq<char>`.

use vstd::prelude::*;

verus! {

/// Relies on `String::push`: appends exactly one character to the string.
#[verifier::external_body]
pub fn push_char(s: &mut String, c: char)
    ensures
        final(s)@ == old(s)@.push(c),
{
    s.push(c);
}

/// The characters of `s`, as a vector.
pub fn to_chars(s: &str) -> (v: Vec<char>)
    ensures
        v@ == s@,
{
    let n: usize = s.unicode_len();
    let mut v: Vec<char> = Vec::new();
    let mut i: usize = 0;
    while i < n
        invariant
            i <= n,
            n == s@.len(),
            v@ == s@.subrange(0, i as int),
        decreases n - i,
    {
        v.push(s.get_char(i));
        i = i + 1;
        assert(v@ =~= s@.subrange(0, i as int));
    }
    assert(v@ =~= s@);
    v
}

/// A string holding exactly the characters of `v`.
pub fn from_chars(v: &Vec<char>) -> (s: String)
    ensures
        s@ == v@,
{
    let mut s = String::new();
    let mut i: usize = 0;
    while i < v.len()
        invariant
            i <= v@.len(),
            s@ == v@.subrange(0, i as int),
        decreases v@.len() - i,
    {
        push_char(&mut s, v[i]);
        i = i + 1;
        assert(s@ =~= v@.subrange(0, i as int));
    }
    assert(s@ =~= v@);
    s
}

/// Whether two strings hold the same characters.
pub fn str_equal(a: &str, b: &str) -> (r: bool)
    ensures
        r == (a@ == b@),
{
    let la: usize = a.unicode_len();
    let lb: usize = b.unicode_len();
    if la != lb {
        return false;
    }
    let mut i: usize = 0;
    while i < la
        invariant
            i <= la,
            la == a@.len() == b@.len(),
            forall|j: int| 0 <= j < i ==> a@[j] == b@[j],
        decreases la - i,
    {
        if a.get_char(i) != b.get_char(i) {
            assert(a@[i as int] != b@[i as int]);
            return false;
        }
        i = i + 1;
    }
    assert(a@ =~= b@);
    true
}

/// Whether two character vectors hold the same characters.
pub fn chars_equal(a: &Vec<char>, b: &Vec<char>) -> (r: bool)
    ensures
        r == (a@ == b@),
{
    if a.len() != b.len() {
        return false;
    }
    let mut i: usize = 0;
    while i < a.len()
        invariant
            a@.len() == b@.len(),
            i <= a@.len(),
            forall|j: int| 0 <= j < i ==> a@[j] == b@[j],
        decreases a@.len() - i,
    {
        if a[i] != b[i] {
            return false;
        }
        i = i + 1;
    }
    assert(a@ =~= b@);
    true
}

/// Whether one of the strings of `v` holds exactly the characters of `s`.
pub fn contains_string(v: &Vec<String>, s: &str) -> (r: bool)
    ensures
        r == str_views(v@).contains(s@),
{
    let mut i: usize = 0;
    while i < v.len()
        invariant
            i <= v@.len(),
            forall|j: int| 0 <= j < i ==> str_views(v@)[j] != s@,
        decreases v@.len() - i,
    {
        if str_equal(v[i].as_str(), s) {
            assert(str_views(v@)[i as int] == s@);
            return true;
        }
        i = i + 1;
    }
    assert forall|j: int| 0 <= j < str_views(v@).len() implies str_views(v@)[j] != s@ by {}
    false
}

/// The needle `n` occurs in `h` starting at position `i`.
pub open spec fn match_at(h: Seq<char>, n: Seq<char>, i: int) -> bool {
    0 <= i && i + n.len() <= h.len() && h.subrange(i, i + n.len()) == n
}

/// `n` occurs somewhere in `h`.
pub open spec fn contains_seq(h: Seq<char>, n: Seq<char>) -> bool {
    exists|i: int| match_at(h, n, i)
}

/// `h` starts with `n`.
pub open spec fn starts_with_seq(h: Seq<char>, n: Seq<char>) -> bool {
    match_at(h, n, 0)
}

/// `h` ends with `n`.
pub open spec fn ends_with_seq(h: Seq<char>, n: Seq<char>) -> bool {
    match_at(h, n, h.len() - n.len())
}

/// Whether `n` occurs in `h` at position `i`, decided by character comparison.
pub fn check_match_at(h: &Vec<char>, n: &Vec<char>, i: usize) -> (r: bool)
    ensures
        r == match_at(h@, n@, i as int),
{
    if i > h.len() || n.len() > h.len() - i {
        assert(!match_at(h@, n@, i as int));
        return false;
    }
    let mut j: usize = 0;
    while j < n.len()
        invariant
            i + n@.len() <= h@.len(),
            j <= n@.len(),
            forall|k: int| 0 <= k < j ==> h@[i + k] == n@[k],
        decreases n@.len() - j,
    {
        assert(i + j < h@.len());
        if h[i + j] != n[j] {
            assert(h@.subrange(i as int, i + n@.len())[j as int] != n@[j as int]);
            return false;
        }
        j = j + 1;
    }
    assert(h@.subrange(i as int, i + n@.len()) =~= n@);
    true
}

/// `h` starts with `n`.
pub fn check_starts_with(h: &Vec<char>, n: &Vec<char>) -> (r: bool)
    ensures
        r == starts_with_seq(h@, n@),
{
    check_match_at(h, n, 0)
}

/// `h` ends with `n`.
pub fn check_ends_with(h: &Vec<char>, n: &Vec<char>) -> (r: bool)
    ensures
        r == ends_with_seq(h@, n@),
{
    if n.len() > h.len() {
        return false;
    }
    check_match_at(h, n, h.len() - n.len())
}

/// The position of the first occurrence of `n` in `h`, if any.
pub fn find_first(h: &Vec<char>, n: &Vec<char>) -> (r: Option<usize>)
    ensures
        match r {
            Some(i) => match_at(h@, n@, i as int) && forall|j: int|
                0 <= j < i ==> !match_at(h@, n@, j),
            None => forall|j: int| !match_at(h@, n@, j),
        },
{
    if n.len() == 0 {
        assert(h@.subrange(0, 0) =~= n@);
        return Some(0);
    }
    let mut i: usize = 0;
    while i < h.len()
        invariant
            n@.len() > 0,
            forall|j: int| 0 <= j < i ==> !match_at(h@, n@, j),
        decreases h@.len() - i,
    {
        if check_match_at(h, n, i) {
            return Some(i);
        }
        i = i + 1;
    }
    assert(forall|j: int| j >= h@.len() ==> !match_at(h@, n@, j));
    None
}

/// The position of the last occurrence of `n` in `h`, if any.
pub fn find_last(h: &Vec<char>, n: &Vec<char>) -> (r: Option<usize>)
    ensures
        match r {
            Some(i) => match_at(h@, n@, i as int) && forall|j: int|
                i < j ==> !match_at(h@, n@, j),
            None => forall|j: int| !match_at(h@, n@, j),
        },
{
    if n.len() == 0 {
        assert(h@.subrange(h@.len() as int, h@.len() as int) =~= n@);
        return Some(h.len());
    }
    let mut i: usize = h.len();
    while i > 0
        invariant
            n@.len() > 0,
            i <= h@.len(),
            forall|j: int| i <= j ==> !match_at(h@, n@, j),
        decreases i,
    {
        i = i - 1;
        if check_match_at(h, n, i) {
            return Some(i);
        }
    }
    None
}

/// `n` occurs somewhere in `h`.
pub fn check_contains(h: &Vec<char>, n: &Vec<char>) -> (r: bool)
    ensures
        r == contains_seq(h@, n@),
{
    match find_first(h, n) {
        Some(i) => {
            assert(match_at(h@, n@, i as int));
            true
        },
        None => false,
    }
}

/// The characters of `h` from `a` (inclusive) to `b` (exclusive).
pub fn sub_vec(h: &Vec<char>, a: usize, b: usize) -> (v: Vec<char>)
    requires
        a <= b <= h@.len(),
    ensures
        v@ == h@.subrange(a as int, b as int),
{
    let mut v: Vec<char> = Vec::new();
    let mut i: usize = a;
    while i < b
        invariant
            a <= i <= b,
            v@ == h@.subrange(a as int, i as int),
        decreases b - i,
    {
        v.push(h[i]);
        i = i + 1;
        assert(v@ =~= h@.subrange(a as int, i as int));
    }
    v
}

/// A copy of `h`.
pub fn copy_chars(h: &Vec<char>) -> (v: Vec<char>)
    ensures
        v@ == h@,
{
    let v = sub_vec(h, 0, h.len());
    assert(h@.subrange(0, h@.len() as int) =~= h@);
    v
}

/// The position of the first occurrence of `c` in `h`, or `-1`.
pub open spec fn first_char_idx(h: Seq<char>, c: char) -> int
    decreases h.len(),
{
    if h.len() == 0 {
        -1
    } else if h[0] == c {
        0
    } else {
        let r = first_char_idx(h.drop_first(), c);
        if r < 0 {
            -1
        } else {
            r + 1
        }
    }
}

pub proof fn lemma_first_char_idx(h: Seq<char>, c: char)
    ensures
        first_char_idx(h, c) == -1 ==> !contains_char(h, c),
        first_char_idx(h, c) != -1 ==> {
            let r = first_char_idx(h, c);
            &&& 0 <= r < h.len()
            &&& h[r] == c
            &&& forall|j: int| 0 <= j < r ==> h[j] != c
        },
    decreases h.len(),
{
    if h.len() > 0 && h[0] != c {
        lemma_first_char_idx(h.drop_first(), c);
        let t = h.drop_first();
        let r = first_char_idx(t, c);
        if r < 0 {
            assert forall|i: int| 0 <= i < h.len() implies h[i] != c by {
                if i > 0 {
                    assert(t[i - 1] != c);
                }
            }
        } else {
            assert(h[r + 1] == t[r]);
            assert forall|j: int| 0 <= j < r + 1 implies h[j] != c by {
                if j > 0 {
                    assert(t[j - 1] != c);
                }
            }
        }
    }
}

/// The position of the first occurrence of `c` in `h`, if any.
pub fn find_char(h: &Vec<char>, c: char) -> (r: Option<usize>)
    ensures
        match r {
            Some(i) => i == first_char_idx(h@, c),
            None => first_char_idx(h@, c) == -1,
        },
{
    let mut i: usize = 0;
    while i < h.len()
        invariant
            i <= h@.len(),
            forall|j: int| 0 <= j < i ==> h@[j] != c,
        decreases h@.len() - i,
    {
        if h[i] == c {
            proof {
                lemma_first_char_idx(h@, c);
            }
            return Some(i);
        }
        i = i + 1;
    }
    proof {
        lemma_first_char_idx(h@, c);
    }
    None
}

/// The views of a vector of character vectors.
pub open spec fn char_views(parts: Seq<Vec<char>>) -> Seq<Seq<char>> {
    parts.map_values(|p: Vec<char>| p@)
}

/// The views of a vector of strings.
pub open spec fn str_views(parts: Seq<String>) -> Seq<Seq<char>> {
    parts.map_values(|s: String| s@)
}

/// `h` split at every occurrence of `c`; an `n`-occurrence string yields
/// `n + 1` parts, none holding `c`.
pub open spec fn split_char_spec(h: Seq<char>, c: char) -> Seq<Seq<char>>
    decreases h.len(),
{
    let i = first_char_idx(h, c);
    if 0 <= i < h.len() {
        seq![h.subrange(0, i)] + split_char_spec(h.subrange(i + 1, h.len() as int), c)
    } else {
        seq![h]
    }
}

/// Splits `h` at every occurrence of `c`.
pub fn split_by_char(h: &Vec<char>, c: char) -> (parts: Vec<Vec<char>>)
    ensures
        char_views(parts@) == split_char_spec(h@, c),
    decreases h@.len(),
{
    proof {
        lemma_first_char_idx(h@, c);
    }
    match find_char(h, c) {
        None => {
            let mut parts: Vec<Vec<char>> = Vec::new();
            parts.push(copy_chars(h));
            assert(char_views(parts@) =~= split_char_spec(h@, c));
            parts
        },
        Some(i) => {
            proof {
                assert((i as int) < h@.len());
            }
            let hl: usize = h.len();
            assert(i < hl);
            let head = sub_vec(h, 0, i);
            let tail = sub_vec(h, i + 1, hl);
            let mut parts = split_by_char(&tail, c);
            parts.insert(0, head);
            assert(char_views(parts@) =~= seq![h@.subrange(0, i as int)] + split_char_spec(
                tail@,
                c,
            ));
            parts
        },
    }
}

/// The parts of `parts` joined with `c` between consecutive parts.
pub open spec fn join_char_spec(parts: Seq<Seq<char>>, c: char) -> Seq<char>
    decreases parts.len(),
{
    if parts.len() == 0 {
        Seq::empty()
    } else if parts.len() == 1 {
        parts[0]
    } else {
        parts[0] + seq![c] + join_char_spec(parts.drop_first(), c)
    }
}

pub proof fn lemma_join_push(parts: Seq<Seq<char>>, p: Seq<char>, c: char)
    ensures
        parts.len() == 0 ==> join_char_spec(parts.push(p), c) == p,
        parts.len() > 0 ==> join_char_spec(parts.push(p), c) == join_char_spec(parts, c) + seq![c]
            + p,
    decreases parts.len(),
{
    if parts.len() == 0 {
        assert(join_char_spec(parts.push(p), c) =~= p);
    } else if parts.len() == 1 {
        assert(parts.push(p).drop_first() =~= seq![p]);
        assert(join_char_spec(seq![p], c) == p);
        assert(parts.push(p)[0] == parts[0]);
        assert(join_char_spec(parts.push(p), c) =~= parts[0] + seq![c] + p);
    } else {
        lemma_join_push(parts.drop_first(), p, c);
        assert(parts.push(p).drop_first() =~= parts.drop_first().push(p));
        assert(parts.push(p)[0] == parts[0]);
        assert(join_char_spec(parts, c) + seq![c] + p =~= parts[0] + seq![c] + (join_char_spec(
            parts.drop_first(),
            c,
        ) + seq![c] + p));
    }
}

/// Joins the strings of `parts` with the separator `c`.
pub fn join_strings(parts: &Vec<String>, c: char) -> (s: String)
    ensures
        s@ == join_char_spec(str_views(parts@), c),
{
    let mut s = String::new();
    let mut i: usize = 0;
    while i < parts.len()
        invariant
            i <= parts@.len(),
            s@ == join_char_spec(str_views(parts@).subrange(0, i as int), c),
        decreases parts@.len() - i,
    {
        if i > 0 {
            push_char(&mut s, c);
        }
        s.append(parts[i].as_str());
        proof {
            lemma_join_push(str_views(parts@).subrange(0, i as int), parts@[i as int]@, c);
            assert(str_views(parts@).subrange(0, i + 1) =~= str_views(parts@).subrange(
                0,
                i as int,
            ).push(str_views(parts@)[i as int]));
        }
        i = i + 1;
    }
    assert(str_views(parts@).subrange(0, parts@.len() as int) =~= str_views(parts@));
    s
}

/// The position of the first occurrence of `n` in `h`, or `-1`.
pub open spec fn first_match_idx(h: Seq<char>, n: Seq<char>) -> int
    decreases h.len(),
{
    if starts_with_seq(h, n) {
        0
    } else if h.len() == 0 {
        -1
    } else {
        let r = first_match_idx(h.drop_first(), n);
        if r < 0 {
            -1
        } else {
            r + 1
        }
    }
}

pub proof fn lemma_first_match_idx(h: Seq<char>, n: Seq<char>)
    ensures
        first_match_idx(h, n) == -1 ==> forall|j: int| !match_at(h, n, j),
        first_match_idx(h, n) != -1 ==> {
            let r = first_match_idx(h, n);
            &&& 0 <= r
            &&& match_at(h, n, r)
            &&& forall|j: int| 0 <= j < r ==> !match_at(h, n, j)
        },
    decreases h.len(),
{
    if !starts_with_seq(h, n) && h.len() > 0 {
        let t = h.drop_first();
        lemma_first_match_idx(t, n);
        assert forall|j: int| 1 <= j && j + n.len() <= h.len() implies match_at(h, n, j)
            == match_at(t, n, j - 1) by {
            assert(t.subrange(j - 1, j - 1 + n.len()) =~= h.subrange(j, j + n.len()));
        }
        let r = first_match_idx(t, n);
        if r < 0 {
            assert forall|j: int| true implies !match_at(h, n, j) by {
                if 1 <= j && j + n.len() <= h.len() {
                    assert(!match_at(t, n, j - 1));
                }
            }
        } else {
            assert(match_at(h, n, r + 1));
            assert forall|j: int| 0 <= j < r + 1 implies !match_at(h, n, j) by {
                if j >= 1 {
                    assert(!match_at(t, n, j - 1));
                }
            }
        }
    }
}

/// The position of the last occurrence of `n` in `h`, or `-1`.
pub open spec fn last_match_idx(h: Seq<char>, n: Seq<char>) -> int
    decreases h.len(),
{
    if n.len() > h.len() {
        -1
    } else if ends_with_seq(h, n) {
        h.len() - n.len()
    } else if h.len() == 0 {
        -1
    } else {
        last_match_idx(h.drop_last(), n)
    }
}

pub proof fn lemma_last_match_idx(h: Seq<char>, n: Seq<char>)
    ensures
        last_match_idx(h, n) == -1 ==> forall|j: int| !match_at(h, n, j),
        last_match_idx(h, n) != -1 ==> {
            let r = last_match_idx(h, n);
            &&& 0 <= r
            &&& match_at(h, n, r)
            &&& forall|j: int| j > r ==> !match_at(h, n, j)
        },
    decreases h.len(),
{
    if n.len() > h.len() {
        assert forall|j: int| true implies !match_at(h, n, j) by {}
    } else if ends_with_seq(h, n) {
        assert forall|j: int| j > h.len() - n.len() implies !match_at(h, n, j) by {}
    } else if h.len() > 0 {
        let t = h.drop_last();
        lemma_last_match_idx(t, n);
        assert forall|j: int| 0 <= j && j + n.len() <= t.len() implies match_at(h, n, j)
            == match_at(t, n, j) by {
            assert(t.subrange(j, j + n.len()) =~= h.subrange(j, j + n.len()));
        }
        let r = last_match_idx(t, n);
        if r == -1 {
            assert forall|j: int| true implies !match_at(h, n, j) by {
                if 0 <= j && j + n.len() <= t.len() {
                    assert(!match_at(t, n, j));
                } else if j == h.len() - n.len() {
                    assert(!ends_with_seq(h, n));
                }
            }
        } else {
            assert(match_at(h, n, r));
            assert forall|j: int| j > r implies !match_at(h, n, j) by {
                if 0 <= j && j + n.len() <= t.len() {
                    assert(!match_at(t, n, j));
                } else if j == h.len() - n.len() {
                    assert(!ends_with_seq(h, n));
                }
            }
        }
    }
}

/// The position of the last path separator (`\` or `/`) in `p`, or `-1`.
pub open spec fn last_sep_idx(p: Seq<char>) -> int {
    let b = last_match_idx(p, "\\"@);
    let f = last_match_idx(p, "/"@);
    if b >= f {
        b
    } else {
        f
    }
}

/// The folder part of `p`: what precedes the last path separator, empty
/// where there is none.
pub open spec fn parent_of(p: Seq<char>) -> Seq<char> {
    let i = last_sep_idx(p);
    if i >= 0 {
        p.subrange(0, i)
    } else {
        Seq::empty()
    }
}

/// The folder part of a path: what precedes the last `\` or `/`.
pub fn parent_dir(p: &str) -> (r: String)
    ensures
        r@ == parent_of(p@),
{
    let cs = to_chars(p);
    let back = to_chars("\\");
    let fwd = to_chars("/");
    proof {
        reveal_strlit("\\");
        reveal_strlit("/");
        assert("\\"@.len() == 1);
        assert("/"@.len() == 1);
        lemma_last_match_idx(cs@, "\\"@);
        lemma_last_match_idx(cs@, "/"@);
    }
    let n: usize = cs.len();
    let bi = find_last_checked(&cs, &back);
    let fi = find_last_checked(&cs, &fwd);
    let cut: usize = match (bi, fi) {
        (Some(b), Some(f)) => if b >= f {
            b
        } else {
            f
        },
        (Some(b), None) => b,
        (None, Some(f)) => f,
        (None, None) => {
            let empty = sub_vec(&cs, 0, 0);
            return from_chars(&empty);
        },
    };
    let folder = sub_vec(&cs, 0, cut);
    from_chars(&folder)
}

/// `find_last`, with its result related to `last_match_idx`.
pub fn find_last_checked(h: &Vec<char>, n: &Vec<char>) -> (r: Option<usize>)
    ensures
        match r {
            Some(i) => i as int == last_match_idx(h@, n@),
            None => last_match_idx(h@, n@) == -1,
        },
{
    proof {
        lemma_last_match_idx(h@, n@);
    }
    match find_last(h, n) {
        Some(i) => {
            proof {
                let lm = last_match_idx(h@, n@);
                if lm == -1 {
                    assert(!match_at(h@, n@, i as int));
                } else if lm < i {
                    assert(!match_at(h@, n@, i as int));
                } else if lm > i {
                    assert(!match_at(h@, n@, lm));
                }
            }
            Some(i)
        },
        None => {
            proof {
                if last_match_idx(h@, n@) >= 0 {
                    assert(match_at(h@, n@, last_match_idx(h@, n@)));
                }
            }
            None
        },
    }
}

/// `h` with every (leftmost-first, non-overlapping) occurrence of `n`
/// replaced by `r`.
pub open spec fn replace_spec(h: Seq<char>, n: Seq<char>, r: Seq<char>) -> Seq<char>
    decreases h.len(),
{
    let i = first_match_idx(h, n);
    if n.len() > 0 && 0 <= i && i + n.len() <= h.len() {
        h.subrange(0, i) + r + replace_spec(h.subrange(i + n.len(), h.len() as int), n, r)
    } else {
        h
    }
}

/// Replaces every occurrence of `n` in `h` by `r`, leftmost first.
pub fn replace_all(h: &Vec<char>, n: &Vec<char>, r: &Vec<char>) -> (out: Vec<char>)
    requires
        n@.len() > 0,
    ensures
        out@ == replace_spec(h@, n@, r@),
    decreases h@.len(),
{
    proof {
        lemma_first_match_idx(h@, n@);
    }
    match find_first(h, n) {
        None => {
            assert(first_match_idx(h@, n@) == -1) by {
                if first_match_idx(h@, n@) != -1 {
                    assert(match_at(h@, n@, first_match_idx(h@, n@)));
                }
            }
            copy_chars(h)
        },
        Some(i) => {
            assert(i as int == first_match_idx(h@, n@)) by {
                let f = first_match_idx(h@, n@);
                if f == -1 {
                    assert(!match_at(h@, n@, i as int));
                } else if f < i {
                    assert(!match_at(h@, n@, f));
                } else if f > i {
                    assert(!match_at(h@, n@, i as int));
                }
            }
            let hl: usize = h.len();
            assert(i + n@.len() <= hl);
            let head = sub_vec(h, 0, i);
            let tail = sub_vec(h, i + n.len(), hl);
            let rest = replace_all(&tail, n, r);
            let mut out = head;
            let mut mid = copy_chars(r);
            out.append(&mut mid);
            let mut restm = rest;
            out.append(&mut restm);
            assert(out@ =~= replace_spec(h@, n@, r@));
            out
        },
    }
}

/// The decimal digit character for `d`.
pub open spec fn digit_char(d: nat) -> char {
    if d == 0 {
        '0'
    } else if d == 1 {
        '1'
    } else if d == 2 {
        '2'
    } else if d == 3 {
        '3'
    } else if d == 4 {
        '4'
    } else if d == 5 {
        '5'
    } else if d == 6 {
        '6'
    } else if d == 7 {
        '7'
    } else if d == 8 {
        '8'
    } else {
        '9'
    }
}

/// The decimal digit string of `n`, without leading zeroes (except for `0`
/// itself).
pub open spec fn digits_spec(n: nat) -> Seq<char>
    decreases n,
{
    if n < 10 {
        seq![digit_char(n)]
    } else {
        digits_spec(n / 10).push(digit_char(n % 10))
    }
}

fn digit_to_char(d: u64) -> (c: char)
    requires
        d < 10,
    ensures
        c == digit_char(d as nat),
{
    match d {
        0 => '0',
        1 => '1',
        2 => '2',
        3 => '3',
        4 => '4',
        5 => '5',
        6 => '6',
        7 => '7',
        8 => '8',
        _ => '9',
    }
}

/// Appends the decimal digit string of `n` to `s`.
pub fn push_u64(s: &mut String, n: u64)
    ensures
        final(s)@ == old(s)@ + digits_spec(n as nat),
    decreases n,
{
    if n < 10 {
        push_char(s, digit_to_char(n));
        assert(final(s)@ =~= old(s)@ + digits_spec(n as nat));
    } else {
        push_u64(s, n / 10);
        push_char(s, digit_to_char(n % 10));
        assert(final(s)@ =~= old(s)@ + digits_spec(n as nat));
    }
}

/// The decimal digit string of `n`.
pub fn u64_to_string(n: u64) -> (s: String)
    ensures
        s@ == digits_spec(n as nat),
{
    let mut s = String::new();
    push_u64(&mut s, n);
    assert(s@ =~= digits_spec(n as nat));
    s
}

/// `c` lowered to its ASCII lower-case counterpart, other characters
/// unchanged.
pub open spec fn lower_char(c: char) -> char {
    if 'A' <= c <= 'Z' {
        ((c as u32) + 32) as char
    } else {
        c
    }
}

/// The ASCII lower-casing of `s`.
pub open spec fn lower_seq(s: Seq<char>) -> Seq<char> {
    s.map_values(|c: char| lower_char(c))
}

fn char_to_lower(c: char) -> (r: char)
    ensures
        r == lower_char(c),
{
    match c {
        'A' => 'a',
        'B' => 'b',
        'C' => 'c',
        'D' => 'd',
        'E' => 'e',
        'F' => 'f',
        'G' => 'g',
        'H' => 'h',
        'I' => 'i',
        'J' => 'j',
        'K' => 'k',
        'L' => 'l',
        'M' => 'm',
        'N' => 'n',
        'O' => 'o',
        'P' => 'p',
        'Q' => 'q',
        'R' => 'r',
        'S' => 's',
        'T' => 't',
        'U' => 'u',
        'V' => 'v',
        'W' => 'w',
        'X' => 'x',
        'Y' => 'y',
        'Z' => 'z',
        _ => c,
    }
}

/// Lower-cases the ASCII letters of `s`.
pub fn to_lower(s: &Vec<char>) -> (v: Vec<char>)
    ensures
        v@ == lower_seq(s@),
{
    let mut v: Vec<char> = Vec::new();
    let mut i: usize = 0;
    while i < s.len()
        invariant
            i <= s@.len(),
            v@ == lower_seq(s@.subrange(0, i as int)),
        decreases s@.len() - i,
    {
        v.push(char_to_lower(s[i]));
        i = i + 1;
        assert(v@ =~= lower_seq(s@.subrange(0, i as int)));
    }
    assert(s@.subrange(0, s@.len() as int) =~= s@);
    v
}

/// `c` occurs in `h`.
pub open spec fn contains_char(h: Seq<char>, c: char) -> bool {
    exists|i: int| 0 <= i < h.len() && h[i] == c
}

/// Whether the character `c` occurs in `h`.
pub fn check_contains_char(h: &Vec<char>, c: char) -> (r: bool)
    ensures
        r == contains_char(h@, c),
{
    let mut i: usize = 0;
    while i < h.len()
        invariant
            i <= h@.len(),
            forall|j: int| 0 <= j < i ==> h@[j] != c,
        decreases h@.len() - i,
    {
        if h[i] == c {
            return true;
        }
        i = i + 1;
    }
    false
}

/// Every character of `h` is ASCII.
pub open spec fn all_ascii(h: Seq<char>) -> bool {
    forall|i: int| 0 <= i < h.len() ==> (h[i] as u32) < 128
}

/// Whether every character of `h` is ASCII.
pub fn check_all_ascii(h: &Vec<char>) -> (r: bool)
    ensures
        r == all_ascii(h@),
{
    let mut i: usize = 0;
    while i < h.len()
        invariant
            i <= h@.len(),
            forall|j: int| 0 <= j < i ==> (h@[j] as u32) < 128,
        decreases h@.len() - i,
    {
        if h[i] as u32 >= 128 {
            return false;
        }
        i = i + 1;
    }
    true
}

} // verus!
