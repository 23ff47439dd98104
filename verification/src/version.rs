//! Semantic version ordering.
//!
//! A version string is read as its dot-separated components; each component
//! counts by the decimal value of its leading digit run (an empty or
//! digit-less component counts as zero). Versions compare componentwise,
//! with missing trailing components counting as zero. This is a numeric
//! ordering, not a lexical one: `"10.0"` is greater than `"9.3"`.

use vstd::prelude::*;

use crate::strutil::{
    char_views, digit_char, digits_spec, split_by_char, split_char_spec, sub_vec, to_chars,
};

verus! {

broadcast use vstd::utf8::char_is_scalar, vstd::utf8::char_u32_cast;

/// `c` is a decimal digit.
pub open spec fn is_digit(c: char) -> bool {
    48 <= (c as u32) <= 57
}

/// The value of the digit `c`; non-digits count as zero.
pub open spec fn digit_val(c: char) -> nat {
    if is_digit(c) {
        ((c as u32) - 48) as nat
    } else {
        0
    }
}

/// The decimal value of a digit string.
pub open spec fn digits_val(s: Seq<char>) -> nat
    decreases s.len(),
{
    if s.len() == 0 {
        0
    } else {
        digits_val(s.drop_last()) * 10 + digit_val(s.last())
    }
}

/// The length of the leading digit run of `s`.
pub open spec fn digit_prefix_len(s: Seq<char>) -> int
    decreases s.len(),
{
    if s.len() == 0 || !is_digit(s[0]) {
        0
    } else {
        1 + digit_prefix_len(s.drop_first())
    }
}

pub proof fn lemma_digit_prefix(s: Seq<char>)
    ensures
        0 <= digit_prefix_len(s) <= s.len(),
        forall|j: int| 0 <= j < digit_prefix_len(s) ==> is_digit(s[j]),
        digit_prefix_len(s) < s.len() ==> !is_digit(s[digit_prefix_len(s)]),
    decreases s.len(),
{
    if s.len() > 0 && is_digit(s[0]) {
        lemma_digit_prefix(s.drop_first());
        let t = s.drop_first();
        let d = digit_prefix_len(s);
        assert forall|j: int| 0 <= j < d implies is_digit(s[j]) by {
            if j > 0 {
                assert(is_digit(t[j - 1]));
            }
        }
        if d < s.len() {
            assert(!is_digit(t[d - 1]));
        }
    }
}

/// The numeric value of one version component: its leading digit run.
pub open spec fn component_val(s: Seq<char>) -> nat {
    digits_val(s.subrange(0, digit_prefix_len(s)))
}

/// The componentwise numeric reading of a version string.
pub open spec fn version_nums(s: Seq<char>) -> Seq<nat> {
    split_char_spec(s, '.').map_values(|p: Seq<char>| component_val(p))
}

/// Componentwise less-than on component sequences, missing trailing
/// components counting as zero.
pub open spec fn nums_lt(a: Seq<nat>, b: Seq<nat>) -> bool
    decreases a.len() + b.len(),
{
    if a.len() == 0 && b.len() == 0 {
        false
    } else {
        let ha: nat = if a.len() == 0 {
            0
        } else {
            a[0]
        };
        let hb: nat = if b.len() == 0 {
            0
        } else {
            b[0]
        };
        if ha < hb {
            true
        } else if ha > hb {
            false
        } else {
            nums_lt(
                if a.len() == 0 {
                    a
                } else {
                    a.drop_first()
                },
                if b.len() == 0 {
                    b
                } else {
                    b.drop_first()
                },
            )
        }
    }
}

/// `a` is strictly below `b` in the semantic version ordering.
pub open spec fn version_lt(a: Seq<char>, b: Seq<char>) -> bool {
    nums_lt(version_nums(a), version_nums(b))
}

/// Every character of a decimal digit string is a digit, and it is
/// never empty.
pub proof fn lemma_digits_spec_digits(n: nat)
    ensures
        digits_spec(n).len() >= 1,
        forall|i: int| 0 <= i < digits_spec(n).len() ==> is_digit(#[trigger] digits_spec(n)[i]),
    decreases n,
{
    if n < 10 {
        assert(is_digit(digit_char(n)));
    } else {
        lemma_digits_spec_digits(n / 10);
        assert(is_digit(digit_char(n % 10)));
        assert forall|i: int| 0 <= i < digits_spec(n).len() implies is_digit(
            #[trigger] digits_spec(n)[i],
        ) by {
            if i < digits_spec(n).len() - 1 {
                assert(digits_spec(n)[i] == digits_spec(n / 10)[i]);
            }
        }
    }
}

/// Reading a decimal digit string back gives the number it was written
/// from.
pub proof fn lemma_digits_roundtrip(n: nat)
    ensures
        digits_val(digits_spec(n)) == n,
    decreases n,
{
    if n < 10 {
        let s = digits_spec(n);
        assert(s.drop_last() =~= Seq::<char>::empty());
        assert(digits_val(Seq::<char>::empty()) == 0);
        assert(s.last() == digit_char(n));
        assert(digits_val(s) == digits_val(s.drop_last()) * 10 + digit_val(s.last()));
        assert(digit_val(digit_char(n)) == n);
    } else {
        lemma_digits_roundtrip(n / 10);
        let s = digits_spec(n);
        assert(s.drop_last() =~= digits_spec(n / 10));
        assert(s.last() == digit_char(n % 10));
        assert(digits_val(s) == digits_val(s.drop_last()) * 10 + digit_val(s.last()));
        assert(digit_val(digit_char(n % 10)) == n % 10);
        assert((n / 10) * 10 + n % 10 == n) by (nonlinear_arith);
    }
}

/// `10^n`.
pub open spec fn pow10(n: nat) -> nat
    decreases n,
{
    if n == 0 {
        1
    } else {
        10 * pow10((n - 1) as nat)
    }
}

proof fn lemma_pow10_pos(n: nat)
    ensures
        pow10(n) >= 1,
    decreases n,
{
    if n > 0 {
        lemma_pow10_pos((n - 1) as nat);
    }
}

proof fn lemma_pow10_mono(a: nat, b: nat)
    requires
        a <= b,
    ensures
        pow10(a) <= pow10(b),
        pow10(a) >= 1,
    decreases b,
{
    lemma_pow10_pos(a);
    if a < b {
        lemma_pow10_mono(a, (b - 1) as nat);
    }
}

proof fn lemma_val_upper(s: Seq<char>)
    ensures
        digits_val(s) < pow10(s.len()),
    decreases s.len(),
{
    if s.len() > 0 {
        lemma_val_upper(s.drop_last());
        assert(digit_val(s.last()) <= 9);
        assert(digits_val(s.drop_last()) * 10 + 9 < pow10(s.len())) by {
            assert(digits_val(s.drop_last()) + 1 <= pow10((s.len() - 1) as nat));
            assert((digits_val(s.drop_last()) + 1) * 10 <= pow10((s.len() - 1) as nat) * 10)
                by (nonlinear_arith)
                requires
                    digits_val(s.drop_last()) + 1 <= pow10((s.len() - 1) as nat),
            ;
            assert(pow10((s.len() - 1) as nat) * 10 == pow10(s.len()));
        }
    }
}

proof fn lemma_val_lower(s: Seq<char>)
    requires
        s.len() > 0,
        s[0] != '0',
        is_digit(s[0]),
    ensures
        digits_val(s) >= pow10((s.len() - 1) as nat),
    decreases s.len(),
{
    if s.len() == 1 {
        assert(('0' as u32) == 48);
        assert((s[0] as u32) != 48) by {
            vstd::utf8::char_u32_cast(s[0], s[0] as u32);
        }
        assert(digit_val(s[0]) >= 1);
        assert(digits_val(s) == digits_val(s.drop_last()) * 10 + digit_val(s.last()));
    } else {
        let d = s.drop_last();
        assert(d[0] == s[0]);
        lemma_val_lower(d);
        assert(digits_val(d) * 10 >= pow10((d.len() - 1) as nat) * 10) by (nonlinear_arith)
            requires
                digits_val(d) >= pow10((d.len() - 1) as nat),
        ;
        assert(pow10((d.len() - 1) as nat) * 10 == pow10((s.len() - 1) as nat));
    }
}

proof fn lemma_strip_zeros(s: Seq<char>, k: int)
    requires
        0 <= k <= s.len(),
        forall|j: int| 0 <= j < k ==> s[j] == '0',
    ensures
        digits_val(s) == digits_val(s.skip(k)),
    decreases s.len(),
{
    if k > 0 {
        let t = s.drop_first();
        assert(s[0] == '0');
        lemma_front_zero(s);
        lemma_strip_zeros(t, k - 1);
        assert(t.skip(k - 1) =~= s.skip(k));
    } else {
        assert(s.skip(0) =~= s);
    }
}

proof fn lemma_front_zero(s: Seq<char>)
    requires
        s.len() > 0,
        s[0] == '0',
    ensures
        digits_val(s) == digits_val(s.drop_first()),
    decreases s.len(),
{
    if s.len() == 1 {
        assert(digits_val(s) == digits_val(s.drop_last()) * 10 + digit_val(s.last()));
        assert(s.drop_first() =~= Seq::<char>::empty());
    } else {
        let d = s.drop_last();
        assert(d[0] == '0');
        lemma_front_zero(d);
        assert(s.drop_first().drop_last() =~= d.drop_first());
        assert(s.drop_first().last() == s.last());
        assert(digits_val(s.drop_first()) == digits_val(d.drop_first()) * 10 + digit_val(s.last()));
    }
}

proof fn lemma_lex(a: Seq<char>, b: Seq<char>, k: int)
    requires
        a.len() == b.len(),
        0 <= k < a.len(),
        forall|j: int| 0 <= j < k ==> a[j] == b[j],
        digit_val(a[k]) < digit_val(b[k]),
    ensures
        digits_val(a) < digits_val(b),
    decreases a.len(),
{
    if k == a.len() - 1 {
        assert(a.drop_last() =~= b.drop_last());
    } else {
        lemma_lex(a.drop_last(), b.drop_last(), k);
        let va = digits_val(a.drop_last());
        let vb = digits_val(b.drop_last());
        assert(digit_val(a.last()) <= 9);
        assert(va * 10 + 9 < vb * 10) by (nonlinear_arith)
            requires
                va < vb,
        ;
    }
}

/// Three-way comparison results.
enum Cmp {
    Lt,
    Eq,
    Gt,
}

/// Compares two digit strings by decimal value.
fn cmp_digit_runs(a: &Vec<char>, b: &Vec<char>) -> (o: Cmp)
    requires
        forall|j: int| 0 <= j < a@.len() ==> is_digit(a@[j]),
        forall|j: int| 0 <= j < b@.len() ==> is_digit(b@[j]),
    ensures
        o is Lt <==> digits_val(a@) < digits_val(b@),
        o is Eq <==> digits_val(a@) == digits_val(b@),
        o is Gt <==> digits_val(a@) > digits_val(b@),
{
    // Strip leading zeroes from both.
    let mut i: usize = 0;
    while i < a.len() && a[i] == '0'
        invariant
            i <= a@.len(),
            forall|j: int| 0 <= j < i ==> a@[j] == '0',
        decreases a@.len() - i,
    {
        i = i + 1;
    }
    let mut k: usize = 0;
    while k < b.len() && b[k] == '0'
        invariant
            k <= b@.len(),
            forall|j: int| 0 <= j < k ==> b@[j] == '0',
        decreases b@.len() - k,
    {
        k = k + 1;
    }
    let sa = sub_vec(a, i, a.len());
    let sb = sub_vec(b, k, b.len());
    proof {
        lemma_strip_zeros(a@, i as int);
        lemma_strip_zeros(b@, k as int);
        assert(a@.skip(i as int) =~= sa@);
        assert(b@.skip(k as int) =~= sb@);
    }
    if sa.len() < sb.len() {
        proof {
            lemma_val_upper(sa@);
            lemma_val_lower(sb@);
            lemma_pow10_mono(sa@.len(), (sb@.len() - 1) as nat);
        }
        return Cmp::Lt;
    }
    if sa.len() > sb.len() {
        proof {
            lemma_val_upper(sb@);
            lemma_val_lower(sa@);
            lemma_pow10_mono(sb@.len(), (sa@.len() - 1) as nat);
        }
        return Cmp::Gt;
    }
    // Same length without leading zeroes: compare digit by digit.
    let mut j: usize = 0;
    while j < sa.len()
        invariant
            sa@.len() == sb@.len(),
            j <= sa@.len(),
            forall|t: int| 0 <= t < j ==> sa@[t] == sb@[t],
            forall|t: int| 0 <= t < sa@.len() ==> is_digit(sa@[t]),
            forall|t: int| 0 <= t < sb@.len() ==> is_digit(sb@[t]),
        decreases sa@.len() - j,
    {
        let ca = sa[j];
        let cb = sb[j];
        if (ca as u32) < (cb as u32) {
            proof {
                lemma_lex(sa@, sb@, j as int);
            }
            return Cmp::Lt;
        }
        if (ca as u32) > (cb as u32) {
            proof {
                lemma_lex(sb@, sa@, j as int);
            }
            return Cmp::Gt;
        }
        proof {
            vstd::utf8::char_u32_cast(ca, ca as u32);
            vstd::utf8::char_u32_cast(cb, cb as u32);
            assert(ca == cb);
        }
        j = j + 1;
    }
    assert(sa@ =~= sb@);
    Cmp::Eq
}

/// The leading digit run of `p`.
fn digit_run(p: &Vec<char>) -> (d: Vec<char>)
    ensures
        d@ == p@.subrange(0, digit_prefix_len(p@)),
        forall|j: int| 0 <= j < d@.len() ==> is_digit(d@[j]),
        digits_val(d@) == component_val(p@),
{
    proof {
        lemma_digit_prefix(p@);
    }
    let mut i: usize = 0;
    while i < p.len() && (48 <= p[i] as u32 && p[i] as u32 <= 57)
        invariant
            i <= p@.len(),
            forall|j: int| 0 <= j < i ==> is_digit(p@[j]),
        decreases p@.len() - i,
    {
        i = i + 1;
    }
    assert(i as int == digit_prefix_len(p@)) by {
        let d = digit_prefix_len(p@);
        if d < i {
            assert(is_digit(p@[d]));
        }
        if d > i {
            assert(is_digit(p@[i as int]));
        }
    }
    let d = sub_vec(p, 0, i);
    assert(forall|j: int| 0 <= j < d@.len() ==> is_digit(#[trigger] d@[j]));
    d
}

/// The helper sequence `s` with its first `i` elements dropped, empty once
/// `i` passes the end.
spec fn skip_to(s: Seq<nat>, i: int) -> Seq<nat> {
    if i <= s.len() {
        s.skip(i)
    } else {
        Seq::empty()
    }
}

/// Whether version `a` is strictly below version `b` in the semantic
/// (dot-separated numeric) ordering.
pub fn version_less(a: &str, b: &str) -> (r: bool)
    ensures
        r == version_lt(a@, b@),
{
    let ca = to_chars(a);
    let cb = to_chars(b);
    let pa = split_by_char(&ca, '.');
    let pb = split_by_char(&cb, '.');
    let ghost na = version_nums(a@);
    let ghost nb = version_nums(b@);
    proof {
        assert(na =~= char_views(pa@).map_values(|p: Seq<char>| component_val(p)));
        assert(nb =~= char_views(pb@).map_values(|p: Seq<char>| component_val(p)));
    }
    let mut i: usize = 0;
    let empty: Vec<char> = Vec::new();
    proof {
        assert(skip_to(na, 0) =~= na);
        assert(skip_to(nb, 0) =~= nb);
    }
    while i < pa.len() || i < pb.len()
        invariant
            na.len() == pa@.len(),
            nb.len() == pb@.len(),
            forall|t: int| 0 <= t < na.len() ==> na[t] == component_val(pa@[t]@),
            forall|t: int| 0 <= t < nb.len() ==> nb[t] == component_val(pb@[t]@),
            nums_lt(na, nb) == nums_lt(skip_to(na, i as int), skip_to(nb, i as int)),
        decreases pa@.len() + pb@.len() - i,
    {
        let ra = if i < pa.len() {
            digit_run(&pa[i])
        } else {
            sub_vec(&empty, 0, 0)
        };
        let rb = if i < pb.len() {
            digit_run(&pb[i])
        } else {
            sub_vec(&empty, 0, 0)
        };
        proof {
            if i < pa@.len() {
                assert(digits_val(ra@) == na[i as int]);
            } else {
                assert(ra@ =~= Seq::<char>::empty());
            }
            if i < pb@.len() {
                assert(digits_val(rb@) == nb[i as int]);
            } else {
                assert(rb@ =~= Seq::<char>::empty());
            }
        }
        let ghost sa = skip_to(na, i as int);
        let ghost sb = skip_to(nb, i as int);
        proof {
            if i < na.len() {
                assert(sa[0] == na[i as int]);
            }
            if i < nb.len() {
                assert(sb[0] == nb[i as int]);
            }
            assert(skip_to(na, i + 1) =~= if sa.len() == 0 {
                sa
            } else {
                sa.drop_first()
            });
            assert(skip_to(nb, i + 1) =~= if sb.len() == 0 {
                sb
            } else {
                sb.drop_first()
            });
        }
        match cmp_digit_runs(&ra, &rb) {
            Cmp::Lt => {
                assert(nums_lt(sa, sb));
                return true;
            },
            Cmp::Gt => {
                assert(!nums_lt(sa, sb));
                return false;
            },
            Cmp::Eq => {
                assert(nums_lt(sa, sb) == nums_lt(skip_to(na, i + 1), skip_to(nb, i + 1)));
            },
        }
        i = i + 1;
    }
    proof {
        assert(skip_to(na, i as int) =~= Seq::<nat>::empty());
        assert(skip_to(nb, i as int) =~= Seq::<nat>::empty());
    }
    false
}

} // verus!
