//! What single-precision factors make of every width, and how numbers, shapes and members are written.
use vstd::arithmetic::power2::{lemma2_to64, lemma2_to64_rest, lemma_pow2_adds, lemma_pow2_pos, pow2};
use vstd::prelude::*;
use vstd::string::*;
use crate::json::{json_debug, members_text, ScalingBlock};
use crate::single::{excess, nearest, scale_width, scaled_width, whole_part, Single};
use crate::text;
use crate::text::{debug_text, dec, dec_int, tail_text, Text};

verus! {

/// A number is finite unless its exponent is full, positive above zero up to infinity, and one in one
/// pattern only.
pub proof fn bit_patterns_are_told_apart(s: Single, finite: bool, positive: bool, one: bool)
    requires
        call_ensures(Single::is_finite, (&s,), finite),
        call_ensures(Single::is_positive, (&s,), positive),
        call_ensures(Single::is_one, (&s,), one),
    ensures
        finite <==> s.bits as int % 0x8000_0000 < 0x7f80_0000,
        positive <==> 0 < s.bits <= 0x7f80_0000,
        one <==> s.bits == 0x3f80_0000,
{
    let e = (s.bits as nat) / 0x80_0000;
    vstd::arithmetic::div_mod::lemma_fundamental_div_mod(s.bits as int, 0x80_0000);
    assert(e < 512);
    assert((s.bits as int) % 0x8000_0000 == (if s.bits >= 0x8000_0000 { s.bits - 0x8000_0000 } else { s.bits as int }));
    assert(e % 256 == (if e >= 256 { (e - 256) as nat } else { e }));
}

/// A copy is the same number in the same writing.
pub proof fn copies_are_equal(s: Single, r: Single)
    requires
        call_ensures(Single::copy, (&s,), r),
    ensures
        r.bits == s.bits,
        r.text@ == s.text@,
{
}

/// A factor `m * 2^(e - 150)` makes of a width the whole part of the product, wherever the product has
/// no more digits than a single holds; the sign of the factor is the sign of the result.
pub proof fn exact_products_are_cut_to_whole_widths(f: Single, width: usize, r: i32, m: nat, e: nat, c: nat, j: nat)
    requires
        call_ensures(scale_width, (&f, width), r),
        width < 0x100_0000,
        m == f.bits as nat % 0x80_0000 + 0x80_0000,
        e == (f.bits as nat % 0x8000_0000) / 0x80_0000,
        1 <= e <= 150,
        m * width as nat == c * pow2(j),
        c < 0x100_0000,
        (m * width as nat) / pow2((150 - e) as nat) <= 0x7fff_ffff,
    ensures
        f.bits < 0x8000_0000 ==> r == (m * width as nat) / pow2((150 - e) as nat),
        f.bits >= 0x8000_0000 ==> r == -((m * width as nat) / pow2((150 - e) as nat)),
{
    let w = width as nat;
    let p = m * w;
    let x = excess(p);
    lemma2_to64();
    let b = f.bits as nat;
    assert(b / 0x80_0000 % 256 == e) by {
        vstd::arithmetic::div_mod::lemma_fundamental_div_mod(b as int, 0x80_0000);
    }
    assert(excess(w) == 0);
    assert(nearest(w, 0) == w);
    lemma_pow2_adds(24, j);
    lemma_pow2_pos(j);
    assert(c * pow2(j) < 0x100_0000 * pow2(j)) by (nonlinear_arith)
        requires c < 0x100_0000, pow2(j) > 0;
    lemma_excess_within(p, j);
    let q = c * pow2((j - x) as nat);
    lemma_pow2_adds((j - x) as nat, x);
    assert(p == q * pow2(x)) by (nonlinear_arith)
        requires p == c * pow2(j), pow2(j) == pow2((j - x) as nat) * pow2(x), q == c * pow2((j - x) as nat);
    lemma_pow2_pos(x);
    lemma_exact_rounding(q, x);
    let s = (e - 1 + x) as nat;
    lemma_whole_part(q, x, e);
    assert(whole_part(nearest(p, x), s) == p / pow2((150 - e) as nat));
}

proof fn lemma_exact_rounding(q: nat, x: nat)
    ensures
        nearest(q * pow2(x), x) == q,
{
    lemma_pow2_pos(x);
    let d = pow2(x) as int;
    vstd::arithmetic::div_mod::lemma_div_multiples_vanish(q as int, d);
    vstd::arithmetic::div_mod::lemma_mod_multiples_basic(q as int, d);
    assert(d * q == q * d) by (nonlinear_arith);
}

proof fn lemma_whole_part(q: nat, x: nat, e: nat)
    requires 1 <= e <= 150,
    ensures
        whole_part(q, (e - 1 + x) as nat) == (q * pow2(x)) / pow2((150 - e) as nat),
{
    let s = (e - 1 + x) as nat;
    let g = (150 - e) as nat;
    lemma_pow2_pos(x);
    lemma_pow2_pos(g);
    if s >= 149 {
        let t = (s - 149) as nat;
        lemma_pow2_adds(t, g);
        assert(q * pow2(x) == (q * pow2(t)) * pow2(g)) by (nonlinear_arith)
            requires pow2(x) == pow2(t) * pow2(g);
        vstd::arithmetic::div_mod::lemma_div_multiples_vanish((q * pow2(t)) as int, pow2(g) as int);
        assert(pow2(g) * (q * pow2(t)) == (q * pow2(t)) * pow2(g)) by (nonlinear_arith);
    } else {
        let t = (149 - s) as nat;
        lemma_pow2_adds(t, x);
        lemma_pow2_pos(t);
        vstd::arithmetic::div_mod::lemma_div_denominator((q * pow2(x)) as int, pow2(x) as int, pow2(t) as int);
        vstd::arithmetic::div_mod::lemma_div_multiples_vanish(q as int, pow2(x) as int);
        assert(pow2(x) * q == q * pow2(x)) by (nonlinear_arith);
        assert(pow2(x) * pow2(t) == pow2(t) * pow2(x)) by (nonlinear_arith);
    }
}

proof fn lemma_excess_within(n: nat, k: nat)
    requires n < pow2(24 + k),
    ensures excess(n) <= k,
    decreases k,
{
    lemma2_to64();
    if n >= 0x100_0000 {
        assert(k > 0);
        lemma_pow2_adds(1, (23 + k) as nat);
        lemma_excess_within(n / 2, (k - 1) as nat);
    }
}

/// Rounding takes the nearest number of the kept digits, and of two equally near ones the even one.
pub proof fn rounding_is_to_the_nearest(n: nat, k: nat)
    ensures
        2 * (nearest(n, k) * pow2(k) - n) <= pow2(k),
        2 * (n - nearest(n, k) * pow2(k)) <= pow2(k),
        2 * (nearest(n, k) * pow2(k) - n) == pow2(k) || 2 * (n - nearest(n, k) * pow2(k)) == pow2(k) ==> k == 0
            || nearest(n, k) % 2 == 0,
{
    lemma_pow2_pos(k);
    let d = pow2(k) as int;
    vstd::arithmetic::div_mod::lemma_fundamental_div_mod(n as int, d);
    vstd::arithmetic::div_mod::lemma_mod_bound(n as int, d);
    let q = n as int / d;
    assert(d * q == q * d) by (nonlinear_arith);
    assert((q + 1) * d == q * d + d) by (nonlinear_arith);
}

/// Rounding keeps the 24 leading digits: no more, and no fewer where the number has as many.
pub proof fn rounding_keeps_twenty_four_digits(n: nat)
    ensures
        n / pow2(excess(n)) < 0x100_0000,
        excess(n) > 0 ==> n / pow2(excess(n)) >= 0x80_0000,
        n < 0x100_0000 ==> excess(n) == 0,
    decreases n,
{
    lemma2_to64();
    if n >= 0x100_0000 {
        let e = excess(n / 2);
        rounding_keeps_twenty_four_digits(n / 2);
        lemma_pow2_adds(1, e);
        lemma_pow2_pos(e);
        vstd::arithmetic::div_mod::lemma_div_denominator(n as int, 2, pow2(e) as int);
    }
}

/// `n * 2^x` is the single nearest to `p`: it has at most 24 digits, all of them where any were cut, and
/// no more than half of the last one is missing.
pub open spec fn nearest_single(p: nat, n: nat, x: nat) -> bool {
    &&& n <= 0x100_0000
    &&& x > 0 ==> n >= 0x80_0000
    &&& 2 * (n * pow2(x) - p) <= pow2(x)
    &&& 2 * (p - n * pow2(x)) <= pow2(x)
}

/// A factor `m * 2^(e - 150)` makes of a width the whole part of the single nearest to the product.
pub proof fn products_are_rounded_before_they_are_cut(f: Single, width: usize, r: i32, m: nat, e: nat)
    requires
        call_ensures(scale_width, (&f, width), r),
        width < 0x100_0000,
        f.bits < 0x8000_0000,
        m == f.bits as nat % 0x80_0000 + 0x80_0000,
        e == f.bits as nat / 0x80_0000,
        1 <= e <= 150,
        r < i32::MAX,
    ensures
        exists|n: nat, x: nat|
            #[trigger] nearest_single(m * width as nat, n, x) && r == (n * pow2(x)) / pow2((150 - e) as nat),
{
    let w = width as nat;
    let p = m * w;
    let x = excess(p);
    let n = nearest(p, x);
    lemma2_to64();
    assert(excess(w) == 0);
    assert(nearest(w, 0) == w);
    rounding_is_to_the_nearest(p, x);
    rounding_keeps_twenty_four_digits(p);
    lemma_whole_part(n, x, e);
    assert(nearest_single(p, n, x));
}

/// What is no number makes a width of zero; an infinite factor makes the largest width of its sign,
/// unless there is nothing to scale.
pub proof fn boundless_factors_stop_at_the_ends(f: Single, width: usize, r: i32)
    requires
        call_ensures(scale_width, (&f, width), r),
        f.bits as int % 0x8000_0000 >= 0x7f80_0000,
        width < 0x100_0000,
    ensures
        f.bits as int % 0x8000_0000 > 0x7f80_0000 ==> r == 0,
        f.bits == 0x7f80_0000 ==> r == (if width == 0 { 0 } else { i32::MAX as int }),
        f.bits == 0xff80_0000 ==> r == (if width == 0 { 0 } else { i32::MIN as int }),
{
    lemma2_to64();
    assert(excess(width as nat) == 0);
    assert(nearest(width as nat, 0) == width);
    let b = f.bits as nat;
    vstd::arithmetic::div_mod::lemma_fundamental_div_mod(b as int, 0x80_0000);
    let e = b / 0x80_0000;
    assert(e < 512);
    assert((f.bits as int) % 0x8000_0000 == (if f.bits >= 0x8000_0000 { f.bits - 0x8000_0000 } else { f.bits as int }));
    assert(e == 255 || e == 511);
}

/// A factor of the other sign makes the width of the other sign, as far as both are in range.
pub proof fn sign_of_the_factor_is_the_sign_of_the_width(f: Single, g: Single, width: usize, r: i32, s: i32)
    requires
        call_ensures(scale_width, (&f, width), r),
        call_ensures(scale_width, (&g, width), s),
        f.bits < 0x7f80_0000,
        g.bits == f.bits + 0x8000_0000,
        r < i32::MAX,
    ensures
        r >= 0,
        s == -r,
{
    let b = f.bits as nat;
    let c = g.bits as nat;
    vstd::arithmetic::div_mod::lemma_fundamental_div_mod(b as int, 0x80_0000);
    vstd::arithmetic::div_mod::lemma_fundamental_div_mod(c as int, 0x80_0000);
    assert(c / 0x80_0000 == b / 0x80_0000 + 256);
    assert(c % 0x80_0000 == b % 0x80_0000);
    assert(b / 0x80_0000 < 255);
    assert((c / 0x80_0000) % 256 == b / 0x80_0000);
}

/// The number that a text of digits stands for.
pub open spec fn value(s: Seq<char>) -> nat
    decreases s.len(),
{
    if s.len() == 0 { 0 } else { value(s.drop_last()) * 10 + worth(s.last()) }
}

/// The number that a digit stands for; ten for what is none.
pub open spec fn worth(c: char) -> nat {
    if c == '0' { 0 } else if c == '1' { 1 } else if c == '2' { 2 } else if c == '3' { 3 } else if c == '4' { 4 }
    else if c == '5' { 5 } else if c == '6' { 6 } else if c == '7' { 7 } else if c == '8' { 8 } else if c == '9' { 9 }
    else { 10 }
}

/// A count is written in digits that stand for it, without leading zeros.
pub proof fn counts_are_written_in_decimal(n: u64, r: String)
    requires
        call_ensures(text::decimal, (n,), r),
    ensures
        value(r@) == n,
        r@.len() > 0,
        forall|i: int| 0 <= i < r@.len() ==> worth(#[trigger] r@[i]) < 10,
        r@[0] == '0' ==> n == 0 && r@.len() == 1,
{
    lemma_dec_value(n as nat);
}

proof fn lemma_dec_value(n: nat)
    ensures
        value(dec(n)) == n,
        dec(n).len() > 0,
        forall|i: int| 0 <= i < dec(n).len() ==> worth(#[trigger] dec(n)[i]) < 10,
        dec(n)[0] == '0' ==> n == 0 && dec(n).len() == 1,
    decreases n,
{
    if n < 10 {
        let s = dec(n);
        assert(s.drop_last() =~= Seq::<char>::empty());
        assert(value(s.drop_last()) == 0);
    } else {
        lemma_dec_value(n / 10);
        assert(dec(n).drop_last() =~= dec(n / 10));
        assert(dec(n)[0] == dec(n / 10)[0]);
        vstd::arithmetic::div_mod::lemma_fundamental_div_mod(n as int, 10);
        assert forall|i: int| 0 <= i < dec(n).len() implies worth(#[trigger] dec(n)[i]) < 10 by {
            if i < dec(n / 10).len() {
                assert(dec(n)[i] == dec(n / 10)[i]);
            }
        }
    }
}

/// No two counts are written alike.
pub proof fn counts_are_written_apart(n: u64, m: u64, r: String, s: String)
    requires
        call_ensures(text::decimal, (n,), r),
        call_ensures(text::decimal, (m,), s),
        r@ == s@,
    ensures
        n == m,
{
    lemma_dec_value(n as nat);
    lemma_dec_value(m as nat);
}

/// A number below zero is written as its magnitude behind a minus sign, any other as a count.
pub proof fn signed_numbers_are_written_with_their_sign(n: i32, r: String, magnitude: String)
    requires
        call_ensures(text::signed, (n,), r),
        call_ensures(text::decimal, ((if n < 0 { -n } else { n as int }) as u64,), magnitude),
    ensures
        n < 0 ==> r@ == seq!['-'] + magnitude@,
        n >= 0 ==> r@ == magnitude@,
{
}

/// A shape is written in brackets, axis by axis: none, one, and one more behind a comma.
pub proof fn shapes_are_written_axis_by_axis(v: Vec<i32>, longer: Vec<i32>, x: i32, r: String, s: String, last: String)
    requires
        longer@ == v@.push(x),
        call_ensures(text::shape_string, (&v,), r),
        call_ensures(text::shape_string, (&longer,), s),
        call_ensures(text::signed, (x,), last),
    ensures
        v@.len() == 0 ==> r@ == "[]"@ && s@ == "["@ + last@ + "]"@,
        v@.len() > 0 ==> r@.len() > 0 && s@ == r@.drop_last() + ", "@ + last@ + "]"@,
{
    reveal_strlit("[]");
    reveal_strlit("[");
    reveal_strlit("]");
    reveal_strlit(", ");
    if v@.len() == 0 {
        assert(tail_text(longer@, 1) =~= Seq::<char>::empty());
        assert("["@ + last@ + Seq::<char>::empty() + "]"@ =~= "["@ + last@ + "]"@);
    } else {
        lemma_tail(v@, x, 1);
        let open = "["@ + dec_int(v@[0] as int) + tail_text(v@, 1);
        assert(r@ == open + "]"@);
        assert(r@.drop_last() =~= open);
        assert(s@ =~= open + ", "@ + last@ + "]"@);
    }
}

proof fn lemma_tail(v: Seq<i32>, x: i32, i: int)
    requires 0 <= i <= v.len(),
    ensures tail_text(v.push(x), i) == tail_text(v, i) + (", "@ + dec_int(x as int)),
    decreases v.len() - i,
{
    if i < v.len() {
        lemma_tail(v, x, i + 1);
        assert(", "@ + dec_int(v[i] as int) + (tail_text(v, i + 1) + (", "@ + dec_int(x as int))) =~= ", "@ + dec_int(
            v[i] as int,
        ) + tail_text(v, i + 1) + (", "@ + dec_int(x as int)));
    } else {
        assert(tail_text(v.push(x), i + 1) =~= Seq::<char>::empty());
        assert(", "@ + dec_int(x as int) + Seq::<char>::empty() =~= Seq::<char>::empty() + (", "@ + dec_int(x as int)));
    }
}

/// A factor too small for a full significand makes nothing of any width.
pub proof fn tiny_factors_leave_nothing(f: Single, width: usize, r: i32)
    requires
        call_ensures(scale_width, (&f, width), r),
        width < 0x100_0000,
        f.bits as int % 0x8000_0000 < 0x80_0000,
    ensures
        r == 0,
{
    let w = width as nat;
    let b = f.bits as nat;
    vstd::arithmetic::div_mod::lemma_fundamental_div_mod(b as int, 0x80_0000);
    assert((f.bits as int) % 0x8000_0000 == (if f.bits >= 0x8000_0000 { f.bits - 0x8000_0000 } else { f.bits as int }));
    assert(b / 0x80_0000 == 0 || b / 0x80_0000 == 256);
    let m = b % 0x80_0000;
    let p = m * w;
    lemma2_to64();
    lemma2_to64_rest();
    assert(excess(w) == 0);
    assert(nearest(w, 0) == w);
    assert(p < 0x80_0000 * 0x100_0000) by (nonlinear_arith)
        requires m < 0x80_0000, w < 0x100_0000, p == m * w, m >= 0, w >= 0;
    lemma_excess_within(p, 23);
    let x = excess(p);
    let n = nearest(p, x);
    rounding_is_to_the_nearest(p, x);
    rounding_keeps_twenty_four_digits(p);
    assert(n <= 0x100_0000);
    let t = (149 - x) as nat;
    vstd::arithmetic::power2::lemma_pow2_strictly_increases(25, t);
    lemma_pow2_pos(t);
    vstd::arithmetic::div_mod::lemma_basic_div(n as int, pow2(t) as int);
}

/// Text grows at its end by what is appended: a piece as it is, a count and a number in decimal, a
/// shape in brackets, and an optional count with the word that says whether there is one.
pub proof fn texts_grow_at_the_end(
    t: Text,
    s: &str,
    n: usize,
    v: Vec<i32>,
    o: Option<usize>,
    a: Text,
    b: Text,
    c: Text,
    d: Text,
    digits: String,
    shape: String,
)
    requires
        call_ensures(Text::lit, (t, s), a),
        call_ensures(Text::num, (t, n), b),
        call_ensures(Text::shape, (t, &v), c),
        call_ensures(Text::opt, (t, Some(n)), d),
        call_ensures(text::decimal, (n as u64,), digits),
        call_ensures(text::shape_string, (&v,), shape),
    ensures
        a@ == t@ + s@,
        b@ == t@ + digits@,
        c@ == t@ + shape@,
        d@ == t@ + ("Some("@ + digits@ + ")"@),
{
}

/// An optional count that is not there is written so.
pub proof fn missing_counts_are_written_so(t: Text, r: Text)
    requires
        call_ensures(Text::opt, (t, None), r),
    ensures
        r@ == t@ + "None"@,
{
}

/// A scaling block is written in braces, member by member: none, one, and one more behind a comma.
pub proof fn scaling_blocks_are_written_member_by_member(
    block: ScalingBlock,
    longer: ScalingBlock,
    member: (String, serde_json::Value),
    r: String,
    s: String,
)
    requires
        longer.members@ == block.members@.push(member),
        call_ensures(ScalingBlock::debug, (&block,), r),
        call_ensures(ScalingBlock::debug, (&longer,), s),
    ensures
        block.members@.len() == 0 ==> r@ == "{}"@ && s@ == "{"@ + debug_text(member.0@) + ": "@ + json_debug(member.1) + "}"@,
        block.members@.len() > 0 ==> r@.len() > 0 && s@ == r@.drop_last() + ", "@ + debug_text(member.0@) + ": "@
            + json_debug(member.1) + "}"@,
{
    let m = block.members@;
    reveal_strlit("{");
    reveal_strlit("}");
    if m.len() == 0 {
        assert(members_text(longer.members@, 1) =~= Seq::<char>::empty());
        let one = "{"@ + debug_text(member.0@) + ": "@ + json_debug(member.1);
        assert(one + Seq::<char>::empty() + "}"@ =~= one + "}"@);
    } else {
        lemma_members(m, member, 1);
        let open = "{"@ + debug_text(m[0].0@) + ": "@ + json_debug(m[0].1) + members_text(m, 1);
        assert(r@ == open + "}"@);
        assert(r@.drop_last() =~= open);
        assert(s@ =~= open + ", "@ + debug_text(member.0@) + ": "@ + json_debug(member.1) + "}"@);
    }
}

proof fn lemma_members(m: Seq<(String, serde_json::Value)>, member: (String, serde_json::Value), i: int)
    requires 0 <= i <= m.len(),
    ensures
        members_text(m.push(member), i) == members_text(m, i) + (", "@ + debug_text(member.0@) + ": "@ + json_debug(member.1)),
    decreases m.len() - i,
{
    let last = ", "@ + debug_text(member.0@) + ": "@ + json_debug(member.1);
    if i < m.len() {
        lemma_members(m, member, i + 1);
        let own = ", "@ + debug_text(m[i].0@) + ": "@ + json_debug(m[i].1);
        assert(own + (members_text(m, i + 1) + last) =~= own + members_text(m, i + 1) + last);
    } else {
        assert(members_text(m.push(member), i + 1) =~= Seq::<char>::empty());
        assert(last + Seq::<char>::empty() =~= Seq::<char>::empty() + last);
    }
}

} // verus!
