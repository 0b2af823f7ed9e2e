use evmscan::prelude::U256;
use crate::decimal::{decimal_text, decimal_value, is_digit, lemma_pow10_monotonic, padded_text, pow10, push_padded};
use vstd::prelude::*;

verus! {

/// 2^64, the base of one word.
pub open spec fn word_base() -> nat {
    0x1_0000_0000_0000_0000
}

/// 2^256: every `Amount` is below it.
pub open spec fn amount_limit() -> nat {
    word_base() * word_base() * word_base() * word_base()
}

/// An unsigned 256-bit integer (a token amount in its smallest unit), held
/// as four 64-bit words, least significant first.
#[derive(Clone, Copy, PartialEq, Eq, Structural, Debug)]
pub struct Amount {
    pub w0: u64,
    pub w1: u64,
    pub w2: u64,
    pub w3: u64,
}

impl View for Amount {
    type V = nat;

    open spec fn view(&self) -> nat {
        self.w0 as nat + self.w1 as nat * word_base() + self.w2 as nat * (word_base()
            * word_base()) + self.w3 as nat * (word_base() * word_base() * word_base())
    }
}

/// Every amount lies below 2^256.
pub proof fn lemma_amount_below_limit(a: Amount)
    ensures
        a@ < amount_limit(),
{
    let b = word_base();
    assert(a@ < amount_limit()) by (nonlinear_arith)
        requires
            b == 0x1_0000_0000_0000_0000nat,
            a.w0 < b,
            a.w1 < b,
            a.w2 < b,
            a.w3 < b,
            a@ == a.w0 + a.w1 * b + a.w2 * (b * b) + a.w3 * (b * b * b),
            amount_limit() == b * b * b * b,
    ;
}

/// Relies on uint's `U256::checked_add` (through evmscan's re-export of
/// primitive-types): the exact sum, or `None` when it does not fit in 256 bits.
#[verifier::external_body]
fn u256_checked_add(a: Amount, b: Amount) -> (r: Option<Amount>)
    ensures
        r is Some <==> a@ + b@ < amount_limit(),
        r matches Some(s) ==> s@ == a@ + b@,
{
    match U256([a.w0, a.w1, a.w2, a.w3]).checked_add(U256([b.w0, b.w1, b.w2, b.w3])) {
        Some(U256(w)) => Some(Amount { w0: w[0], w1: w[1], w2: w[2], w3: w[3] }),
        None => None,
    }
}

proof fn lemma_pow10_19()
    ensures
        pow10(19) == 10000000000000000000nat,
{
    reveal_with_fuel(pow10, 20);
}

/// Relies on uint's `U256::checked_sub`: the exact difference, or `None`
/// when `b` exceeds `a`.
#[verifier::external_body]
fn u256_checked_sub(a: Amount, b: Amount) -> (r: Option<Amount>)
    ensures
        r is Some <==> b@ <= a@,
        r matches Some(s) ==> s@ == a@ - b@,
{
    match U256([a.w0, a.w1, a.w2, a.w3]).checked_sub(U256([b.w0, b.w1, b.w2, b.w3])) {
        Some(U256(w)) => Some(Amount { w0: w[0], w1: w[1], w2: w[2], w3: w[3] }),
        None => None,
    }
}

/// Relies on uint's `U256::div_mod`: quotient and remainder; it panics on a
/// zero divisor.
#[verifier::external_body]
fn u256_div_mod(a: Amount, d: Amount) -> (r: (Amount, Amount))
    requires
        d@ != 0,
    ensures
        r.0@ == a@ / d@,
        r.1@ == a@ % d@,
{
    let (U256(q), U256(m)) = U256([a.w0, a.w1, a.w2, a.w3]).div_mod(U256([d.w0, d.w1, d.w2, d.w3]));
    (Amount { w0: q[0], w1: q[1], w2: q[2], w3: q[3] }, Amount { w0: m[0], w1: m[1], w2: m[2], w3: m[3] })
}

/// Whether `s` is ASCII digits only (possibly none) whose value is below 2^256.
pub open spec fn is_amount_text(s: Seq<char>) -> bool {
    &&& forall|i: int| 0 <= i < s.len() ==> is_digit(#[trigger] s[i])
    &&& decimal_value(s) < amount_limit()
}

/// Relies on uint's `U256::from_dec_str`: it reads ASCII digits, the empty
/// string as zero, and fails on any other character or a value of 2^256 or more.
#[verifier::external_body]
fn u256_from_dec_str(s: &str) -> (r: Option<Amount>)
    ensures
        r is Some <==> is_amount_text(s@),
        r matches Some(v) ==> v@ == decimal_value(s@),
{
    match U256::from_dec_str(s) {
        Ok(U256(w)) => Some(Amount { w0: w[0], w1: w[1], w2: w[2], w3: w[3] }),
        Err(_) => None,
    }
}

/// Relies on uint's `Display` for `U256`: the value in decimal, without
/// leading zeros.
#[verifier::external_body]
fn u256_to_string(a: Amount) -> (r: String)
    ensures
        r@ == decimal_text(a@),
{
    U256([a.w0, a.w1, a.w2, a.w3]).to_string()
}

/// The fractional digits of `f` over `width` places, without trailing zeros.
pub open spec fn fraction_text(f: nat, width: nat) -> Seq<char>
    decreases width,
{
    if width > 0 && f % 10 == 0 {
        fraction_text(f / 10, (width - 1) as nat)
    } else {
        padded_text(f, width)
    }
}

/// `v` smallest units shown in whole tokens of `10^decimals` units: the whole
/// part in decimal, then, when the rest is not zero, a point and the rest's
/// digits without trailing zeros.
pub open spec fn units_text(v: nat, decimals: nat) -> Seq<char> {
    let whole = decimal_text(v / pow10(decimals));
    let rest = v % pow10(decimals);
    if rest == 0 {
        whole
    } else {
        whole + seq!['.'] + fraction_text(rest, decimals)
    }
}

impl Amount {
    /// The amount zero.
    pub fn zero() -> (r: Amount)
        ensures
            r@ == 0,
    {
        Amount { w0: 0, w1: 0, w2: 0, w3: 0 }
    }

    /// The amount `v`.
    pub fn from_u64(v: u64) -> (r: Amount)
        ensures
            r@ == v,
    {
        Amount { w0: v, w1: 0, w2: 0, w3: 0 }
    }

    /// `self + other`, or `None` when the sum reaches 2^256.
    pub fn checked_add(self, other: Amount) -> (r: Option<Amount>)
        ensures
            r is Some <==> self@ + other@ < amount_limit(),
            r matches Some(s) ==> s@ == self@ + other@,
    {
        u256_checked_add(self, other)
    }

    /// `self - other`, or `None` when `other` exceeds `self`.
    pub fn checked_sub(self, other: Amount) -> (r: Option<Amount>)
        ensures
            r is Some <==> other@ <= self@,
            r matches Some(s) ==> s@ == self@ - other@,
    {
        u256_checked_sub(self, other)
    }

    /// The amount written in `s` in decimal; `None` when `s` holds anything
    /// but ASCII digits or its value does not fit in 256 bits.
    pub fn from_dec_str(s: &str) -> (r: Option<Amount>)
        ensures
            r is Some <==> is_amount_text(s@),
            r matches Some(v) ==> v@ == decimal_value(s@),
    {
        u256_from_dec_str(s)
    }

    /// The amount in decimal.
    pub fn to_decimal_string(self) -> (r: String)
        ensures
            r@ == decimal_text(self@),
    {
        u256_to_string(self)
    }

    /// The amount shown in tokens of `10^decimals` smallest units, exactly:
    /// `10^18` at 18 decimals is `"1"`, `1_500_000` at 6 is `"1.5"`.
    pub fn format_units(self, decimals: u32) -> (r: String)
        requires
            decimals <= 19,
        ensures
            r@ == units_text(self@, decimals as nat),
    {
        let mut scale: u64 = 1;
        let mut i: u32 = 0;
        while i < decimals
            invariant
                i <= decimals <= 19,
                scale == pow10(i as nat),
            decreases decimals - i,
        {
            proof {
                lemma_pow10_monotonic((i + 1) as nat, 19);
                lemma_pow10_19();
            }
            scale = scale * 10;
            i = i + 1;
        }
        proof {
            lemma_pow10_monotonic(decimals as nat, 19);
            lemma_pow10_19();
        }
        let (whole, rest) = u256_div_mod(self, Amount::from_u64(scale));
        let mut text = u256_to_string(whole);
        let ghost b = word_base();
        assert(rest.w1 == 0 && rest.w2 == 0 && rest.w3 == 0) by (nonlinear_arith)
            requires
                b == 0x1_0000_0000_0000_0000nat,
                rest@ < 0x1_0000_0000_0000_0000nat,
                rest@ == rest.w0 + rest.w1 * b + rest.w2 * (b * b) + rest.w3 * (b * b * b),
        ;
        if rest.w0 == 0 {
            return text;
        }
        let mut f: u64 = rest.w0;
        let mut width: u32 = decimals;
        while width > 0 && f % 10 == 0
            invariant
                fraction_text(f as nat, width as nat) == fraction_text(rest@, decimals as nat),
            decreases width,
        {
            f = f / 10;
            width = width - 1;
        }
        assert(fraction_text(f as nat, width as nat) == padded_text(f as nat, width as nat));
        let point = ".";
        proof {
            reveal_strlit(".");
        }
        text.append(point);
        push_padded(&mut text, f, width);
        assert(text@ =~= units_text(self@, decimals as nat));
        text
    }
}

} // verus!
