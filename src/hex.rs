//! Base-sixteen digits and the 32-digit form of a 128-bit value.
use vstd::arithmetic::div_mod::lemma_fundamental_div_mod;
use vstd::prelude::*;

verus! {

/// A digit of base sixteen, in either case.
pub open spec fn is_hex_char(c: char) -> bool {
    ('0' <= c && c <= '9') || ('a' <= c && c <= 'f') || ('A' <= c && c <= 'F')
}

/// Every character of `s` is a digit of base sixteen.
pub open spec fn all_hex(s: Seq<char>) -> bool {
    forall|i: int| 0 <= i < s.len() ==> is_hex_char(#[trigger] s[i])
}

/// A digit of base sixteen in lower case: the digits of the wire form.
pub open spec fn is_lower_hex_char(c: char) -> bool {
    ('0' <= c && c <= '9') || ('a' <= c && c <= 'f')
}

/// Every character of `s` is a lower-case digit of base sixteen.
pub open spec fn all_lower_hex(s: Seq<char>) -> bool {
    forall|i: int| 0 <= i < s.len() ==> is_lower_hex_char(#[trigger] s[i])
}

/// Tells whether every character of `s` is a lower-case digit of base sixteen.
pub fn is_lower_hex_str(s: &str) -> (r: bool)
    ensures
        r == all_lower_hex(s@),
{
    let n = s.unicode_len();
    let mut i: usize = 0;
    while i < n
        invariant
            n == s@.len(),
            i <= n,
            forall|j: int| 0 <= j < i ==> is_lower_hex_char(#[trigger] s@[j]),
        decreases n - i,
    {
        let c = s.get_char(i);
        if !(('0' <= c && c <= '9') || ('a' <= c && c <= 'f')) {
            return false;
        }
        i = i + 1;
    }
    true
}

/// Lower-case digits are digits.
pub proof fn lemma_lower_hex_is_hex(s: Seq<char>)
    requires
        all_lower_hex(s),
    ensures
        all_hex(s),
{
}

/// The value of a digit of base sixteen.
pub open spec fn hex_char_value(c: char) -> nat {
    if '0' <= c && c <= '9' {
        (c as nat - '0' as nat) as nat
    } else if 'a' <= c && c <= 'f' {
        (c as nat - 'a' as nat + 10) as nat
    } else {
        (c as nat - 'A' as nat + 10) as nat
    }
}

/// The value of a string of digits, most significant digit first.
pub open spec fn hex_value(s: Seq<char>) -> nat
    decreases s.len(),
{
    if s.len() == 0 {
        0
    } else {
        hex_value(s.drop_last()) * 16 + hex_char_value(s.last())
    }
}

/// The lower-case digit for a value below sixteen.
pub open spec fn lower_hex_char(d: nat) -> char {
    if d < 10 {
        (('0' as nat) + d) as char
    } else {
        (('a' as nat) + d - 10) as char
    }
}

/// The last `n` digits of `v` in lower case, most significant first.
pub open spec fn lower_hex(v: nat, n: nat) -> Seq<char>
    decreases n,
{
    if n == 0 {
        Seq::empty()
    } else {
        lower_hex(v / 16, (n - 1) as nat).push(lower_hex_char(v % 16))
    }
}

/// Sixteen to the power `n`.
pub open spec fn pow16(n: nat) -> nat
    decreases n,
{
    if n == 0 {
        1
    } else {
        16 * pow16((n - 1) as nat)
    }
}

/// The 32 lower-case digits of a 128-bit value: its wire form.
pub open spec fn simple_form(v: u128) -> Seq<char> {
    lower_hex(v as nat, 32)
}

proof fn lemma_lower_hex_char(d: nat)
    requires
        d < 16,
    ensures
        is_lower_hex_char(lower_hex_char(d)),
        hex_char_value(lower_hex_char(d)) == d,
{
}

/// Writing `v` with `n` digits and reading them back gives `v`, where `v` fits in `n` digits.
pub proof fn lemma_lower_hex_value(v: nat, n: nat)
    requires
        v < pow16(n),
    ensures
        lower_hex(v, n).len() == n,
        all_lower_hex(lower_hex(v, n)),
        hex_value(lower_hex(v, n)) == v,
    decreases n,
{
    if n > 0 {
        let s = lower_hex(v, n);
        lemma_fundamental_div_mod(v as int, 16);
        assert(v / 16 < pow16((n - 1) as nat)) by (nonlinear_arith)
            requires
                v < 16 * pow16((n - 1) as nat),
                v == 16 * (v / 16) + v % 16,
                0 <= v % 16 < 16,
        ;
        lemma_lower_hex_value(v / 16, (n - 1) as nat);
        lemma_lower_hex_char(v % 16);
        assert(s.drop_last() =~= lower_hex(v / 16, (n - 1) as nat));
        assert forall|i: int| 0 <= i < s.len() implies is_lower_hex_char(#[trigger] s[i]) by {
            if i < n - 1 {
                assert(s[i] == lower_hex(v / 16, (n - 1) as nat)[i]);
            }
        }
    }
}

/// Every 128-bit value fits in 32 digits.
pub proof fn lemma_u128_fits(v: u128)
    ensures
        (v as nat) < pow16(32),
{
    reveal_with_fuel(pow16, 33);
    assert(pow16(32) == 0x1_0000_0000_0000_0000_0000_0000_0000_0000);
}

/// The wire form of a 128-bit value is 32 digits that read back as the value.
pub proof fn lemma_simple_form(v: u128)
    ensures
        simple_form(v).len() == 32,
        all_lower_hex(simple_form(v)),
        hex_value(simple_form(v)) == v as nat,
{
    lemma_u128_fits(v);
    lemma_lower_hex_value(v as nat, 32);
}

} // verus!
