//! Small verified text utilities shared across the crate: character-wise
//! string equality and decimal rendering of unsigned integers.

use vstd::prelude::*;
use vstd::string::StrSliceExecFns;
use vstd::string::StringExecFns;

verus! {

/// Character-wise equality of two string slices.
pub fn str_eq(a: &str, b: &str) -> (r: bool)
    ensures
        r == (a@ == b@),
{
    let alen = a.unicode_len();
    let blen = b.unicode_len();
    if alen != blen {
        return false;
    }
    let mut i: usize = 0;
    while i < alen
        invariant
            alen == a@.len(),
            alen == b@.len(),
            i <= alen,
            forall|j: int| 0 <= j < i ==> a@[j] == b@[j],
        decreases alen - i,
    {
        if a.get_char(i) != b.get_char(i) {
            return false;
        }
        i = i + 1;
    }
    proof {
        assert(a@ =~= b@);
    }
    true
}

/// The decimal digit character for a value below ten.
pub open spec fn digit_char(d: nat) -> char {
    if d == 0 {
        '0'
    } else if d == 1 {
        '1'
    } else if d == 2 {
        '2'
    } else if d == 3 {
        '3'
    } else if d == 4 {
        '4'
    } else if d == 5 {
        '5'
    } else if d == 6 {
        '6'
    } else if d == 7 {
        '7'
    } else if d == 8 {
        '8'
    } else {
        '9'
    }
}

/// The usual decimal rendering of `n`, without leading zeros.
pub open spec fn dec_digits(n: nat) -> Seq<char>
    decreases n,
{
    if n < 10 {
        seq![digit_char(n)]
    } else {
        dec_digits(n / 10).push(digit_char(n % 10))
    }
}

fn digit_str(d: usize) -> (r: &'static str)
    requires
        d < 10,
    ensures
        r@ == seq![digit_char(d as nat)],
{
    proof {
        reveal_strlit("0");
        reveal_strlit("1");
        reveal_strlit("2");
        reveal_strlit("3");
        reveal_strlit("4");
        reveal_strlit("5");
        reveal_strlit("6");
        reveal_strlit("7");
        reveal_strlit("8");
        reveal_strlit("9");
        assert("0"@ =~= seq![digit_char(0)]);
        assert("1"@ =~= seq![digit_char(1)]);
        assert("2"@ =~= seq![digit_char(2)]);
        assert("3"@ =~= seq![digit_char(3)]);
        assert("4"@ =~= seq![digit_char(4)]);
        assert("5"@ =~= seq![digit_char(5)]);
        assert("6"@ =~= seq![digit_char(6)]);
        assert("7"@ =~= seq![digit_char(7)]);
        assert("8"@ =~= seq![digit_char(8)]);
        assert("9"@ =~= seq![digit_char(9)]);
    }
    match d {
        0 => "0",
        1 => "1",
        2 => "2",
        3 => "3",
        4 => "4",
        5 => "5",
        6 => "6",
        7 => "7",
        8 => "8",
        _ => "9",
    }
}

/// Lines joined by single newlines.
pub open spec fn joined_lines(lines: Seq<Seq<char>>) -> Seq<char>
    decreases lines.len(),
{
    if lines.len() == 0 {
        Seq::<char>::empty()
    } else if lines.len() == 1 {
        lines[0]
    } else {
        joined_lines(lines.drop_last()) + seq!['\n'] + lines.last()
    }
}

/// Joins the parts with single newlines.
pub fn join_lines(parts: &Vec<String>) -> (r: String)
    ensures
        r@ == joined_lines(parts@.map_values(|p: String| p@)),
{
    let ghost lines = parts@.map_values(|p: String| p@);
    let mut s = String::new();
    let mut i: usize = 0;
    while i < parts.len()
        invariant
            i <= parts@.len(),
            lines == parts@.map_values(|p: String| p@),
            lines.len() == parts@.len(),
            s@ == joined_lines(lines.take(i as int)),
        decreases parts@.len() - i,
    {
        if i > 0 {
            s.append("\n");
            proof {
                reveal_strlit("\n");
                assert("\n"@ =~= seq!['\n']);
            }
        }
        s.append(parts[i].as_str());
        proof {
            assert(lines.take(i as int + 1).drop_last() =~= lines.take(i as int));
            assert(lines.take(i as int + 1).last() == lines[i as int]);
            assert(s@ =~= joined_lines(lines.take(i as int + 1)));
        }
        i = i + 1;
    }
    proof {
        assert(lines.take(lines.len() as int) =~= lines);
    }
    s
}

/// Whether `c` is a decimal digit.
pub open spec fn is_digit(c: char) -> bool {
    c == '0' || c == '1' || c == '2' || c == '3' || c == '4' || c == '5' || c == '6' || c == '7'
        || c == '8' || c == '9'
}

/// The value of a digit character; anything else counts as nine, which keeps
/// the value below ten without a side condition.
pub open spec fn digit_val(c: char) -> nat {
    if c == '0' {
        0
    } else if c == '1' {
        1
    } else if c == '2' {
        2
    } else if c == '3' {
        3
    } else if c == '4' {
        4
    } else if c == '5' {
        5
    } else if c == '6' {
        6
    } else if c == '7' {
        7
    } else if c == '8' {
        8
    } else {
        9
    }
}

/// The value of a digit string read most-significant first.
pub open spec fn dec_val(s: Seq<char>) -> nat
    decreases s.len(),
{
    if s.len() == 0 {
        0
    } else {
        dec_val(s.drop_last()) * 10 + digit_val(s.last())
    }
}

/// Ten to the `w`.
pub open spec fn pow10(w: nat) -> nat
    decreases w,
{
    if w == 0 {
        1
    } else {
        10 * pow10((w - 1) as nat)
    }
}

/// `n` rendered in exactly `w` digits, zero-padded, truncated to its `w`
/// lowest digits.
pub open spec fn fixed_digits(n: nat, w: nat) -> Seq<char>
    decreases w,
{
    if w == 0 {
        Seq::<char>::empty()
    } else {
        fixed_digits(n / 10, (w - 1) as nat).push(digit_char(n % 10))
    }
}

/// A fixed-width rendering has exactly its width of characters, all digits.
pub proof fn lemma_fixed_digits_shape(n: nat, w: nat)
    ensures
        fixed_digits(n, w).len() == w,
        forall|i: int| 0 <= i < w ==> is_digit(#[trigger] fixed_digits(n, w)[i]),
    decreases w,
{
    if w > 0 {
        lemma_fixed_digits_shape(n / 10, (w - 1) as nat);
    }
}

/// Reading a fixed-width rendering back gives the value modulo the width's
/// power of ten.
pub proof fn lemma_fixed_digits_val(n: nat, w: nat)
    ensures
        dec_val(fixed_digits(n, w)) == n % pow10(w),
        pow10(w) > 0,
    decreases w,
{
    if w == 0 {
        assert(n % 1 == 0) by (nonlinear_arith);
    } else {
        lemma_fixed_digits_val(n / 10, (w - 1) as nat);
        let p = pow10((w - 1) as nat);
        let digits = fixed_digits(n, w);
        assert(digits.drop_last() =~= fixed_digits(n / 10, (w - 1) as nat));
        assert(digits.last() == digit_char(n % 10));
        assert(digit_val(digit_char(n % 10)) == n % 10) by {
            assert(0 <= n % 10 < 10) by (nonlinear_arith);
        }
        assert(dec_val(digits) == ((n / 10) % p) * 10 + n % 10);
        vstd::arithmetic::div_mod::lemma_breakdown(n as int, 10, p as int);
        assert((n as int) % (10 * (p as int)) == 10 * (((n as int) / 10) % (p as int)) + (n as int)
            % 10);
    }
}

/// The value of any digit string of length `w` is below `pow10(w)`.
pub proof fn lemma_dec_val_bound(s: Seq<char>)
    ensures
        dec_val(s) < pow10(s.len()),
    decreases s.len(),
{
    if s.len() > 0 {
        lemma_dec_val_bound(s.drop_last());
    }
}

/// Powers of ten are positive and increase with the exponent.
pub proof fn lemma_pow10_increases(a: nat, b: nat)
    requires
        a <= b,
    ensures
        0 < pow10(a) <= pow10(b),
    decreases b,
{
    if a == b {
        lemma_pow10_pos(a);
    } else {
        lemma_pow10_increases(a, (b - 1) as nat);
    }
}

/// Powers of ten are positive.
pub proof fn lemma_pow10_pos(w: nat)
    ensures
        pow10(w) >= 1,
    decreases w,
{
    if w > 0 {
        lemma_pow10_pos((w - 1) as nat);
    }
}

/// `pow10(20)` written out, which is above `usize::MAX`.
pub proof fn lemma_pow10_20()
    ensures
        pow10(20) == 0x56bc75e2d63100000,
        pow10(20) > usize::MAX,
    decreases 0nat,
{
    reveal_with_fuel(pow10, 21);
}

/// The exec mirror of `digit_val`: `Some` exactly on digits.
pub fn char_digit_val(c: char) -> (r: Option<usize>)
    ensures
        match r {
            Some(v) => is_digit(c) && v as nat == digit_val(c) && v < 10,
            None => !is_digit(c),
        },
{
    if c == '0' {
        Some(0)
    } else if c == '1' {
        Some(1)
    } else if c == '2' {
        Some(2)
    } else if c == '3' {
        Some(3)
    } else if c == '4' {
        Some(4)
    } else if c == '5' {
        Some(5)
    } else if c == '6' {
        Some(6)
    } else if c == '7' {
        Some(7)
    } else if c == '8' {
        Some(8)
    } else if c == '9' {
        Some(9)
    } else {
        None
    }
}

/// Renders `n` in exactly `w` digits, zero-padded.
pub fn usize_to_fixed(n: usize, w: usize) -> (r: String)
    ensures
        r@ == fixed_digits(n as nat, w as nat),
    decreases w,
{
    if w == 0 {
        String::new()
    } else {
        let mut s = usize_to_fixed(n / 10, w - 1);
        s.append(digit_str(n % 10));
        proof {
            assert(s@ =~= fixed_digits(n as nat, w as nat));
        }
        s
    }
}

/// Renders `n` in decimal.
pub fn usize_to_decimal(n: usize) -> (r: String)
    ensures
        r@ == dec_digits(n as nat),
    decreases n,
{
    if n < 10 {
        String::from_str(digit_str(n))
    } else {
        let mut s = usize_to_decimal(n / 10);
        s.append(digit_str(n % 10));
        proof {
            assert(s@ =~= dec_digits(n as nat));
        }
        s
    }
}

} // verus!
