//! Numbers as text, and text put together from pieces.

use vstd::prelude::*;
use vstd::string::{StrSliceExecFns, StringExecFns};

verus! {

/// `String::push`: the character is appended, and nothing else changes.
pub assume_specification[ String::push ](s: &mut String, c: char)
    ensures
        final(s)@ == old(s)@.push(c),
;

/// The character of a digit below sixteen, in lower case.
pub open spec fn digit_char(d: nat) -> char {
    if d < 10 {
        (48 + d) as char
    } else {
        (87 + d) as char
    }
}

/// The digits of `n` to the base `base`, most significant digit first.
pub open spec fn digits(n: nat, base: nat) -> Seq<char>
    decreases n,
{
    if base < 2 || n < base {
        seq![digit_char(n)]
    } else {
        proof {
            vstd::arithmetic::div_mod::lemma_div_decreases(n as int, base as int);
        }
        digits(n / base, base).push(digit_char(n % base))
    }
}

/// A number in decimal, with a sign where it is negative.
pub open spec fn decimal(n: int) -> Seq<char> {
    if n < 0 {
        seq!['-'] + digits((-n) as nat, 10)
    } else {
        digits(n as nat, 10)
    }
}

/// `s` with as many `fill` in front as it needs to be `width` long.
pub open spec fn padded(s: Seq<char>, width: nat, fill: char) -> Seq<char> {
    if s.len() < width {
        Seq::new((width - s.len()) as nat, |i: int| fill) + s
    } else {
        s
    }
}

/// A number in hexadecimal, behind `0x`.
pub open spec fn hex(n: nat) -> Seq<char> {
    seq!['0', 'x'] + digits(n, 16)
}

/// A number in hexadecimal with at least sixteen digits, behind `0x`.
pub open spec fn hex16(n: nat) -> Seq<char> {
    seq!['0', 'x'] + padded(digits(n, 16), 16, '0')
}

/// A number in octal with at least three digits, behind `0o`.
pub open spec fn octal3(n: nat) -> Seq<char> {
    seq!['0', 'o'] + padded(digits(n, 8), 3, '0')
}

/// The character of a digit below sixteen.
fn digit(d: u64) -> (c: char)
    requires
        d < 16,
    ensures
        c == digit_char(d as nat),
{
    if d < 10 {
        (48 + d as u8) as char
    } else {
        (87 + d as u8) as char
    }
}

/// The digits of `n` to the base `base`.
pub fn to_digits(n: u64, base: u64) -> (r: String)
    requires
        2 <= base <= 16,
    ensures
        r@ == digits(n as nat, base as nat),
    decreases n,
{
    if n < base {
        let mut s = String::new();
        s.push(digit(n));
        assert(s@ =~= seq![digit_char(n as nat)]);
        s
    } else {
        proof {
            vstd::arithmetic::div_mod::lemma_div_decreases(n as int, base as int);
            vstd::arithmetic::div_mod::lemma_mod_bound(n as int, base as int);
        }
        let mut s = to_digits(n / base, base);
        s.push(digit(n % base));
        s
    }
}

/// A number in decimal.
pub fn to_decimal(n: u64) -> (r: String)
    ensures
        r@ == decimal(n as int),
{
    to_digits(n, 10)
}

/// A signed number in decimal.
pub fn to_signed_decimal(n: i64) -> (r: String)
    ensures
        r@ == decimal(n as int),
{
    if n < 0 {
        let magnitude: u64 = if n == i64::MIN {
            0x8000_0000_0000_0000
        } else {
            (-n) as u64
        };
        let mut s = String::new();
        s.push('-');
        s.append(to_digits(magnitude, 10).as_str());
        assert(s@ =~= decimal(n as int));
        s
    } else {
        to_digits(n as u64, 10)
    }
}

/// `s` with as many `fill` in front as it needs to be `width` long.
pub fn to_padded(s: String, width: usize, fill: char) -> (r: String)
    ensures
        r@ == padded(s@, width as nat, fill),
{
    let len: usize = s.as_str().unicode_len();
    let mut front = String::new();
    let mut i: usize = len;
    while i < width
        invariant
            len == s@.len(),
            len <= i,
            i <= width || i == len,
            front@ == Seq::new((i - len) as nat, |k: int| fill),
        decreases width - i,
    {
        front.push(fill);
        i += 1;
        assert(front@ =~= Seq::new((i - len) as nat, |k: int| fill));
    }
    front.append(s.as_str());
    assert(front@ =~= padded(s@, width as nat, fill));
    front
}

/// `c`, in upper case where it is one of the letters that are digits.
pub open spec fn upper_char(c: char) -> char {
    match c {
        'a' => 'A',
        'b' => 'B',
        'c' => 'C',
        'd' => 'D',
        'e' => 'E',
        'f' => 'F',
        _ => c,
    }
}

/// `s` with the letters that are digits in upper case.
pub open spec fn upper(s: Seq<char>) -> Seq<char> {
    s.map_values(|c: char| upper_char(c))
}

/// `s` with the letters that are digits in upper case.
pub fn to_upper(s: String) -> (r: String)
    ensures
        r@ == upper(s@),
{
    let len: usize = s.as_str().unicode_len();
    let mut r = String::new();
    let mut i: usize = 0;
    while i < len
        invariant
            len == s@.len(),
            i <= len,
            r@ == upper(s@.take(i as int)),
        decreases len - i,
    {
        let c = s.as_str().get_char(i);
        r.push(
            match c {
                'a' => 'A',
                'b' => 'B',
                'c' => 'C',
                'd' => 'D',
                'e' => 'E',
                'f' => 'F',
                _ => c,
            },
        );
        i += 1;
        assert(r@ =~= upper(s@.take(i as int)));
    }
    assert(s@.take(len as int) =~= s@);
    r
}

/// A number in hexadecimal, behind `0x`.
pub fn to_hex(n: u64) -> (r: String)
    ensures
        r@ == hex(n as nat),
{
    let mut s = String::new();
    s.push('0');
    s.push('x');
    s.append(to_digits(n, 16).as_str());
    assert(s@ =~= hex(n as nat));
    s
}

/// A number in hexadecimal with at least sixteen digits, behind `0x`.
pub fn to_hex16(n: u64) -> (r: String)
    ensures
        r@ == hex16(n as nat),
{
    let mut s = String::new();
    s.push('0');
    s.push('x');
    s.append(to_padded(to_digits(n, 16), 16, '0').as_str());
    assert(s@ =~= hex16(n as nat));
    s
}

/// A number in octal with at least three digits, behind `0o`.
pub fn to_octal3(n: u64) -> (r: String)
    ensures
        r@ == octal3(n as nat),
{
    let mut s = String::new();
    s.push('0');
    s.push('o');
    s.append(to_padded(to_digits(n, 8), 3, '0').as_str());
    assert(s@ =~= octal3(n as nat));
    s
}

/// Whether two texts are the same.
pub fn same_text(a: &str, b: &str) -> (r: bool)
    ensures
        r == (a@ == b@),
{
    String::from_str(a) == String::from_str(b)
}

/// Whether `s` begins with `prefix`.
pub open spec fn begins_with(s: Seq<char>, prefix: Seq<char>) -> bool {
    prefix.len() <= s.len() && s.take(prefix.len() as int) == prefix
}

/// What follows `prefix` in `s`, where `s` begins with it.
pub fn strip_prefix(s: &str, prefix: &str) -> (r: Option<String>)
    ensures
        match r {
            Some(rest) => begins_with(s@, prefix@) && rest@ == s@.skip(prefix@.len() as int),
            None => !begins_with(s@, prefix@),
        },
{
    let n: usize = prefix.unicode_len();
    let len: usize = s.unicode_len();
    if len < n {
        return None;
    }
    let front: &str = s.substring_char(0, n);
    assert(front@ =~= s@.take(n as int));
    if same_text(front, prefix) {
        let rest: &str = s.substring_char(n, len);
        assert(rest@ =~= s@.skip(n as int));
        Some(String::from_str(rest))
    } else {
        None
    }
}

/// The number that a digit stands for, in lower or upper case.
pub open spec fn digit_value(c: char) -> nat {
    if '0' <= c && c <= '9' {
        (c as nat - '0' as nat) as nat
    } else if 'a' <= c && c <= 'f' {
        (c as nat - 'a' as nat + 10) as nat
    } else {
        (c as nat - 'A' as nat + 10) as nat
    }
}

/// The number that digits stand for, the most significant first.
pub open spec fn number_read(s: Seq<char>, base: nat) -> nat
    decreases s.len(),
{
    if s.len() == 0 {
        0
    } else {
        number_read(s.drop_last(), base) * base + digit_value(s.last())
    }
}

/// A number is read back of its digits, in lower and in upper case, and these begin with a zero
/// only where it is zero. Each digit is smaller than the base.
pub proof fn lemma_digits_are_read_back(n: nat, base: nat)
    requires
        2 <= base <= 16,
    ensures
        number_read(digits(n, base), base) == n,
        number_read(upper(digits(n, base)), base) == n,
        digits(n, base).len() > 0,
        digits(n, base)[0] == '0' <==> n == 0,
        forall|i: int|
            0 <= i < digits(n, base).len() ==> digit_value(#[trigger] digits(n, base)[i]) < base
                && ((
            '0' <= digits(n, base)[i] && digits(n, base)[i] <= '9') || ('a' <= digits(n, base)[i]
                && digits(n, base)[i] <= 'f')),
        forall|i: int|
            0 <= i < digits(n, base).len() ==> (('0' <= #[trigger] upper(digits(n, base))[i]
                && upper(digits(n, base))[i] <= '9') || ('A' <= upper(digits(n, base))[i] && upper(
                digits(n, base),
            )[i] <= 'F')),
    decreases n,
{
    let all = digits(n, base);
    if n < base {
        lemma_digit_is_read_back(n);
        assert(all =~= seq![digit_char(n)]);
        assert(all.drop_last() =~= Seq::<char>::empty());
        assert(upper(all).drop_last() =~= Seq::<char>::empty());
        assert(number_read(all.drop_last(), base) == 0);
        assert(0 * base == 0) by (nonlinear_arith);
        assert(all.last() == digit_char(n));
        assert(upper(all).last() == upper_char(digit_char(n)));
    } else {
        vstd::arithmetic::div_mod::lemma_div_decreases(n as int, base as int);
        vstd::arithmetic::div_mod::lemma_mod_bound(n as int, base as int);
        vstd::arithmetic::div_mod::lemma_fundamental_div_mod(n as int, base as int);
        vstd::arithmetic::div_mod::lemma_div_non_zero(n as int, base as int);
        let front = digits(n / base, base);
        lemma_digits_are_read_back(n / base, base);
        lemma_digit_is_read_back(n % base);
        assert(all.drop_last() =~= front);
        assert(upper(all).drop_last() =~= upper(front));
        assert(upper(all).last() == upper_char(digit_char(n % base)));
        assert(all.last() == digit_char(n % base));
        assert((n / base) * base == base * (n / base)) by (nonlinear_arith);
        assert(all[0] == front[0]);
        assert forall|i: int| 0 <= i < all.len() implies digit_value(#[trigger] all[i]) < base && ((
        '0' <= all[i] && all[i] <= '9') || ('a' <= all[i] && all[i] <= 'f')) by {
            if i < front.len() {
                assert(all[i] == front[i]);
            }
        }
        assert forall|i: int| 0 <= i < all.len() implies (('0' <= #[trigger] upper(all)[i] && upper(
            all,
        )[i] <= '9') || ('A' <= upper(all)[i] && upper(all)[i] <= 'F')) by {
            if i < front.len() {
                assert(upper(all)[i] == upper(front)[i]);
            }
        }
    }
}

proof fn lemma_digit_is_read_back(d: nat)
    requires
        d < 16,
    ensures
        digit_value(digit_char(d)) == d,
        digit_value(upper_char(digit_char(d))) == d,
        digit_char(d) == '0' <==> d == 0,
        ('0' <= digit_char(d) && digit_char(d) <= '9') || ('a' <= digit_char(d) && digit_char(d)
            <= 'f'),
        ('0' <= upper_char(digit_char(d)) && upper_char(digit_char(d)) <= '9') || ('A'
            <= upper_char(digit_char(d)) && upper_char(digit_char(d)) <= 'F'),
{
}

/// A signed number is read back of its decimal form: behind a minus sign where it is negative.
pub proof fn lemma_decimal_is_read_back(n: int)
    ensures
        n >= 0 ==> number_read(decimal(n), 10) == n,
        n < 0 ==> decimal(n)[0] == '-' && number_read(decimal(n).skip(1), 10) == -n,
        n >= 0 ==> decimal(n)[0] != '-',
{
    if n < 0 {
        lemma_digits_are_read_back((-n) as nat, 10);
        assert(decimal(n).skip(1) =~= digits((-n) as nat, 10));
    } else {
        lemma_digits_are_read_back(n as nat, 10);
    }
}

/// A text that is padded ends with what it was, is at least as long as asked for and no longer than
/// it must be, and begins with what it is filled with.
pub proof fn lemma_padded_in_front(s: Seq<char>, width: nat, fill: char)
    ensures
        padded(s, width, fill).len() == vstd::math::max(s.len() as int, width as int),
        padded(s, width, fill).skip(padded(s, width, fill).len() - s.len()) == s,
        forall|i: int|
            0 <= i < padded(s, width, fill).len() - s.len() ==> #[trigger] padded(s, width, fill)[i]
                == fill,
{
    let p = padded(s, width, fill);
    assert(p.skip(p.len() - s.len()) =~= s);
}

/// What stands before the digits of a number that is not decimal, and how many digits there are at
/// least.
pub proof fn lemma_base_is_told(n: nat)
    ensures
        hex(n)[0] == '0' && hex(n)[1] == 'x' && number_read(hex(n).skip(2), 16) == n,
        hex16(n)[0] == '0' && hex16(n)[1] == 'x' && hex16(n).len() >= 18 && number_read(
            hex16(n).skip(2),
            16,
        ) == n,
        octal3(n)[0] == '0' && octal3(n)[1] == 'o' && octal3(n).len() >= 5 && number_read(
            octal3(n).skip(2),
            8,
        ) == n,
{
    lemma_digits_are_read_back(n, 16);
    lemma_digits_are_read_back(n, 8);
    assert(hex(n).skip(2) =~= digits(n, 16));
    assert(hex16(n).skip(2) =~= padded(digits(n, 16), 16, '0'));
    assert(octal3(n).skip(2) =~= padded(digits(n, 8), 3, '0'));
    lemma_zeros_in_front(digits(n, 16), 16, 16);
    lemma_zeros_in_front(digits(n, 8), 3, 8);
}

proof fn lemma_zeros_in_front(s: Seq<char>, width: nat, base: nat)
    ensures
        number_read(padded(s, width, '0'), base) == number_read(s, base),
    decreases s.len(), width,
{
    let p = padded(s, width, '0');
    if s.len() >= width {
    } else if s.len() == 0 {
        let less = (width - 1) as nat;
        assert(p.drop_last() =~= padded(s, less, '0'));
        lemma_zeros_in_front(s, less, base);
        assert(p.last() == '0');
        assert(0 * base == 0) by (nonlinear_arith);
    } else {
        assert(p.drop_last() =~= padded(s.drop_last(), (width - 1) as nat, '0'));
        lemma_zeros_in_front(s.drop_last(), (width - 1) as nat, base);
        assert(p.last() == s.last());
    }
}

} // verus!
