//! Whole numbers in decimal notation.
use vstd::arithmetic::div_mod;
use vstd::arithmetic::power;
use vstd::prelude::*;
use vstd::string::*;

verus! {

/// The ten decimal digits, each at the index that is its value.
const DIGITS: &'static str = "0123456789";

/// The character that stands for the digit `d`.
pub open spec fn digit_char(d: nat) -> char
    recommends
        d < 10,
{
    ('0' as nat + d) as char
}

/// `n` in decimal notation, without leading zeros.
pub open spec fn decimal(n: nat) -> Seq<char>
    decreases n,
{
    if n < 10 {
        seq![digit_char(n)]
    } else {
        decimal(n / 10).push(digit_char(n % 10))
    }
}

/// The number that a string of decimal digits stands for.
pub open spec fn decimal_value(s: Seq<char>) -> int
    decreases s.len(),
{
    if s.len() == 0 {
        0
    } else {
        10 * decimal_value(s.drop_last()) + (s.last() as int - '0' as int)
    }
}

/// One digit as a string.
fn digit_str(d: u64) -> (r: &'static str)
    requires
        d < 10,
    ensures
        r@ == seq![digit_char(d as nat)],
{
    proof {
        reveal_strlit("0123456789");
    }
    let s = DIGITS.substring_ascii(d as usize, d as usize + 1);
    assert(s@ =~= seq![digit_char(d as nat)]);
    s
}

/// `n` in decimal notation.
pub fn decimal_text(n: u64) -> (text: String)
    ensures
        text@ == decimal(n as nat),
    decreases n,
{
    if n < 10 {
        String::from_str(digit_str(n))
    } else {
        let mut text = decimal_text(n / 10);
        text.append(digit_str(n % 10));
        assert(text@ =~= decimal(n as nat));
        text
    }
}

/// Reading the decimal notation of a number back gives the number, so two numbers never share one
/// notation.
pub proof fn decimal_reads_back(n: nat)
    ensures
        decimal_value(decimal(n)) == n,
    decreases n,
{
    if n < 10 {
        assert(decimal(n).drop_last() =~= Seq::<char>::empty());
        assert(decimal_value(Seq::<char>::empty()) == 0);
    } else {
        decimal_reads_back(n / 10);
        assert(decimal(n).drop_last() =~= decimal(n / 10));
    }
}

/// The decimal notation of a number is made of digits alone, there is at least one, and the first is
/// zero only for the number zero.
pub proof fn decimal_is_plain_digits(n: nat)
    ensures
        decimal(n).len() > 0,
        forall|i: int| 0 <= i < decimal(n).len() ==> '0' <= #[trigger] decimal(n)[i] <= '9',
        decimal(n)[0] == '0' <==> n == 0,
    decreases n,
{
    if n >= 10 {
        decimal_is_plain_digits(n / 10);
    }
}

/// The character of weight ten to the power of `k`, counted from the end, is the digit that `n` has
/// there; and there are as many characters as `n` has digits.
pub proof fn decimal_has_the_digits_of_the_number(n: nat)
    ensures
        n < power::pow(10, decimal(n).len()),
        decimal(n).len() > 1 ==> power::pow(10, (decimal(n).len() - 1) as nat) <= n,
        decimal(n).len() >= 1,
        forall|k: nat|
            k < decimal(n).len() ==> #[trigger] decimal(n)[decimal(n).len() - 1 - k] == ('0' as int
                + (n as int / power::pow(10, k)) % 10) as char,
    decreases n,
{
    let len = decimal(n).len();
    power::lemma_pow0(10);
    power::lemma_pow1(10);
    if n >= 10 {
        let front = decimal(n / 10);
        decimal_has_the_digits_of_the_number(n / 10);
        power::lemma_pow_adds(10, 1, front.len());
        power::lemma_pow_adds(10, 1, (front.len() - 1) as nat);
        assert forall|k: nat| k < len implies #[trigger] decimal(n)[len - 1 - k] == ('0' as int + (
        n as int / power::pow(10, k)) % 10) as char by {
            if k > 0 {
                let j = (k - 1) as nat;
                power::lemma_pow_adds(10, 1, j);
                power::lemma_pow_positive(10, j);
                div_mod::lemma_div_denominator(n as int, 10, power::pow(10, j));
                assert(front[front.len() - 1 - j] == ('0' as int + ((n / 10) as int
                    / power::pow(10, j)) % 10) as char);
            }
        }
    }
}

/// A further digit behind a number other than zero is a further character behind its notation.
pub proof fn decimal_grows_by_its_last_digit(front: nat, last: nat)
    requires
        last < 10,
    ensures
        decimal(last) == seq![('0' as nat + last) as char],
        front > 0 ==> decimal(10 * front + last) == decimal(front) + decimal(last),
{
    if front > 0 {
        assert((10 * front + last) / 10 == front);
        assert(decimal(10 * front + last) =~= decimal(front) + decimal(last));
    }
}

/// A further digit multiplies the value that is read by ten and adds its own; nothing at all reads as
/// zero.
pub proof fn value_grows_by_its_last_digit(front: Seq<char>, d: nat)
    requires
        d < 10,
    ensures
        decimal_value(Seq::empty()) == 0,
        decimal_value(front.push(('0' as nat + d) as char)) == 10 * decimal_value(front) + d,
{
    assert(front.push(('0' as nat + d) as char).drop_last() =~= front);
}

} // verus!
