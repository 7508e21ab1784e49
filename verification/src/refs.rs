//! The short random texts that tie a reply to its request.

use vstd::arithmetic::div_mod::{lemma_fundamental_div_mod, lemma_fundamental_div_mod_converse};
use vstd::arithmetic::power::pow;
use vstd::prelude::*;

verus! {

/// `String::push`: appends one character to the text.
pub assume_specification[ String::push ](text: &mut String, c: char)
    ensures
        final(text)@ == old(text)@.push(c),
;

/// The digit of value `d`: `0` to `9`, then `a` to `z`.
pub open spec fn digit_char(d: nat) -> char {
    if d < 10 {
        (48 + d) as char
    } else {
        (87 + d) as char
    }
}

/// The value of a digit.
pub open spec fn digit_value(c: char) -> nat {
    if c <= '9' {
        (c as int - 48) as nat
    } else {
        (c as int - 87) as nat
    }
}

/// The text of `n` in base `radix`, without leading zeros.
pub open spec fn digits(n: nat, radix: nat) -> Seq<char>
    decreases n,
{
    if radix < 2 || n < radix {
        seq![digit_char(n)]
    } else {
        proof {
            assert(n / radix < n) by (nonlinear_arith)
                requires
                    n >= radix,
                    radix >= 2,
            ;
        }
        digits(n / radix, radix).push(digit_char(n % radix))
    }
}

/// The number that `text` denotes in base `radix`.
pub open spec fn number(text: Seq<char>, radix: nat) -> nat
    decreases text.len(),
{
    if text.len() == 0 {
        0
    } else {
        number(text.drop_last(), radix) * radix + digit_value(text.last())
    }
}

/// The decimal texts of the two numbers, one behind the other, as a number.
pub open spec fn joined(first: u32, second: u32) -> nat {
    number(digits(first as nat, 10) + digits(second as nat, 10), 10)
}

/// The reference made of two numbers: their decimal texts one behind the
/// other, read as one number and written in base 36.
pub open spec fn ref_of(first: u32, second: u32) -> Seq<char> {
    digits(joined(first, second), 36)
}

/// The numbers that references are made of: those of nine decimal digits,
/// but for the greatest.
pub open spec fn is_ref_number(n: u32) -> bool {
    100_000_000 <= n < 999_999_999
}

/// `text` is a reference of two distinct numbers.
pub open spec fn is_generated_ref(text: Seq<char>) -> bool {
    exists|first: u32, second: u32|
        #![trigger ref_of(first, second)]
        is_ref_number(first) && is_ref_number(second) && first != second && text == ref_of(
            first,
            second,
        )
}

/// `fastrand::choose_multiple` on a range of numbers: hands out `amount`
/// numbers of the range, each at most once. Which ones, and in which order,
/// is left to chance.
#[verifier::external_body]
fn choose_multiple(low: u32, high: u32, amount: usize) -> (chosen: Vec<u32>)
    requires
        low <= high,
        amount <= high - low,
        amount <= 0xffff,
    ensures
        chosen@.len() == amount,
        forall|i: int| 0 <= i < chosen@.len() ==> low <= #[trigger] chosen@[i] < high,
        chosen@.no_duplicates(),
{
    fastrand::choose_multiple(low..high, amount)
}

proof fn lemma_digits_len_step(n: nat, radix: nat)
    requires
        2 <= radix,
    ensures
        digits(n, radix).len() >= 1,
        n >= radix ==> digits(n, radix).len() == digits(n / radix, radix).len() + 1,
    decreases n,
{
    if n >= radix {
        assert(n / radix < n) by (nonlinear_arith)
            requires
                n >= radix,
                radix >= 2,
        ;
        lemma_digits_len_step(n / radix, radix);
    }
}

/// Reading back the text of a number gives the number.
pub proof fn law_digits_denote_their_number(n: nat, radix: nat)
    requires
        2 <= radix <= 36,
    ensures
        number(digits(n, radix), radix) == n,
    decreases n,
{
    reveal_with_fuel(number, 2);
    let text = digits(n, radix);
    if n < radix {
        assert(text.drop_last() =~= Seq::<char>::empty());
        assert(text.last() == digit_char(n));
        assert(number(text.drop_last(), radix) == 0);
        assert(0 * radix == 0);
        assert(digit_value(digit_char(n)) == n);
    } else {
        assert(n / radix < n) by (nonlinear_arith)
            requires
                n >= radix,
                radix >= 2,
        ;
        law_digits_denote_their_number(n / radix, radix);
        assert(text.drop_last() =~= digits(n / radix, radix));
        assert(digit_value(digit_char(n % radix)) == n % radix);
        lemma_fundamental_div_mod(n as int, radix as int);
        assert(n == (n / radix) * radix + n % radix) by (nonlinear_arith)
            requires
                n == radix * (n / radix) + n % radix,
        ;
    }
}

proof fn lemma_number_of_concat(front: Seq<char>, back: Seq<char>, radix: nat)
    ensures
        number(front + back, radix) == number(front, radix) * pow(radix as int, back.len())
            + number(back, radix),
    decreases back.len(),
{
    reveal(pow);
    let whole = front + back;
    if back.len() == 0 {
        assert(whole =~= front);
    } else {
        assert(whole.drop_last() =~= front + back.drop_last());
        lemma_number_of_concat(front, back.drop_last(), radix);
        let p = pow(radix as int, (back.len() - 1) as nat);
        assert((number(front, radix) * p + number(back.drop_last(), radix)) * radix == number(
            front,
            radix,
        ) * (radix * p) + number(back.drop_last(), radix) * radix) by (nonlinear_arith);
    }
}

/// The digit of value `d` in base 36.
fn digit(d: u64) -> (c: char)
    requires
        d < 36,
    ensures
        c == digit_char(d as nat),
{
    if d < 10 {
        (48u8 + d as u8) as char
    } else {
        (87u8 + d as u8) as char
    }
}

/// The text of `n` in base 36.
fn base36(n: u64) -> (text: String)
    ensures
        text@ == digits(n as nat, 36),
{
    // The digits that were split off, the last one first.
    let mut split: Vec<char> = Vec::new();
    let mut rest: u64 = n;
    while rest >= 36
        invariant
            digits(n as nat, 36) == digits(rest as nat, 36) + split@.reverse(),
        decreases rest,
    {
        let ghost before = split@;
        split.push(digit(rest % 36));
        proof {
            assert(split@.reverse() =~= seq![digit_char(rest as nat % 36)] + before.reverse());
            assert(digits(n as nat, 36) =~= digits(rest as nat / 36, 36) + split@.reverse());
        }
        rest = rest / 36;
    }
    let mut text = String::new();
    text.push(digit(rest));
    let mut left: usize = split.len();
    proof {
        assert(split@.reverse().take(0) =~= Seq::<char>::empty());
        assert(text@ =~= digits(rest as nat, 36));
        assert(text@ =~= digits(rest as nat, 36) + split@.reverse().take(0));
    }
    while left > 0
        invariant
            left <= split@.len(),
            text@ == digits(rest as nat, 36) + split@.reverse().take(split@.len() - left),
        decreases left,
    {
        left = left - 1;
        text.push(split[left]);
        proof {
            let done = split@.len() - left;
            assert(split@.reverse().take(done) =~= split@.reverse().take(done - 1).push(
                split@[left as int],
            ));
            assert(text@ =~= digits(rest as nat, 36) + split@.reverse().take(done));
        }
    }
    proof {
        assert(split@.reverse().take(split@.len() as int) =~= split@.reverse());
    }
    text
}

proof fn lemma_joined(first: u32, second: u32)
    ensures
        joined(first, second) == first * pow(10, digits(second as nat, 10).len()) + second,
{
    lemma_number_of_concat(digits(first as nat, 10), digits(second as nat, 10), 10);
    law_digits_denote_their_number(first as nat, 10);
    law_digits_denote_their_number(second as nat, 10);
}

/// A text of `n` has `k + 1` digits if `n` lies between the two powers.
proof fn lemma_digits_len(n: nat, radix: nat, k: nat)
    requires
        2 <= radix,
        pow(radix as int, k) <= n < pow(radix as int, k + 1),
    ensures
        digits(n, radix).len() == k + 1,
    decreases k,
{
    reveal(pow);
    let r = radix as int;
    if k == 0 {
        assert(pow(r, 1) == r * pow(r, 0));
    } else {
        let low = pow(r, (k - 1) as nat);
        let mid = pow(r, k);
        assert(mid == r * low);
        assert(pow(r, k + 1) == r * mid);
        vstd::arithmetic::power::lemma_pow_positive(r, (k - 1) as nat);
        assert(n >= radix) by (nonlinear_arith)
            requires
                n >= mid,
                mid == r * low,
                low >= 1,
                r == radix,
        ;
        assert(low <= n as int / r < mid) by (nonlinear_arith)
            requires
                r >= 2,
                r * low <= n < r * mid,
        ;
        lemma_digits_len(n / radix, radix, (k - 1) as nat);
        lemma_digits_len_step(n, radix);
    }
}

proof fn lemma_ten_powers()
    ensures
        pow(10, 8) == 100_000_000,
        pow(10, 9) == 1_000_000_000,
{
    reveal(pow);
    reveal_with_fuel(pow, 10);
}

proof fn lemma_digits_of_shifted(front: nat, back: nat, radix: nat)
    requires
        2 <= radix,
        1 <= front,
    ensures
        digits((front * pow(radix as int, digits(back, radix).len()) + back) as nat, radix)
            == digits(front, radix) + digits(back, radix),
    decreases back,
{
    reveal(pow);
    let r = radix as int;
    let len = digits(back, radix).len();
    lemma_digits_len_step(back, radix);
    let p = pow(r, (len - 1) as nat);
    vstd::arithmetic::power::lemma_pow_positive(r, (len - 1) as nat);
    assert(pow(r, len) == r * p);
    let whole = (front * (r * p) + back) as nat;
    assert(front * (r * p) >= r) by (nonlinear_arith)
        requires
            front >= 1,
            p >= 1,
            r >= 2,
    ;
    if back < radix {
        assert(p == 1);
        lemma_fundamental_div_mod_converse(whole as int, r, front as int, back as int);
        assert(digits(whole, radix) =~= digits(front, radix) + digits(back, radix));
    } else {
        let rest = back / radix;
        let last = back % radix;
        assert(rest < back) by (nonlinear_arith)
            requires
                rest == back / radix,
                back >= radix,
                radix >= 2,
        ;
        lemma_digits_of_shifted(front, rest, radix);
        lemma_fundamental_div_mod(back as int, r);
        let upper = (front * p + rest) as nat;
        assert(front * p >= 0) by (nonlinear_arith)
            requires
                p >= 1,
        ;
        assert(front * (r * p) + (r * rest + last) == r * (front * p + rest) + last)
            by (nonlinear_arith);
        assert(whole as int == r * upper + last);
        lemma_fundamental_div_mod_converse(whole as int, r, upper as int, last as int);
        assert(digits(whole, radix) =~= digits(upper, radix).push(digit_char(last)));
        assert(digits(whole, radix) =~= digits(front, radix) + digits(back, radix));
    }
}

/// Joining two numbers of nine digits shifts the first by nine places, and
/// the decimal text of the result is the two decimal texts one behind the
/// other.
pub proof fn law_joined_is_positional(first: u32, second: u32)
    requires
        is_ref_number(first),
        is_ref_number(second),
    ensures
        joined(first, second) == first * 1_000_000_000 + second,
        digits(joined(first, second), 10) == digits(first as nat, 10) + digits(second as nat, 10),
{
    lemma_ten_powers();
    lemma_joined(first, second);
    lemma_digits_len(second as nat, 10, 8);
    lemma_digits_of_shifted(first as nat, second as nat, 10);
}

/// Different pairs of numbers make different references.
pub proof fn law_refs_differ(first: u32, second: u32, other_first: u32, other_second: u32)
    requires
        is_ref_number(first),
        is_ref_number(second),
        is_ref_number(other_first),
        is_ref_number(other_second),
        ref_of(first, second) == ref_of(other_first, other_second),
    ensures
        first == other_first,
        second == other_second,
{
    law_joined_is_positional(first, second);
    law_joined_is_positional(other_first, other_second);
    law_digits_denote_their_number(joined(first, second), 36);
    law_digits_denote_their_number(joined(other_first, other_second), 36);
}

/// `c` is a digit of base 36.
pub open spec fn is_base36_digit(c: char) -> bool {
    '0' <= c <= '9' || 'a' <= c <= 'z'
}

proof fn lemma_digits_alphabet(n: nat, radix: nat)
    requires
        2 <= radix <= 36,
    ensures
        forall|i: int|
            0 <= i < digits(n, radix).len() ==> is_base36_digit(#[trigger] digits(n, radix)[i]),
        n > 0 ==> digits(n, radix)[0] != '0',
    decreases n,
{
    if n >= radix {
        assert(0 < n / radix < n) by (nonlinear_arith)
            requires
                n >= radix,
                radix >= 2,
        ;
        lemma_digits_alphabet(n / radix, radix);
        lemma_digits_len_step(n / radix, radix);
    }
}

/// A generated reference has eleven or twelve digits of base 36 and does not
/// start with a zero. In particular it is not empty.
pub proof fn law_generated_ref_shape(text: Seq<char>)
    requires
        is_generated_ref(text),
    ensures
        11 <= text.len() <= 12,
        forall|i: int| 0 <= i < text.len() ==> is_base36_digit(#[trigger] text[i]),
        text[0] != '0',
{
    let (first, second) = choose|first: u32, second: u32|
        #![trigger ref_of(first, second)]
        is_ref_number(first) && is_ref_number(second) && first != second && text == ref_of(
            first,
            second,
        );
    lemma_ref_shape(first, second);
}

proof fn lemma_ref_shape(first: u32, second: u32)
    requires
        is_ref_number(first),
        is_ref_number(second),
    ensures
        11 <= ref_of(first, second).len() <= 12,
        forall|i: int|
            0 <= i < ref_of(first, second).len() ==> is_base36_digit(
                #[trigger] ref_of(first, second)[i],
            ),
        ref_of(first, second)[0] != '0',
{
    law_joined_is_positional(first, second);
    let n = joined(first, second);
    reveal(pow);
    reveal_with_fuel(pow, 13);
    assert(pow(36, 10) == 3_656_158_440_062_976);
    assert(pow(36, 11) == 131_621_703_842_267_136);
    assert(pow(36, 12) == 4_738_381_338_321_616_896);
    if n < pow(36, 11) {
        lemma_digits_len(n, 36, 10);
    } else {
        lemma_digits_len(n, 36, 11);
    }
    lemma_digits_alphabet(n, 36);
}

/// The digits of base 36 are `0` to `9` and `a` to `z`, in that order, and each
/// has the value of its place.
pub proof fn law_digits_in_order(d: nat)
    requires
        d < 36,
    ensures
        d < 10 ==> digit_char(d) as int == '0' as int + d,
        d >= 10 ==> digit_char(d) as int == 'a' as int + d - 10,
        digit_value(digit_char(d)) == d,
{
}

/// References are made of all numbers of nine decimal digits, but for the
/// greatest.
pub proof fn law_ref_numbers(n: u32)
    ensures
        is_ref_number(n) <==> digits(n as nat, 10).len() == 9 && n != 999_999_999,
        is_ref_number(n) <==> 100_000_000 <= n && n + 1 < 1_000_000_000,
{
    lemma_ten_powers();
    if 100_000_000 <= n < 1_000_000_000 {
        lemma_digits_len(n as nat, 10, 8);
    } else if n >= 1_000_000_000 {
        reveal(pow);
        assert(pow(10, 10) == 10 * pow(10, 9));
        lemma_digits_len(n as nat, 10, 9);
    } else {
        lemma_digits_at_most(n as nat, 10, 8);
    }
}

/// A number below a power has at most as many digits as its exponent.
proof fn lemma_digits_at_most(n: nat, radix: nat, k: nat)
    requires
        2 <= radix,
        n < pow(radix as int, k),
        1 <= k,
    ensures
        digits(n, radix).len() <= k,
    decreases k,
{
    reveal(pow);
    let r = radix as int;
    let low = pow(r, (k - 1) as nat);
    assert(pow(r, k) == r * low);
    lemma_digits_len_step(n, radix);
    if n >= radix {
        if k == 1 {
            assert(low == 1);
            assert(false);
        }
        assert(n as int / r < low) by (nonlinear_arith)
            requires
                n < r * low,
                r >= 2,
        ;
        lemma_digits_at_most(n / radix, radix, (k - 1) as nat);
    }
}

/// A text that denotes a number in base 36, in digits of base 36 and without a
/// leading zero, is the text of that number.
pub proof fn law_text_is_determined(text: Seq<char>)
    requires
        text.len() > 0,
        forall|i: int|
            0 <= i < text.len() ==> '0' <= #[trigger] text[i] <= '9' || 'a' <= text[i] <= 'z',
        text[0] != '0',
    ensures
        digits(number(text, 36), 36) == text,
        number(text, 36) > 0,
    decreases text.len(),
{
    let front = text.drop_last();
    let last = text.last();
    assert(last == text[text.len() - 1]);
    assert(digit_value(last) < 36);
    assert(digit_char(digit_value(last)) == last);
    if text.len() == 1 {
        reveal_with_fuel(number, 2);
        assert(front =~= Seq::<char>::empty());
        assert(text =~= seq![last]);
        assert(text[0] == last);
        assert(number(text, 36) == digit_value(last));
    } else {
        assert forall|i: int| 0 <= i < front.len() implies '0' <= #[trigger] front[i] <= '9'
            || 'a' <= front[i] <= 'z' by {
            assert(front[i] == text[i]);
        }
        assert(front[0] == text[0]);
        law_text_is_determined(front);
        let n = number(text, 36);
        let upper = number(front, 36);
        assert(n == upper * 36 + digit_value(last));
        assert(n / 36 == upper && n % 36 == digit_value(last));
        assert(digits(n, 36) =~= text);
    }
}

/// The reference made of two numbers.
pub fn encode_ref(first: u32, second: u32) -> (text: String)
    requires
        is_ref_number(first),
        is_ref_number(second),
    ensures
        text@ == ref_of(first, second),
        number(text@, 36) == first * 1_000_000_000 + second,
        11 <= text@.len() <= 12,
        text@[0] != '0',
        forall|i: int|
            0 <= i < text@.len() ==> '0' <= #[trigger] text@[i] <= '9' || 'a' <= text@[i] <= 'z',
{
    proof {
        law_joined_is_positional(first, second);
        law_digits_denote_their_number(joined(first, second), 36);
        lemma_ref_shape(first, second);
    }
    base36(first as u64 * 1_000_000_000 + second as u64)
}

/// A fresh random reference.
pub fn generate_ref() -> (text: String)
    ensures
        is_generated_ref(text@),
        exists|first: u32, second: u32|
            #![trigger ref_of(first, second)]
            {
                &&& 100_000_000 <= first < 999_999_999
                &&& 100_000_000 <= second < 999_999_999
                &&& first != second
                &&& number(text@, 36) == first * 1_000_000_000 + second
                &&& text@ == ref_of(first, second)
            },
        11 <= text@.len() <= 12,
        text@[0] != '0',
        forall|i: int|
            0 <= i < text@.len() ==> '0' <= #[trigger] text@[i] <= '9' || 'a' <= text@[i] <= 'z',
{
    let numbers = choose_multiple(100_000_000, 999_999_999, 2);
    let first = numbers[0];
    let second = numbers[1];
    proof {
        assert(is_ref_number(numbers@[0]) && is_ref_number(numbers@[1]));
    }
    let text = encode_ref(first, second);
    assert(text@ == ref_of(first, second));
    text
}

} // verus!
