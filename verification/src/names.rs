use vstd::prelude::*;
use vstd::string::StringExecFns;

use crate::text::is_digit;

verus! {

/// The character for the decimal digit `d` (meaningful for `d < 10`).
pub open spec fn spec_digit_char(d: nat) -> char {
    if d == 0 {
        '0'
    } else if d == 1 {
        '1'
    } else if d == 2 {
        '2'
    } else if d == 3 {
        '3'
    } else if d == 4 {
        '4'
    } else if d == 5 {
        '5'
    } else if d == 6 {
        '6'
    } else if d == 7 {
        '7'
    } else if d == 8 {
        '8'
    } else {
        '9'
    }
}

/// The decimal representation of `n`, most significant digit first, with no
/// leading zeros (`0` itself is the single digit `0`).
pub open spec fn spec_decimal(n: nat) -> Seq<char>
    decreases n,
{
    if n < 10 {
        seq![spec_digit_char(n)]
    } else {
        spec_decimal(n / 10) + seq![spec_digit_char(n % 10)]
    }
}

/// The `k`-th placeholder parameter name: two underscores followed by `k` in
/// decimal.
pub open spec fn spec_param_name(k: nat) -> Seq<char> {
    seq!['_', '_'] + spec_decimal(k)
}

/// The one-character string for the decimal digit `d`.
fn digit_str(d: u16) -> (r: &'static str)
    requires
        d < 10,
    ensures
        r@ == seq![spec_digit_char(d as nat)],
{
    proof {
        reveal_strlit("0");
        reveal_strlit("1");
        reveal_strlit("2");
        reveal_strlit("3");
        reveal_strlit("4");
        reveal_strlit("5");
        reveal_strlit("6");
        reveal_strlit("7");
        reveal_strlit("8");
        reveal_strlit("9");
        assert("0"@ =~= seq!['0']);
        assert("1"@ =~= seq!['1']);
        assert("2"@ =~= seq!['2']);
        assert("3"@ =~= seq!['3']);
        assert("4"@ =~= seq!['4']);
        assert("5"@ =~= seq!['5']);
        assert("6"@ =~= seq!['6']);
        assert("7"@ =~= seq!['7']);
        assert("8"@ =~= seq!['8']);
        assert("9"@ =~= seq!['9']);
    }
    match d {
        0 => "0",
        1 => "1",
        2 => "2",
        3 => "3",
        4 => "4",
        5 => "5",
        6 => "6",
        7 => "7",
        8 => "8",
        _ => "9",
    }
}

/// Renders `n` in decimal.
pub fn decimal_string(n: u16) -> (r: String)
    ensures
        r@ == spec_decimal(n as nat),
    decreases n,
{
    if n < 10 {
        digit_str(n).to_owned()
    } else {
        let mut s = decimal_string(n / 10);
        s.append(digit_str(n % 10));
        s
    }
}

/// Builds the `k`-th placeholder parameter name, `__k`.
pub fn param_name(k: u16) -> (r: String)
    ensures
        r@ == spec_param_name(k as nat),
{
    proof {
        reveal_strlit("__");
        assert("__"@ =~= seq!['_', '_']);
    }
    let mut s = "__".to_owned();
    let digits = decimal_string(k);
    s.append(digits.as_str());
    s
}

/// A decimal representation is never empty.
pub proof fn lemma_decimal_len(n: nat)
    ensures
        spec_decimal(n).len() >= 1,
    decreases n,
{
    if n >= 10 {
        lemma_decimal_len(n / 10);
    }
}

/// The last digit of the decimal representation is `n % 10`, and what stands
/// before it is the representation of `n / 10` (nothing for `n < 10`).
proof fn lemma_decimal_split(n: nat)
    ensures
        spec_decimal(n).last() == spec_digit_char(n % 10),
        n < 10 ==> spec_decimal(n).drop_last() =~= Seq::<char>::empty(),
        n >= 10 ==> spec_decimal(n).drop_last() =~= spec_decimal(n / 10),
{
    if n < 10 {
        assert(n % 10 == n);
    } else {
        lemma_decimal_len(n / 10);
    }
}

/// Distinct digits have distinct characters.
proof fn lemma_digit_char_injective(a: nat, b: nat)
    requires
        a < 10,
        b < 10,
        a != b,
    ensures
        spec_digit_char(a) != spec_digit_char(b),
{
}

/// The decimal representation determines the number.
proof fn lemma_decimal_injective(a: nat, b: nat)
    requires
        spec_decimal(a) == spec_decimal(b),
    ensures
        a == b,
    decreases a,
{
    lemma_decimal_split(a);
    lemma_decimal_split(b);
    if a % 10 != b % 10 {
        lemma_digit_char_injective(a % 10, b % 10);
        assert(false);
    }
    if a < 10 && b < 10 {
        assert(a == a % 10 && b == b % 10);
    } else if a < 10 && b >= 10 {
        lemma_decimal_len(b / 10);
        assert(spec_decimal(a).len() == 1);
        assert(spec_decimal(b).len() >= 2);
        assert(false);
    } else if a >= 10 && b < 10 {
        lemma_decimal_len(a / 10);
        assert(spec_decimal(a).len() >= 2);
        assert(spec_decimal(b).len() == 1);
        assert(false);
    } else {
        assert(spec_decimal(a / 10) =~= spec_decimal(b / 10));
        lemma_decimal_injective(a / 10, b / 10);
        vstd::arithmetic::div_mod::lemma_fundamental_div_mod(a as int, 10);
        vstd::arithmetic::div_mod::lemma_fundamental_div_mod(b as int, 10);
    }
}

/// Every character of a decimal representation is a digit.
pub proof fn lemma_decimal_chars_are_digits(n: nat)
    ensures
        forall|k: int|
            0 <= k < spec_decimal(n).len() ==> is_digit(#[trigger] spec_decimal(n)[k]),
    decreases n,
{
    if n < 10 {
        assert(is_digit(spec_digit_char(n)));
    } else {
        lemma_decimal_chars_are_digits(n / 10);
        assert(is_digit(spec_digit_char(n % 10)));
        assert forall|k: int| 0 <= k < spec_decimal(n).len() implies is_digit(
            #[trigger] spec_decimal(n)[k],
        ) by {
            if k < spec_decimal(n / 10).len() {
                assert(spec_decimal(n)[k] == spec_decimal(n / 10)[k]);
            } else {
                assert(spec_decimal(n)[k] == spec_digit_char(n % 10));
            }
        }
    }
}

/// Every character of a placeholder name is an underscore or a digit.
pub proof fn lemma_param_name_chars(k: nat)
    ensures
        forall|t: int|
            0 <= t < spec_param_name(k).len() ==> (#[trigger] spec_param_name(k)[t]) == '_'
                || is_digit(spec_param_name(k)[t]),
{
    lemma_decimal_chars_are_digits(k);
    assert forall|t: int| 0 <= t < spec_param_name(k).len() implies (
    #[trigger] spec_param_name(k)[t]) == '_' || is_digit(spec_param_name(k)[t]) by {
        if t >= 2 {
            assert(spec_param_name(k)[t] == spec_decimal(k)[t - 2]);
        }
    }
}

/// Law: placeholder names never collide — two different positions always get
/// two different parameter names.
pub proof fn lemma_param_names_distinct(i: nat, j: nat)
    requires
        i != j,
    ensures
        spec_param_name(i) != spec_param_name(j),
{
    if spec_param_name(i) == spec_param_name(j) {
        assert(spec_param_name(i).len() == 2 + spec_decimal(i).len());
        assert(spec_param_name(j).len() == 2 + spec_decimal(j).len());
        assert(spec_decimal(i).len() == spec_decimal(j).len());
        assert forall|k: int| 0 <= k < spec_decimal(i).len() implies spec_decimal(i)[k]
            == spec_decimal(j)[k] by {
            assert(spec_decimal(i)[k] == spec_param_name(i)[k + 2]);
            assert(spec_decimal(j)[k] == spec_param_name(j)[k + 2]);
        }
        assert(spec_decimal(i) =~= spec_decimal(j));
        lemma_decimal_injective(i, j);
        assert(false);
    }
}

} // verus!
