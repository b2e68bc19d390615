use vstd::prelude::*;

verus! {

/// An ASCII whitespace character: space, tab, line feed or carriage return.
pub open spec fn is_space(c: char) -> bool {
    c == ' ' || c == '\t' || c == '\n' || c == '\r'
}

/// A decimal digit.
pub open spec fn is_digit(c: char) -> bool {
    48 <= c as int && c as int <= 57
}

/// A character that may continue an identifier: a letter, a digit or an
/// underscore.
pub open spec fn is_ident_char(c: char) -> bool {
    ||| 97 <= c as int && c as int <= 122
    ||| 65 <= c as int && c as int <= 90
    ||| is_digit(c)
    ||| c == '_'
}

/// The numeric value of a decimal digit character.
pub open spec fn digit_val(c: char) -> nat {
    (c as int - 48) as nat
}

/// The index of the first character at or after `i` that is not whitespace,
/// or the end of the text.
pub open spec fn spec_skip_ws(s: Seq<char>, i: nat) -> nat
    decreases s.len() - i,
{
    if i >= s.len() {
        i
    } else if !is_space(s[i as int]) {
        i
    } else {
        spec_skip_ws(s, i + 1)
    }
}

/// A digit of base `r`: a decimal digit whose value is below `r`, and for
/// base sixteen also the letters `a` to `f` in either case.
pub open spec fn is_radix_digit(c: char, r: nat) -> bool {
    ||| (is_digit(c) && digit_val(c) < r)
    ||| (r == 16 && (97 <= c as int && c as int <= 102))
    ||| (r == 16 && (65 <= c as int && c as int <= 70))
}

/// The numeric value of a digit character of any base up to sixteen.
pub open spec fn radix_digit_val(c: char) -> nat {
    if is_digit(c) {
        digit_val(c)
    } else if 97 <= c as int && c as int <= 102 {
        (c as int - 87) as nat
    } else if 65 <= c as int && c as int <= 70 {
        (c as int - 55) as nat
    } else {
        0
    }
}

/// A character that may continue an integer literal of base `r`: a digit of
/// that base or an underscore.
pub open spec fn is_lit_char(c: char, r: nat) -> bool {
    is_radix_digit(c, r) || c == '_'
}

/// The index of the first character at or after `i` that cannot continue an
/// integer literal of base `r`, or the end of the text.
pub open spec fn spec_lit_run_end(s: Seq<char>, i: nat, r: nat) -> nat
    decreases s.len() - i,
{
    if i >= s.len() {
        i
    } else if !is_lit_char(s[i as int], r) {
        i
    } else {
        spec_lit_run_end(s, i + 1, r)
    }
}

/// `spec_lit_run_end` lands between `i` and the end, on a character that
/// cannot continue the literal unless it is the end, and everything it ran
/// over is a digit of the base or an underscore.
pub proof fn lemma_lit_run_end(s: Seq<char>, i: nat, r: nat)
    requires
        i <= s.len(),
    ensures
        i <= spec_lit_run_end(s, i, r) <= s.len(),
        spec_lit_run_end(s, i, r) < s.len() ==> !is_lit_char(
            s[spec_lit_run_end(s, i, r) as int],
            r,
        ),
        forall|k: int| i <= k < spec_lit_run_end(s, i, r) ==> is_lit_char(s[k], r),
    decreases s.len() - i,
{
    if i < s.len() && is_lit_char(s[i as int], r) {
        lemma_lit_run_end(s, i + 1, r);
    }
}

/// The index of the first character at or after `i` that cannot continue an
/// identifier, or the end of the text.
pub open spec fn spec_ident_run_end(s: Seq<char>, i: nat) -> nat
    decreases s.len() - i,
{
    if i >= s.len() {
        i
    } else if !is_ident_char(s[i as int]) {
        i
    } else {
        spec_ident_run_end(s, i + 1)
    }
}

/// How many digits of base `r` a literal run holds (its underscores do not
/// count).
pub open spec fn spec_digit_count(s: Seq<char>, r: nat) -> nat
    decreases s.len(),
{
    if s.len() == 0 {
        0
    } else {
        spec_digit_count(s.drop_last(), r) + if is_radix_digit(s.last(), r) {
            1 as nat
        } else {
            0 as nat
        }
    }
}

/// The value of an integer-literal run in base `r`, most significant digit
/// first, with underscores ignored.
pub open spec fn spec_lit_value(s: Seq<char>, r: nat) -> nat
    decreases s.len(),
{
    if s.len() == 0 {
        0
    } else if s.last() == '_' {
        spec_lit_value(s.drop_last(), r)
    } else {
        spec_lit_value(s.drop_last(), r) * r + radix_digit_val(s.last())
    }
}

/// The text with its trailing whitespace removed.
pub open spec fn spec_trim_end(s: Seq<char>) -> Seq<char>
    decreases s.len(),
{
    if s.len() == 0 || !is_space(s.last()) {
        s
    } else {
        spec_trim_end(s.drop_last())
    }
}

/// If everything from `e` on is whitespace and the character before `e` is
/// not, then trimming trailing whitespace keeps exactly the first `e`
/// characters.
pub proof fn lemma_trim_end_prefix(s: Seq<char>, e: nat)
    requires
        e <= s.len(),
        forall|k: int| e <= k < s.len() ==> is_space(s[k]),
        e > 0 ==> !is_space(s[e - 1]),
    ensures
        spec_trim_end(s) == s.subrange(0, e as int),
    decreases s.len(),
{
    if s.len() == e {
        assert(s.subrange(0, e as int) =~= s);
    } else {
        assert(is_space(s.last()));
        assert(s.drop_last() =~= s.subrange(0, s.len() - 1));
        lemma_trim_end_prefix(s.drop_last(), e);
        assert(s.drop_last().subrange(0, e as int) =~= s.subrange(0, e as int));
    }
}

} // verus!
