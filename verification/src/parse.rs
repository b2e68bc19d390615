use vstd::prelude::*;
use vstd::string::StrSliceExecFns;

use crate::model::{CaptureMode, ParseError, SpecModel, Specification};
use crate::text::{
    is_digit, is_ident_char, is_lit_char, is_radix_digit, is_space, lemma_lit_run_end,
    lemma_trim_end_prefix, radix_digit_val, spec_digit_count, spec_ident_run_end, spec_lit_run_end,
    spec_lit_value, spec_skip_ws, spec_trim_end,
};

verus! {

/// Relies on `syn::parse_str::<syn::Expr>`: whether a string parses as
/// exactly one Rust expression with no tokens left over.  The verdict comes
/// from the lexer backend that proc-macro2 selects at each call — the host
/// compiler's inside a procedural macro, its own fallback otherwise — so two
/// calls on one string need not agree, and nothing is promised of the
/// result; callers state what holds for either answer.  The parser has no
/// recursion-depth guard, so an enormously nested body can exhaust the
/// stack, like any other resource exhaustion.
#[verifier::external_body]
fn parses_as_expr(s: &str) -> bool {
    syn::parse_str::<syn::Expr>(s).is_ok()
}

/// Exec test for `is_space`.
fn char_is_space(c: char) -> (r: bool)
    ensures
        r == is_space(c),
{
    c == ' ' || c == '\t' || c == '\n' || c == '\r'
}

/// Exec test for `is_digit`.
fn char_is_digit(c: char) -> (r: bool)
    ensures
        r == is_digit(c),
{
    let u = c as u32;
    48 <= u && u <= 57
}

/// Exec test for `is_ident_char`.
fn char_is_ident(c: char) -> (r: bool)
    ensures
        r == is_ident_char(c),
{
    let u = c as u32;
    (97 <= u && u <= 122) || (65 <= u && u <= 90) || (48 <= u && u <= 57) || c == '_'
}

/// Exec test for `is_lit_char`.
fn char_is_lit(c: char, radix: u32) -> (r: bool)
    ensures
        r == is_lit_char(c, radix as nat),
{
    let u = c as u32;
    (48 <= u && u <= 57 && u - 48 < radix) || (radix == 16 && ((97 <= u && u <= 102) || (65 <= u
        && u <= 70))) || c == '_'
}

/// The numeric value of a digit character of any base up to sixteen.
fn char_radix_val(c: char) -> (d: u32)
    requires
        is_radix_digit(c, 16),
    ensures
        d as nat == radix_digit_val(c),
        d <= 15,
{
    let u = c as u32;
    if 48 <= u && u <= 57 {
        u - 48
    } else if 97 <= u && u <= 102 {
        u - 87
    } else {
        u - 55
    }
}

/// Scans past whitespace: returns the first index at or after `from` whose
/// character is not whitespace, or the end of the input.
fn skip_ws(input: &str, from: usize) -> (r: usize)
    requires
        from as nat <= input@.len(),
    ensures
        r as nat == spec_skip_ws(input@, from as nat),
        from <= r,
        r as nat <= input@.len(),
{
    let len = input.unicode_len();
    let mut i = from;
    while i < len && char_is_space(input.get_char(i))
        invariant
            from <= i,
            i as nat <= input@.len(),
            len as nat == input@.len(),
            spec_skip_ws(input@, from as nat) == spec_skip_ws(input@, i as nat),
        decreases len - i,
    {
        i = i + 1;
    }
    i
}

/// Scans past the characters that can continue an integer literal of the
/// base: returns the first index at or after `from` whose character is
/// neither a digit of the base nor an underscore, or the end of the input.
fn lit_run_end(input: &str, from: usize, radix: u32) -> (r: usize)
    requires
        from as nat <= input@.len(),
    ensures
        r as nat == spec_lit_run_end(input@, from as nat, radix as nat),
        from <= r,
        r as nat <= input@.len(),
        forall|k: int| from <= k < r ==> is_lit_char(input@[k], radix as nat),
{
    let len = input.unicode_len();
    let mut i = from;
    while i < len && char_is_lit(input.get_char(i), radix)
        invariant
            from <= i,
            i as nat <= input@.len(),
            len as nat == input@.len(),
            spec_lit_run_end(input@, from as nat, radix as nat) == spec_lit_run_end(
                input@,
                i as nat,
                radix as nat,
            ),
        decreases len - i,
    {
        i = i + 1;
    }
    proof {
        lemma_lit_run_end(input@, from as nat, radix as nat);
    }
    i
}

/// Scans past identifier characters: returns the first index at or after
/// `from` whose character cannot continue an identifier, or the end of the
/// input.
fn ident_run_end(input: &str, from: usize) -> (r: usize)
    requires
        from as nat <= input@.len(),
    ensures
        r as nat == spec_ident_run_end(input@, from as nat),
        from <= r,
        r as nat <= input@.len(),
{
    let len = input.unicode_len();
    let mut i = from;
    while i < len && char_is_ident(input.get_char(i))
        invariant
            from <= i,
            i as nat <= input@.len(),
            len as nat == input@.len(),
            spec_ident_run_end(input@, from as nat) == spec_ident_run_end(input@, i as nat),
        decreases len - i,
    {
        i = i + 1;
    }
    i
}

/// Whether the `move` keyword stands at index `i`: the four characters
/// `move`, followed by the end of the input or by a character that cannot
/// continue an identifier.
pub open spec fn has_move_kw(s: Seq<char>, i: nat) -> bool {
    &&& i + 4 <= s.len()
    &&& s.subrange(i as int, i as int + 4) == seq!['m', 'o', 'v', 'e']
    &&& (i + 4 == s.len() || !is_ident_char(s[i as int + 4]))
}

/// Exec test for `has_move_kw`.
fn move_kw_at(input: &str, i: usize) -> (r: bool)
    requires
        i as nat <= input@.len(),
    ensures
        r == has_move_kw(input@, i as nat),
{
    let len = input.unicode_len();
    if len - i < 4 {
        return false;
    }
    let c0 = input.get_char(i);
    let c1 = input.get_char(i + 1);
    let c2 = input.get_char(i + 2);
    let c3 = input.get_char(i + 3);
    if !(c0 == 'm' && c1 == 'o' && c2 == 'v' && c3 == 'e') {
        proof {
            if has_move_kw(input@, i as nat) {
                assert(input@.subrange(i as int, i as int + 4)[0] == 'm');
                assert(input@.subrange(i as int, i as int + 4)[1] == 'o');
                assert(input@.subrange(i as int, i as int + 4)[2] == 'v');
                assert(input@.subrange(i as int, i as int + 4)[3] == 'e');
            }
        }
        return false;
    }
    proof {
        assert(input@.subrange(i as int, i as int + 4) =~= seq!['m', 'o', 'v', 'e']);
    }
    if i + 4 == len {
        return true;
    }
    let c4 = input.get_char(i + 4);
    !char_is_ident(c4)
}

/// Reads the value of the integer-literal run `[from, to)` in the given
/// base.  The first result says whether the run holds any digit at all; a
/// `None` second result reports that the value does not fit in sixteen bits.
fn lit_run_value(input: &str, from: usize, to: usize, radix: u32) -> (r: (bool, Option<u16>))
    requires
        2 <= radix <= 16,
        from <= to,
        to as nat <= input@.len(),
        forall|k: int| from <= k < to ==> is_lit_char(input@[k], radix as nat),
    ensures
        r.0 == (spec_digit_count(input@.subrange(from as int, to as int), radix as nat) > 0),
        (match r.1 {
            Some(v) => v as nat == spec_lit_value(
                input@.subrange(from as int, to as int),
                radix as nat,
            ) && v as nat <= 0xffff,
            None => spec_lit_value(input@.subrange(from as int, to as int), radix as nat) > 0xffff,
        }),
{
    let mut k = from;
    let mut acc: u32 = 0;
    let mut over = false;
    let mut has = false;
    while k < to
        invariant
            2 <= radix <= 16,
            from <= k <= to,
            to as nat <= input@.len(),
            forall|t: int| from <= t < to ==> is_lit_char(input@[t], radix as nat),
            acc <= 0xffff,
            has == (spec_digit_count(input@.subrange(from as int, k as int), radix as nat) > 0),
            over <==> spec_lit_value(input@.subrange(from as int, k as int), radix as nat) > 0xffff,
            !over ==> acc as nat == spec_lit_value(
                input@.subrange(from as int, k as int),
                radix as nat,
            ),
        decreases to - k,
    {
        let c = input.get_char(k);
        proof {
            let pre = input@.subrange(from as int, k as int);
            let cur = input@.subrange(from as int, k as int + 1);
            assert(cur.drop_last() =~= pre);
            assert(cur.last() == input@[k as int]);
            assert(is_lit_char(input@[k as int], radix as nat));
        }
        if c != '_' {
            proof {
                assert(is_radix_digit(input@[k as int], radix as nat));
                assert(is_radix_digit(input@[k as int], 16));
                assert(radix_digit_val(input@[k as int]) < radix as nat);
            }
            let d = char_radix_val(c);
            has = true;
            if over {
                proof {
                    let pre = input@.subrange(from as int, k as int);
                    let cur = input@.subrange(from as int, k as int + 1);
                    let v: int = spec_lit_value(pre, radix as nat) as int;
                    assert(v * (radix as int) + radix_digit_val(cur.last()) > 0xffff)
                        by (nonlinear_arith)
                        requires
                            v > 0xffff,
                            radix >= 2,
                            radix_digit_val(cur.last()) >= 0,
                    ;
                }
            } else {
                proof {
                    assert((acc as int) * (radix as int) <= 0xffff * 16) by (nonlinear_arith)
                        requires
                            0 <= acc <= 0xffff,
                            0 <= radix <= 16,
                    ;
                }
                let next = acc * radix + d;
                if next > 0xffff {
                    over = true;
                } else {
                    acc = next;
                }
            }
        }
        k = k + 1;
    }
    proof {
        assert(input@.subrange(from as int, to as int) == input@.subrange(from as int, k as int));
    }
    (has, if over {
        None
    } else {
        Some(acc as u16)
    })
}

/// The base of the arity literal at index `i`: sixteen after `0x`, eight
/// after `0o`, two after `0b`, ten otherwise.
pub open spec fn spec_arity_radix(s: Seq<char>, i: nat) -> nat {
    if i + 2 <= s.len() && s[i as int] == '0' && s[i as int + 1] == 'x' {
        16
    } else if i + 2 <= s.len() && s[i as int] == '0' && s[i as int + 1] == 'o' {
        8
    } else if i + 2 <= s.len() && s[i as int] == '0' && s[i as int + 1] == 'b' {
        2
    } else {
        10
    }
}

/// Where the digits of the arity literal at index `i` begin: after the base
/// prefix if there is one, else at `i` itself.
pub open spec fn spec_arity_digits_start(s: Seq<char>, i: nat) -> nat {
    if spec_arity_radix(s, i) == 10 {
        i
    } else {
        i + 2
    }
}

/// Whether a float marker follows a decimal digit run ending at `j`: an `e`
/// or `E` that does not begin a longer literal suffix — either a bare
/// exponent marker (at the end of the input or before a character that
/// cannot continue an identifier) or an exponent with a sign, an underscore
/// or a digit after it.  Such a token is a float form, not an integer
/// literal.
pub open spec fn float_marker_follows(s: Seq<char>, j: nat) -> bool {
    &&& j < s.len()
    &&& (s[j as int] == 'e' || s[j as int] == 'E')
    &&& (j + 1 >= s.len() || s[j as int + 1] == '+' || s[j as int + 1] == '-' || s[j as int + 1]
        == '_' || is_digit(s[j as int + 1]) || !is_ident_char(s[j as int + 1]))
}

/// The grammar of one invocation, `[move] <arity literal> "=>" <body>`, as a
/// function from the input text to its parse: leading whitespace, then an
/// optional `move` keyword, then the arity — a Rust integer literal, decimal
/// or with a `0x`/`0o`/`0b` base prefix, with underscores ignored, whose
/// value must fit in sixteen bits; a literal suffix (a trailing identifier,
/// such as `u16`) is accepted and ignored, but a float form (a dot after the
/// digits, or a decimal digit run followed by an `e`/`E` that does not begin
/// a longer suffix), and a decimal digit right after a base-prefixed run,
/// are not integer literals — then `=>`, then the body, the rest of the
/// input with surrounding whitespace removed.  On a match the result carries
/// the model and the body's character offset; the body's own
/// well-formedness, which only the host expression parser can judge, is not
/// decided here.  The first failure wins, with the character offset of the
/// offending token.
pub open spec fn spec_parse(s: Seq<char>) -> Result<(SpecModel, nat), ParseError> {
    let i0 = spec_skip_ws(s, 0);
    let mv = has_move_kw(s, i0);
    let i1 = if mv {
        spec_skip_ws(s, i0 + 4)
    } else {
        i0
    };
    let r = spec_arity_radix(s, i1);
    let p = spec_arity_digits_start(s, i1);
    let j = spec_lit_run_end(s, p, r);
    let run = s.subrange(p as int, j as int);
    if r == 10 && (i1 >= s.len() || !is_digit(s[i1 as int])) {
        Err(ParseError::ExpectedIntegerLiteral { pos: i1 as usize })
    } else if spec_digit_count(run, r) == 0 {
        Err(ParseError::ExpectedIntegerLiteral { pos: i1 as usize })
    } else if j < s.len() && s[j as int] == '.' {
        Err(ParseError::ExpectedIntegerLiteral { pos: i1 as usize })
    } else if r == 10 && float_marker_follows(s, j) {
        Err(ParseError::ExpectedIntegerLiteral { pos: i1 as usize })
    } else if r != 10 && j < s.len() && is_digit(s[j as int]) {
        Err(ParseError::ExpectedIntegerLiteral { pos: i1 as usize })
    } else if spec_lit_value(run, r) > 0xffff {
        Err(ParseError::ArityOverflow { pos: i1 as usize })
    } else {
        let t = spec_ident_run_end(s, j);
        let k = spec_skip_ws(s, t);
        if !(k + 2 <= s.len() && s[k as int] == '=' && s[k as int + 1] == '>') {
            Err(ParseError::MissingSeparator { pos: k as usize })
        } else {
            let b = spec_skip_ws(s, k + 2);
            let body = spec_trim_end(s.subrange(b as int, s.len() as int));
            Ok(((SpecModel { is_move: mv, arity: spec_lit_value(run, r), body }), b))
        }
    }
}

/// Parses one invocation.  Everything before the body is decided exactly by
/// `spec_parse`: on an input whose head is malformed, the result is the
/// first error, with the character offset of the offending token.  When the
/// input matches the grammar, the result is either `Ok` with exactly the
/// parsed specification, or `MalformedBody` at the body's start — whichever
/// the host expression parser's verdict of the body gives at this call.
pub fn parse(input: &str) -> (r: Result<Specification, ParseError>)
    ensures
        (match spec_parse(input@) {
            Ok(mb) => (r matches Ok(sp) && sp@ == mb.0) || (r matches Err(err) && err
                == (ParseError::MalformedBody { pos: mb.1 as usize })),
            Err(e) => r matches Err(err) && err == e,
        }),
{
    let len = input.unicode_len();
    let i0 = skip_ws(input, 0);
    let mv = move_kw_at(input, i0);
    let i1 = if mv {
        skip_ws(input, i0 + 4)
    } else {
        i0
    };
    let mut radix: u32 = 10;
    let mut p: usize = i1;
    if i1 < len && i1 + 1 < len && input.get_char(i1) == '0' {
        let c1 = input.get_char(i1 + 1);
        if c1 == 'x' {
            radix = 16;
            p = i1 + 2;
        } else if c1 == 'o' {
            radix = 8;
            p = i1 + 2;
        } else if c1 == 'b' {
            radix = 2;
            p = i1 + 2;
        }
    }
    proof {
        assert(radix as nat == spec_arity_radix(input@, i1 as nat));
        assert(p as nat == spec_arity_digits_start(input@, i1 as nat));
    }
    if radix == 10 && (i1 == len || !char_is_digit(input.get_char(i1))) {
        return Err(ParseError::ExpectedIntegerLiteral { pos: i1 });
    }
    let j = lit_run_end(input, p, radix);
    let scan = lit_run_value(input, p, j, radix);
    if !scan.0 {
        return Err(ParseError::ExpectedIntegerLiteral { pos: i1 });
    }
    if j < len && input.get_char(j) == '.' {
        return Err(ParseError::ExpectedIntegerLiteral { pos: i1 });
    }
    if radix == 10 && j < len {
        let cj = input.get_char(j);
        if cj == 'e' || cj == 'E' {
            if j + 1 == len {
                return Err(ParseError::ExpectedIntegerLiteral { pos: i1 });
            }
            let cn = input.get_char(j + 1);
            if cn == '+' || cn == '-' || cn == '_' || char_is_digit(cn) || !char_is_ident(cn) {
                return Err(ParseError::ExpectedIntegerLiteral { pos: i1 });
            }
        }
    }
    if radix != 10 && j < len && char_is_digit(input.get_char(j)) {
        return Err(ParseError::ExpectedIntegerLiteral { pos: i1 });
    }
    let arity = match scan.1 {
        Some(v) => v,
        None => {
            return Err(ParseError::ArityOverflow { pos: i1 });
        },
    };
    let t = ident_run_end(input, j);
    let k2 = skip_ws(input, t);
    if !(k2 < len && k2 + 1 < len && input.get_char(k2) == '=' && input.get_char(k2 + 1) == '>') {
        return Err(ParseError::MissingSeparator { pos: k2 });
    }
    let b = skip_ws(input, k2 + 2);
    let mut e = len;
    while e > b && char_is_space(input.get_char(e - 1))
        invariant
            b <= e,
            e as nat <= input@.len(),
            len as nat == input@.len(),
            forall|t2: int| e <= t2 < input@.len() ==> is_space(input@[t2]),
        decreases e,
    {
        e = e - 1;
    }
    proof {
        let s = input@;
        let tail = s.subrange(b as int, s.len() as int);
        assert forall|u: int| e - b <= u < tail.len() implies is_space(tail[u]) by {
            assert(tail[u] == s[b + u]);
        }
        if e > b {
            assert(tail[e - b - 1] == s[e as int - 1]);
        }
        lemma_trim_end_prefix(tail, (e - b) as nat);
        assert(tail.subrange(0, e as int - b as int) =~= s.subrange(b as int, e as int));
    }
    let body_str = input.substring_char(b, e);
    if !parses_as_expr(body_str) {
        return Err(ParseError::MalformedBody { pos: b });
    }
    Ok(
        Specification {
            capture_mode: if mv {
                CaptureMode::ByMove
            } else {
                CaptureMode::ByReference
            },
            arity,
            body: body_str.to_owned(),
        },
    )
}

} // verus!
