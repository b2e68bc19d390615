use vstd::prelude::*;
use vstd::string::StringExecFns;

use crate::model::{CaptureMode, SpecModel, Specification};
use crate::names::{lemma_param_name_chars, param_name, spec_param_name};
use crate::text::is_digit;

verus! {

/// The placeholder parameter names for arity `n`, in declared order: the
/// name at position `k` is the one for the `k + 1`-st parameter.
pub open spec fn spec_param_names(n: nat) -> Seq<Seq<char>> {
    Seq::new(n, |i: int| spec_param_name((i + 1) as nat))
}

/// A sequence of parts joined with a separator.
pub open spec fn spec_join(parts: Seq<Seq<char>>, sep: Seq<char>) -> Seq<char>
    decreases parts.len(),
{
    if parts.len() == 0 {
        Seq::empty()
    } else if parts.len() == 1 {
        parts[0]
    } else {
        spec_join(parts.drop_last(), sep) + sep + parts.last()
    }
}

/// The text of the parameter list for arity `n`: the placeholder names in
/// order, separated by `, `.
pub open spec fn spec_params_text(n: nat) -> Seq<char>
    decreases n,
{
    if n == 0 {
        Seq::empty()
    } else if n == 1 {
        spec_param_name(1)
    } else {
        spec_params_text((n - 1) as nat) + seq![',', ' '] + spec_param_name(n)
    }
}

/// What follows the capture clause in the emitted text: the parameter list
/// between bars, the body verbatim, and the closing brace.
pub open spec fn spec_closure_tail(arity: nat, body: Seq<char>) -> Seq<char> {
    seq!['|'] + spec_params_text(arity) + seq!['|', ' '] + body + seq![' ', '}']
}

/// The capture clause of the emitted text: `move ` for a by-move model,
/// nothing for a by-reference one.
pub open spec fn spec_capture_clause(is_move: bool) -> Seq<char> {
    if is_move {
        seq!['m', 'o', 'v', 'e', ' ']
    } else {
        Seq::empty()
    }
}

/// The full emitted closure text for a model:
/// `{ |__1, ..., __n| <body> }`, with `move ` before the first bar when the
/// model is by-move.
pub open spec fn spec_emit(m: SpecModel) -> Seq<char> {
    seq!['{', ' '] + spec_capture_clause(m.is_move) + spec_closure_tail(m.arity, m.body)
}

/// Builds the text of the parameter list for arity `n`.
fn params_text(n: u16) -> (r: String)
    ensures
        r@ == spec_params_text(n as nat),
{
    proof {
        reveal_strlit(", ");
        assert(", "@ =~= seq![',', ' ']);
    }
    let mut out = String::new();
    let count: usize = n as usize;
    let mut k: usize = 1;
    while k <= count
        invariant
            1 <= k <= count + 1,
            count == n as nat,
            out@ == spec_params_text((k - 1) as nat),
        decreases count + 1 - k,
    {
        if k > 1 {
            out.append(", ");
        }
        let name = param_name(k as u16);
        out.append(name.as_str());
        proof {
            reveal_strlit(", ");
            assert(", "@ =~= seq![',', ' ']);
            assert((k as u16) as nat == k as nat);
            if k == 1 {
                assert(out@ =~= spec_params_text(1));
            } else {
                assert(out@ =~= spec_params_text((k - 1) as nat) + seq![',', ' ']
                    + spec_param_name(k as nat));
            }
        }

        k = k + 1;
    }
    out
}

/// Emits the source text of the closure for a specification.  Emission is
/// total and deterministic: the output is exactly `spec_emit` of the
/// specification's model.
pub fn emit(sp: &Specification) -> (out: String)
    ensures
        out@ == spec_emit(sp@),
{
    proof {
        reveal_strlit("{ ");
        reveal_strlit("move ");
        reveal_strlit("|");
        reveal_strlit("| ");
        reveal_strlit(" }");
        assert("{ "@ =~= seq!['{', ' ']);
        assert("move "@ =~= seq!['m', 'o', 'v', 'e', ' ']);
        assert("|"@ =~= seq!['|']);
        assert("| "@ =~= seq!['|', ' ']);
        assert(" }"@ =~= seq![' ', '}']);
    }
    let mut out = "{ ".to_owned();
    if sp.capture_mode == CaptureMode::ByMove {
        out.append("move ");
    }
    out.append("|");
    let params = params_text(sp.arity);
    out.append(params.as_str());
    out.append("| ");
    out.append(sp.body.as_str());
    out.append(" }");
    proof {
        assert(out@ =~= spec_emit(sp@));
    }
    out
}

/// Law: the parameter list text is the positional name sequence
/// `__1, ..., __n` joined in order with `, `; in particular the `k`-th
/// parameter (1-based) bears the `k`-th placeholder name.
pub proof fn lemma_params_positional(n: nat)
    ensures
        spec_params_text(n) == spec_join(spec_param_names(n), seq![',', ' ']),
        forall|k: int| 1 <= k <= n ==> #[trigger] spec_param_names(n)[k - 1] == spec_param_name(
            k as nat,
        ),
    decreases n,
{
    if n == 0 {
        assert(spec_param_names(n).len() == 0);
    } else if n == 1 {
        assert(spec_param_names(1).len() == 1);
        assert(spec_param_names(1)[0] == spec_param_name(1));
    } else {
        lemma_params_positional((n - 1) as nat);
        assert(spec_param_names(n).drop_last() =~= spec_param_names((n - 1) as nat));
        assert(spec_param_names(n).last() == spec_param_name(n));
    }
}

/// Law: arity zero emits a thunk — the parameter list between the bars is
/// empty, and the body stands directly after them.
pub proof fn lemma_arity_zero_thunk(m: SpecModel)
    requires
        m.arity == 0,
    ensures
        spec_emit(m) == seq!['{', ' '] + spec_capture_clause(m.is_move) + seq!['|', '|', ' ']
            + m.body + seq![' ', '}'],
{
    assert(spec_emit(m) =~= seq!['{', ' '] + spec_capture_clause(m.is_move) + seq!['|', '|', ' ']
        + m.body + seq![' ', '}']);
}

/// Law: the capture mode is visible in the emission — a by-move model emits
/// `{ move ` before the closure tail, a by-reference model emits `{ ` before
/// the same tail, and the two emissions always differ.
pub proof fn lemma_capture_mode_emission(arity: nat, body: Seq<char>)
    ensures
        spec_emit((SpecModel { is_move: true, arity, body })) == seq!['{', ' ', 'm', 'o', 'v', 'e', ' ']
            + spec_closure_tail(arity, body),
        spec_emit((SpecModel { is_move: false, arity, body })) == seq!['{', ' ']
            + spec_closure_tail(arity, body),
        spec_emit((SpecModel { is_move: true, arity, body })) != spec_emit(
            (SpecModel { is_move: false, arity, body }),
        ),
{
    assert(spec_emit((SpecModel { is_move: true, arity, body })) =~= seq![
        '{',
        ' ',
        'm',
        'o',
        'v',
        'e',
        ' ',
    ] + spec_closure_tail(arity, body));
    assert(spec_emit((SpecModel { is_move: false, arity, body })) =~= seq!['{', ' ']
        + spec_closure_tail(arity, body));
    assert(spec_emit((SpecModel { is_move: true, arity, body })).len() == spec_emit(
        (SpecModel { is_move: false, arity, body }),
    ).len() + 5);
}

/// Law: the synthesized parameter list adds nothing of its own — every
/// character of it belongs to a placeholder name (an underscore or a digit)
/// or is a separator (a comma or a space); in particular it carries no type
/// annotation, so the closure constrains its arguments only as far as the
/// body does.
pub proof fn lemma_params_impose_nothing(n: nat)
    ensures
        forall|t: int|
            0 <= t < spec_params_text(n).len() ==> ((#[trigger] spec_params_text(n)[t]) == '_'
                || is_digit(spec_params_text(n)[t]) || spec_params_text(n)[t] == ','
                || spec_params_text(n)[t] == ' '),
    decreases n,
{
    if n == 1 {
        lemma_param_name_chars(1);
    } else if n > 1 {
        lemma_params_impose_nothing((n - 1) as nat);
        lemma_param_name_chars(n);
        let prev = spec_params_text((n - 1) as nat);
        let name = spec_param_name(n);
        assert forall|t: int| 0 <= t < spec_params_text(n).len() implies ((
        #[trigger] spec_params_text(n)[t]) == '_' || is_digit(spec_params_text(n)[t])
            || spec_params_text(n)[t] == ',' || spec_params_text(n)[t] == ' ') by {
            if t < prev.len() {
                assert(spec_params_text(n)[t] == prev[t]);
            } else if t < prev.len() + 2 {
                assert(spec_params_text(n)[t] == seq![',', ' '][t - prev.len()]);
            } else {
                assert(spec_params_text(n)[t] == name[t - prev.len() - 2]);
            }
        }
    }
}

/// Law: nested generation is safe by construction — when the body of one
/// generation is itself a generated closure, the inner text stands unchanged
/// inside the outer emission, after the outer parameter list.
pub proof fn lemma_nested_generation(outer: SpecModel, inner: SpecModel)
    requires
        outer.body == spec_emit(inner),
    ensures
        spec_emit(outer) == (seq!['{', ' '] + spec_capture_clause(outer.is_move) + seq!['|']
            + spec_params_text(outer.arity) + seq!['|', ' ']) + spec_emit(inner) + seq![' ', '}'],
{
    lemma_body_verbatim(outer);
}

/// Law: the body is spliced verbatim — the emitted text is a fixed prefix
/// (depending only on capture mode and arity), then the body unchanged, then
/// the closing ` }`.
pub proof fn lemma_body_verbatim(m: SpecModel)
    ensures
        spec_emit(m) == (seq!['{', ' '] + spec_capture_clause(m.is_move) + seq!['|']
            + spec_params_text(m.arity) + seq!['|', ' ']) + m.body + seq![' ', '}'],
{
    assert(spec_emit(m) =~= (seq!['{', ' '] + spec_capture_clause(m.is_move) + seq!['|']
        + spec_params_text(m.arity) + seq!['|', ' ']) + m.body + seq![' ', '}']);
}

} // verus!
