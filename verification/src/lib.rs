//! Source-level generation of closures from a small declarative
//! specification.
//!
//! An invocation is the text `[move] <arity> => <body>`: an optional `move`
//! capture keyword, an arity, the separator `=>`, and a body expression that
//! is re-emitted verbatim.  The arity is a Rust integer literal — decimal or
//! with a `0x`/`0o`/`0b` base prefix, underscores ignored, a literal suffix
//! such as `u16` accepted and ignored — whose value must fit in sixteen
//! bits.  For arity `n` the generated closure's parameters are named `__1`,
//! ..., `__n`, in that order.  The grammar reads identifiers and whitespace
//! as their ASCII classes.

use vstd::prelude::*;

pub mod emit;
pub mod model;
pub mod names;
pub mod parse;
pub mod text;

verus! {

use crate::emit::{emit, spec_emit};
use crate::model::ParseError;
use crate::parse::{parse, spec_parse};

/// Expands one invocation: parses `[move] <arity> => <body>` and, on
/// success, returns the source text of the closure it denotes.  On a
/// malformed input it returns the first parse error, with the character
/// offset of the offending token, and produces no closure.
///
/// The body is source text: a body that ends in a line comment would swallow
/// the closing ` }` of the generated closure.  Through a token pipeline
/// comments never reach the generator; a caller handing it raw strings
/// should not end the body with one.
///
/// Everything before the body is decided exactly.  When the input matches
/// the grammar, the result is either `Ok` with exactly the emission of the
/// parsed specification, or `MalformedBody` at the body's start — whichever
/// the host expression parser's verdict of the body gives at this call.
pub fn lambda_n(input: &str) -> (r: Result<String, ParseError>)
    ensures
        (match spec_parse(input@) {
            Ok(mb) => (r matches Ok(out) && out@ == spec_emit(mb.0)) || (r matches Err(err) && err
                == (ParseError::MalformedBody { pos: mb.1 as usize })),
            Err(e) => r matches Err(err) && err == e,
        }),
{
    match parse(input) {
        Ok(sp) => Ok(emit(&sp)),
        Err(e) => Err(e),
    }
}

} // verus!
