use lambda_n::lambda_n;
use lambda_n::model::ParseError;

/// An identifier in the arity position is rejected.
#[test]
fn non_integer_arity_identifier() {
    let err = lambda_n("add => __1").unwrap_err();
    assert_eq!(err, ParseError::ExpectedIntegerLiteral { pos: 0 });
    assert_eq!(err.message(), "expected an integer literal");
    assert_eq!(err.position(), 0);
}

/// A float in the arity position is rejected.
#[test]
fn non_integer_arity_float() {
    let err = lambda_n("1.5 => __1").unwrap_err();
    assert_eq!(err, ParseError::ExpectedIntegerLiteral { pos: 0 });
}

/// A string literal in the arity position is rejected.
#[test]
fn non_integer_arity_string() {
    let err = lambda_n("\"2\" => __1").unwrap_err();
    assert_eq!(err, ParseError::ExpectedIntegerLiteral { pos: 0 });
}

/// A decimal exponent makes the token a float, not an integer literal.
#[test]
fn non_integer_arity_float_exponent() {
    let err = lambda_n("3e5 => __1").unwrap_err();
    assert_eq!(err, ParseError::ExpectedIntegerLiteral { pos: 0 });
}

/// A bare exponent marker after the digits makes the token a malformed
/// float, not a suffixed integer.
#[test]
fn bare_exponent_marker() {
    let err = lambda_n("1e => __1").unwrap_err();
    assert_eq!(err, ParseError::ExpectedIntegerLiteral { pos: 0 });
    let err = lambda_n("1e").unwrap_err();
    assert_eq!(err, ParseError::ExpectedIntegerLiteral { pos: 0 });
}

/// A decimal digit that is no digit of the base ends no literal: the token
/// is malformed, not suffixed.
#[test]
fn invalid_digit_for_base() {
    let err = lambda_n("0b123 => __1").unwrap_err();
    assert_eq!(err, ParseError::ExpectedIntegerLiteral { pos: 0 });
    let err = lambda_n("0o78 => 0").unwrap_err();
    assert_eq!(err, ParseError::ExpectedIntegerLiteral { pos: 0 });
}

/// A base prefix with no digits after it is not an integer literal.
#[test]
fn empty_hex_literal() {
    let err = lambda_n("0x => __1").unwrap_err();
    assert_eq!(err, ParseError::ExpectedIntegerLiteral { pos: 0 });
}

/// A leading underscore starts an identifier, not a literal.
#[test]
fn underscore_is_not_a_literal() {
    let err = lambda_n("_1 => __1").unwrap_err();
    assert_eq!(err, ParseError::ExpectedIntegerLiteral { pos: 0 });
}

/// Overflow is detected in any base.
#[test]
fn hex_arity_overflow() {
    let err = lambda_n("0x10000 => 0").unwrap_err();
    assert_eq!(err, ParseError::ArityOverflow { pos: 0 });
}

/// An identifier that merely starts with `move` is not the capture keyword.
#[test]
fn move_prefixed_identifier_is_not_the_keyword() {
    let err = lambda_n("moved => __1").unwrap_err();
    assert_eq!(err, ParseError::ExpectedIntegerLiteral { pos: 0 });
}

/// An empty input has nothing in the arity position.
#[test]
fn empty_input() {
    let err = lambda_n("").unwrap_err();
    assert_eq!(err, ParseError::ExpectedIntegerLiteral { pos: 0 });
}

/// The position of the offending token accounts for what was consumed.
#[test]
fn error_position_after_move() {
    let err = lambda_n("move x => __1").unwrap_err();
    assert_eq!(err, ParseError::ExpectedIntegerLiteral { pos: 5 });
}

/// An arity just past the sixteen-bit range is rejected as overflow.
#[test]
fn arity_overflow() {
    let err = lambda_n("65536 => 0").unwrap_err();
    assert_eq!(err, ParseError::ArityOverflow { pos: 0 });
    assert_eq!(err.message(), "arity does not fit in a 16-bit integer");
}

/// A much larger arity is rejected the same way.
#[test]
fn arity_overflow_large() {
    let err = lambda_n("70000 => 0").unwrap_err();
    assert_eq!(err, ParseError::ArityOverflow { pos: 0 });
}

/// Leading zeros do not change the value.
#[test]
fn leading_zeros_do_not_overflow() {
    let generated = lambda_n("0002 => __1 + __2").unwrap();
    assert_eq!(generated, "{ |__1, __2| __1 + __2 }");
}

/// A missing separator is reported where the separator should stand.
#[test]
fn missing_separator() {
    let err = lambda_n("3 __1").unwrap_err();
    assert_eq!(err, ParseError::MissingSeparator { pos: 2 });
    assert_eq!(err.message(), "expected `=>` between the arity and the body");
}

/// Input that ends after the arity misses the separator too.
#[test]
fn missing_separator_at_end() {
    let err = lambda_n("2").unwrap_err();
    assert_eq!(err, ParseError::MissingSeparator { pos: 1 });
}

/// The two separator characters must be adjacent.
#[test]
fn split_separator_is_rejected() {
    let err = lambda_n("2 = > __1").unwrap_err();
    assert_eq!(err, ParseError::MissingSeparator { pos: 2 });
}

/// An empty body is not an expression.
#[test]
fn empty_body() {
    let err = lambda_n("2 =>").unwrap_err();
    assert_eq!(err, ParseError::MalformedBody { pos: 4 });
    assert_eq!(err.message(), "expected an expression as the body");
}

/// An incomplete expression is rejected with the body's position.
#[test]
fn incomplete_body() {
    let err = lambda_n("2 => __1 +").unwrap_err();
    assert_eq!(err, ParseError::MalformedBody { pos: 5 });
}

/// Unbalanced delimiters in the body are rejected.
#[test]
fn unbalanced_body() {
    let err = lambda_n("1 => (__1").unwrap_err();
    assert_eq!(err, ParseError::MalformedBody { pos: 5 });
}

/// Two expressions in a row are not a single body expression.
#[test]
fn trailing_tokens_after_body() {
    let err = lambda_n("1 => __1 __1").unwrap_err();
    assert_eq!(err, ParseError::MalformedBody { pos: 5 });
}
