use lambda_n::lambda_n;

#[test]
fn it_works() {
    let generated = lambda_n("3 => __1 + __2 + __3").unwrap();
    assert_eq!(generated, "{ |__1, __2, __3| __1 + __2 + __3 }");
    assert_eq!({ |__1, __2, __3| __1 + __2 + __3 }(1, 2, 3), 6);
}

/// A closure with no arguments (a "thunk").
#[test]
fn test_zero_args() {
    let generated = lambda_n("0 => 42").unwrap();
    assert_eq!(generated, "{ || 42 }");
    let get_42 = { || 42 };
    assert_eq!(get_42(), 42);
}

/// A closure with a single argument.
#[test]
fn test_single_arg() {
    let generated = lambda_n("1 => __1 * __1").unwrap();
    assert_eq!(generated, "{ |__1| __1 * __1 }");
    let square = { |__1| __1 * __1 };
    assert_eq!(square(8), 64);
}

/// The generated closure works with non-integer types like &str.
#[test]
fn test_different_types() {
    let generated = lambda_n("2 => format!(\"Hello, {} and {}!\", __1, __2)").unwrap();
    assert_eq!(generated, "{ |__1, __2| format!(\"Hello, {} and {}!\", __1, __2) }");
    let greet = { |__1, __2| format!("Hello, {} and {}!", __1, __2) };
    assert_eq!(greet("Alice", "Bob"), "Hello, Alice and Bob!");
}

/// The generated closure can capture variables from its environment.
#[test]
fn test_env_capture() {
    let generated = lambda_n("1 => format!(\"{}{}\", prefix, __1)").unwrap();
    assert_eq!(generated, "{ |__1| format!(\"{}{}\", prefix, __1) }");
    let prefix = "LOG: ";
    let logger = { |__1| format!("{}{}", prefix, __1) };
    assert_eq!(logger("File not found"), "LOG: File not found");
}

/// The generated closure can be stored in a variable with an explicit
/// function pointer type.
#[test]
fn test_storing_in_variable() {
    let generated = lambda_n("2 => __1 - __2").unwrap();
    assert_eq!(generated, "{ |__1, __2| __1 - __2 }");
    let subtract: fn(f64, f64) -> f64 = { |__1, __2| __1 - __2 };
    assert_eq!(subtract(10.5, 3.0), 7.5);
}

/// Nesting one generated closure inside the body of another makes a
/// higher-order function with independent captured state per outer call.
#[test]
fn test_nested_macro() {
    // The inner generation moves ownership of `multiplier`.
    let inner = lambda_n("move 1 => multiplier * __1").unwrap();
    assert_eq!(inner, "{ move |__1| multiplier * __1 }");
    let outer_input = format!("1 => {{ let multiplier = __1; {} }}", inner);
    let generated = lambda_n(&outer_input).unwrap();
    assert_eq!(
        generated,
        "{ |__1| { let multiplier = __1; { move |__1| multiplier * __1 } } }"
    );
    let make_multiplier = { |__1| { let multiplier = __1; { move |__1| multiplier * __1 } } };

    let times_10 = make_multiplier(10);
    assert_eq!(times_10(7), 70);

    let times_5 = make_multiplier(5);
    assert_eq!(times_5(4), 20);
}

/// A by-move generation takes ownership of the captured value; the closure
/// owns it afterwards.
#[test]
fn move_capture_takes_ownership() {
    let generated = lambda_n("move 1 => format!(\"{}{}\", prefix, __1)").unwrap();
    assert_eq!(generated, "{ move |__1| format!(\"{}{}\", prefix, __1) }");
    let prefix = String::from("LOG: ");
    let logger = { move |__1| format!("{}{}", prefix, __1) };
    assert_eq!(logger("moved"), "LOG: moved");
}

/// A by-reference generation only borrows: the enclosing scope keeps access
/// to the captured value beside the closure.
#[test]
fn reference_capture_leaves_value_usable() {
    let generated = lambda_n("1 => format!(\"{}{}\", prefix, __1)").unwrap();
    assert_eq!(generated, "{ |__1| format!(\"{}{}\", prefix, __1) }");
    let prefix = String::from("LOG: ");
    let logger = { |__1| format!("{}{}", prefix, __1) };
    assert_eq!(logger("borrowed"), "LOG: borrowed");
    assert_eq!(prefix, "LOG: ");
}

/// Placeholder names keep their positional order past one decimal digit.
#[test]
fn two_digit_arity_names() {
    let generated = lambda_n("11 => __10 + __11").unwrap();
    assert_eq!(
        generated,
        "{ |__1, __2, __3, __4, __5, __6, __7, __8, __9, __10, __11| __10 + __11 }"
    );
    let pick = { |__1, __2, __3, __4, __5, __6, __7, __8, __9, __10, __11| __10 + __11 };
    assert_eq!(pick(0, 0, 0, 0, 0, 0, 0, 0, 0, 10, 32), 42);
}

/// Whitespace around the tokens and after the body is not part of the body.
#[test]
fn surrounding_whitespace_is_trimmed() {
    let generated = lambda_n("  move  3  =>  __2  ").unwrap();
    assert_eq!(generated, "{ move |__1, __2, __3| __2 }");
}

/// A hexadecimal arity literal is read by its value.
#[test]
fn hex_arity() {
    let generated = lambda_n("0x10 => __16").unwrap();
    assert_eq!(
        generated,
        "{ |__1, __2, __3, __4, __5, __6, __7, __8, __9, __10, __11, __12, __13, __14, __15, __16| __16 }"
    );
}

/// Octal and binary arity literals are read by their value.
#[test]
fn octal_and_binary_arity() {
    let generated = lambda_n("0o7 => 0").unwrap();
    assert_eq!(generated, "{ |__1, __2, __3, __4, __5, __6, __7| 0 }");
    let generated = lambda_n("0b101 => 0").unwrap();
    assert_eq!(generated, "{ |__1, __2, __3, __4, __5| 0 }");
}

/// Underscores inside the arity literal are ignored.
#[test]
fn underscored_arity() {
    let generated = lambda_n("1_0 => __10").unwrap();
    assert_eq!(
        generated,
        "{ |__1, __2, __3, __4, __5, __6, __7, __8, __9, __10| __10 }"
    );
}

/// A literal suffix on the arity is accepted and ignored.
#[test]
fn suffixed_arity_is_ignored() {
    let generated = lambda_n("3u16 => __1 + __2 + __3").unwrap();
    assert_eq!(generated, "{ |__1, __2, __3| __1 + __2 + __3 }");
    let generated = lambda_n("3abc => __1 + __2 + __3").unwrap();
    assert_eq!(generated, "{ |__1, __2, __3| __1 + __2 + __3 }");
}

/// Only the lowercase prefixes name a base: after `0X` the digits are a
/// suffix of the decimal literal `0`.
#[test]
fn uppercase_base_prefix_is_a_suffix() {
    let generated = lambda_n("0X10 => 9").unwrap();
    assert_eq!(generated, "{ || 9 }");
}

/// The largest arity that fits is accepted.
#[test]
fn largest_arity_is_accepted() {
    let generated = lambda_n("65535 => 0").unwrap();
    assert!(generated.starts_with("{ |__1, "));
    assert!(generated.ends_with(", __65535| 0 }"));
}
