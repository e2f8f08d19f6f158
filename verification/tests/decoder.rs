//! Tests of the argument decoder: grammar enforcement, typed coercion,
//! counting, and the entry-point driver helpers.

use fancy_ip::arg_parser::{ArgParser, ErrorKind};
use fancy_ip::driver::{apply_override, decode_required_string, expect_exhausted, TopError};
use fancy_ip::token::{LiteralType, LiteralValue, Location, Token};

fn loc(id: usize) -> Location {
    Location { id }
}

fn lit(text: &str, id: usize) -> Token {
    Token::from_literal_text(text.to_string(), loc(id)).expect("valid literal text")
}

fn comma(id: usize) -> Token {
    Token::punct(',', ",".to_string(), loc(id))
}

#[test]
fn empty_stream_returns_none() {
    let mut parser = ArgParser::new(Vec::new());
    let first = parser.next_raw();
    assert!(matches!(first, Ok(None)));
    let second = parser.next_raw();
    assert!(matches!(second, Ok(None)));
    assert_eq!(parser.parsed_so_far(), 0);
}

#[test]
fn single_string_no_trailing_comma() {
    let mut parser = ArgParser::new(vec![lit("\"192.168.1.5\"", 0)]);
    let arg = parser.next_string().expect("grammar ok").expect("one argument");
    assert_eq!(arg.0, "192.168.1.5");
    assert_eq!(arg.1, loc(0));
    let extra = parser.ignore_next().expect("grammar ok");
    assert!(extra.is_none());
    assert_eq!(parser.parsed_so_far(), 1);
}

#[test]
fn socketv6_style_three_arguments() {
    let tokens = vec![
        lit("\"[::1]:3000\"", 0),
        comma(1),
        lit("58", 2),
        comma(3),
        lit("30", 4),
    ];
    let mut parser = ArgParser::new(tokens);
    let addr = parser.next_string().expect("grammar ok").expect("address");
    assert_eq!(addr.0, "[::1]:3000");
    let flow: (u32, Location) = parser.next_integer().expect("grammar ok").expect("flow info");
    assert_eq!(flow.0, 58);
    let scope: (u32, Location) = parser.next_integer().expect("grammar ok").expect("scope id");
    assert_eq!(scope.0, 30);
    let extra = parser.ignore_next().expect("grammar ok");
    assert!(extra.is_none());
    assert_eq!(parser.parsed_so_far(), 3);
}

#[test]
fn integer_where_string_required() {
    let mut parser = ArgParser::new(vec![lit("42", 0)]);
    let err = parser.next_string().expect_err("wrong kind");
    assert_eq!(
        err.kind,
        ErrorKind::BadType { given: LiteralType::Integer, expected: LiteralType::String }
    );
    assert_eq!(err.span(), loc(0));
    assert_eq!(
        err.message(),
        "Unexpected type: given `int`, expected `str`\n"
    );
}

#[test]
fn string_where_integer_required() {
    let mut parser = ArgParser::new(vec![lit("\"58\"", 0)]);
    let err = parser
        .next_integer::<u32>()
        .expect_err("wrong kind");
    assert_eq!(
        err.kind,
        ErrorKind::BadType { given: LiteralType::String, expected: LiteralType::Integer }
    );
    assert_eq!(err.span(), loc(0));
}

#[test]
fn adjacent_literals_error_is_at_second() {
    let mut parser = ArgParser::new(vec![lit("\"a\"", 0), lit("\"b\"", 1)]);
    let err = parser.next_string().expect_err("missing separator");
    assert_eq!(err.kind, ErrorKind::UnexpectedToken("\"b\"".to_string()));
    assert_eq!(err.span(), loc(1));
}

#[test]
fn wrong_separator_is_an_error() {
    let semi = Token::punct(';', ";".to_string(), loc(1));
    let mut parser = ArgParser::new(vec![lit("1", 0), semi, lit("2", 2)]);
    let err = parser.next_raw().expect_err("bad separator");
    assert_eq!(err.kind, ErrorKind::UnexpectedToken(";".to_string()));
    assert_eq!(err.span(), loc(1));
    assert_eq!(err.message(), "Unexpected token `;`\n");
}

#[test]
fn non_literal_argument_is_an_error() {
    let ident = Token::other("x".to_string(), loc(0));
    let mut parser = ArgParser::new(vec![ident, lit("1", 1)]);
    let err = parser.next_raw().expect_err("not a literal");
    assert_eq!(err.kind, ErrorKind::UnexpectedToken("x".to_string()));
    assert_eq!(err.span(), loc(0));
}

#[test]
fn u32_overflow_is_out_of_bound() {
    let mut parser = ArgParser::new(vec![lit("4294967296", 0)]);
    let err = parser
        .next_integer::<u32>()
        .expect_err("does not fit u32");
    assert_eq!(err.kind, ErrorKind::OutOfBound);
    assert_eq!(err.span(), loc(0));
    assert_eq!(
        err.message(),
        "The integer value is out of bounds for the required type\n"
    );
}

#[test]
fn u32_boundary_fits() {
    let mut parser = ArgParser::new(vec![lit("4294967295", 0)]);
    let value: (u32, Location) = parser.next_integer().expect("grammar ok").expect("fits");
    assert_eq!(value.0, u32::MAX);
}

#[test]
fn u8_bounds() {
    let mut parser = ArgParser::new(vec![lit("255", 0), comma(1), lit("256", 2)]);
    let fits: (u8, Location) = parser.next_integer().expect("grammar ok").expect("fits");
    assert_eq!(fits.0, 255);
    let err = parser.next_integer::<u8>().expect_err("does not fit u8");
    assert_eq!(err.kind, ErrorKind::OutOfBound);
}

#[test]
fn i8_bounds() {
    let mut parser = ArgParser::new(vec![lit("127", 0), comma(1), lit("128", 2)]);
    let fits: (i8, Location) = parser.next_integer().expect("grammar ok").expect("fits");
    assert_eq!(fits.0, 127);
    let err = parser.next_integer::<i8>().expect_err("does not fit i8");
    assert_eq!(err.kind, ErrorKind::OutOfBound);
}

#[test]
fn u128_holds_the_largest_literal() {
    let mut parser =
        ArgParser::new(vec![lit("340282366920938463463374607431768211455", 0)]);
    let value: (u128, Location) = parser.next_integer().expect("grammar ok").expect("fits");
    assert_eq!(value.0, u128::MAX);
}

#[test]
fn oversized_literal_is_out_of_bound_for_every_type() {
    let mut parser =
        ArgParser::new(vec![lit("340282366920938463463374607431768211456", 0)]);
    let err = parser
        .next_integer::<u128>()
        .expect_err("beyond u128");
    assert_eq!(err.kind, ErrorKind::OutOfBound);
}

#[test]
fn well_formed_list_decodes_each_argument() {
    let tokens = vec![lit("1", 0), comma(1), lit("2", 2), comma(3), lit("3", 4)];
    let mut parser = ArgParser::new(tokens.clone());
    for _ in 0..3 {
        let step = parser.next_raw().expect("grammar ok");
        assert!(step.is_some());
    }
    assert!(matches!(parser.next_raw(), Ok(None)));
    assert_eq!(parser.parsed_so_far(), 3);

    let mut fresh = ArgParser::new(tokens);
    assert_eq!(fresh.count_arguments(), 3);
}

#[test]
fn count_arguments_is_idempotent() {
    let tokens = vec![lit("1", 0), comma(1), lit("\"x\"", 2), comma(3), lit("true", 4)];
    let mut parser = ArgParser::new(tokens);
    let first = parser.count_arguments();
    let second = parser.count_arguments();
    assert_eq!(first, 3);
    assert_eq!(second, first);
}

#[test]
fn count_arguments_skips_grammar_errors() {
    let ident = Token::other("x".to_string(), loc(0));
    let mut parser = ArgParser::new(vec![ident, lit("1", 1)]);
    assert_eq!(parser.count_arguments(), 1);
}

#[test]
fn ignore_next_returns_the_location() {
    let mut parser = ArgParser::new(vec![lit("'c'", 5)]);
    let skipped = parser.ignore_next().expect("grammar ok");
    assert_eq!(skipped, Some(loc(5)));
    assert!(parser.ignore_next().expect("grammar ok").is_none());
}

#[test]
fn too_few_arguments() {
    let mut parser = ArgParser::new(Vec::new());
    let err = decode_required_string(&mut parser, 1).expect_err("nothing given");
    match &err {
        TopError::TooFewArguments { given, expected } => {
            assert_eq!(*given, 0);
            assert_eq!(*expected, 1);
        },
        other => panic!("unexpected error: {:?}", other),
    }
    assert_eq!(err.message(), "Too few argument: Given 0, expected 1");
    assert!(err.span().is_none());
}

#[test]
fn too_many_arguments() {
    let tokens = vec![lit("\"a\"", 0), comma(1), lit("5", 2)];
    let mut parser = ArgParser::new(tokens);
    let first = decode_required_string(&mut parser, 1).expect("first argument");
    assert_eq!(first.0, "a");
    let err = expect_exhausted(&mut parser, 1).expect_err("one too many");
    match &err {
        TopError::TooManyArguments { span, given, expected } => {
            assert_eq!(*span, loc(2));
            assert_eq!(*given, 2);
            assert_eq!(*expected, 1);
        },
        other => panic!("unexpected error: {:?}", other),
    }
    assert_eq!(err.message(), "Too many arguments: Given 2, expected 1");
    assert_eq!(err.span(), Some(loc(2)));
}

#[test]
fn expect_exhausted_forwards_decode_errors() {
    let ident = Token::other("x".to_string(), loc(0));
    let mut parser = ArgParser::new(vec![ident]);
    let err = expect_exhausted(&mut parser, 1).expect_err("grammar error");
    match err {
        TopError::Decode(e) => {
            assert_eq!(e.kind, ErrorKind::UnexpectedToken("x".to_string()));
            assert_eq!(e.span(), loc(0));
        },
        other => panic!("unexpected error: {:?}", other),
    }
}

#[test]
fn decode_required_string_forwards_bad_type() {
    let mut parser = ArgParser::new(vec![lit("42", 0)]);
    let err = decode_required_string(&mut parser, 1).expect_err("wrong kind");
    match err {
        TopError::Decode(e) => {
            assert_eq!(
                e.kind,
                ErrorKind::BadType { given: LiteralType::Integer, expected: LiteralType::String }
            );
        },
        other => panic!("unexpected error: {:?}", other),
    }
}

#[test]
fn optional_argument_overrides_the_base_value() {
    assert_eq!(apply_override(7, None), 7);
    assert_eq!(apply_override(7, Some(58)), 58);
}

#[test]
fn failure_does_not_roll_back() {
    // After the missing-separator error the decoder stands past the
    // offending token: the remaining "2" is decodable.
    let mut parser = ArgParser::new(vec![lit("1", 0), lit("2", 1), lit("3", 2)]);
    let err = parser.next_raw().expect_err("missing separator");
    assert_eq!(err.span(), loc(1));
    let next = parser.next_raw().expect("grammar ok").expect("a value");
    assert_eq!(next.1, loc(2));
}
