use x_syntax::cstream::CStream;
use x_syntax::scanner::{tokenize, Scanner};
use x_syntax::token::TokenType::{FloatConstant, Identifier, IntConstant, Keyword, Operator};
use x_syntax::token::{Token, TokenType};

fn kinds_and_texts(src: &str) -> Vec<(TokenType, String)> {
    tokenize(src).into_iter().map(|t| (t.token_type, t.text)).collect()
}

#[test]
fn float_constant_is_one_token() {
    assert_eq!(kinds_and_texts("3.14"), vec![(TokenType::FloatConstant, "3.14".to_string())]);
}

#[test]
fn two_dots_is_invalid() {
    assert_eq!(kinds_and_texts("3.1.4"), vec![(TokenType::Invalid, "3.1.4".to_string())]);
}

#[test]
fn digits_are_int_constant() {
    assert_eq!(kinds_and_texts("42"), vec![(TokenType::IntConstant, "42".to_string())]);
}

#[test]
fn underscore_name_is_identifier() {
    assert_eq!(kinds_and_texts("_foo9"), vec![(TokenType::Identifier, "_foo9".to_string())]);
}

#[test]
fn less_equal_is_one_operator() {
    assert_eq!(kinds_and_texts("<="), vec![(TokenType::Operator, "<=".to_string())]);
}

#[test]
fn operator_stops_before_letters() {
    assert_eq!(
        kinds_and_texts("<=x"),
        vec![
            (TokenType::Operator, "<=".to_string()),
            (TokenType::Identifier, "x".to_string()),
        ]
    );
}

#[test]
fn identifier_stops_at_operator() {
    assert_eq!(
        kinds_and_texts("x<y"),
        vec![
            (TokenType::Identifier, "x".to_string()),
            (TokenType::Operator, "<".to_string()),
            (TokenType::Identifier, "y".to_string()),
        ]
    );
}

#[test]
fn adjacent_operators_split_unless_they_form_one() {
    assert_eq!(
        kinds_and_texts("();!=<>=="),
        vec![
            (TokenType::Operator, "(".to_string()),
            (TokenType::Operator, ")".to_string()),
            (TokenType::Operator, ";".to_string()),
            (TokenType::Operator, "!=".to_string()),
            (TokenType::Operator, "<".to_string()),
            (TokenType::Operator, ">=".to_string()),
            (TokenType::Operator, "=".to_string()),
        ]
    );
}

#[test]
fn operator_start_takes_other_characters() {
    assert_eq!(
        kinds_and_texts("!#"),
        vec![(TokenType::Invalid, "!#".to_string())]
    );
}

const EXAMPLE1: &str = "\nfloat Foo(int val);\n\nvoid main(){\n    float Value;\n\n    Value = Foo(7);\n}\n\nfloat Foo(int val){\n    float TestFloat = 1.4;\n\n    while(val > 0){\n        TestFloat = TestFloat * TestFloat;\n        val = val - 1;\n    }\n    return TestFloat;\n}\n";

#[test]
fn example_program_tokens() {
    let expected: Vec<(TokenType, &str, i32, i32)> = vec![
        (Keyword, "float", 1, 0), (Identifier, "Foo", 1, 6), (Operator, "(", 1, 9),
        (Keyword, "int", 1, 10), (Identifier, "val", 1, 14), (Operator, ")", 1, 17),
        (Operator, ";", 1, 18), (Keyword, "void", 3, 0), (Keyword, "main", 3, 5),
        (Operator, "(", 3, 9), (Operator, ")", 3, 10), (Operator, "{", 3, 11),
        (Keyword, "float", 4, 4), (Identifier, "Value", 4, 10), (Operator, ";", 4, 15),
        (Identifier, "Value", 6, 4), (Operator, "=", 6, 10), (Identifier, "Foo", 6, 12),
        (Operator, "(", 6, 15), (IntConstant, "7", 6, 16), (Operator, ")", 6, 17),
        (Operator, ";", 6, 18), (Operator, "}", 7, 0), (Keyword, "float", 9, 0),
        (Identifier, "Foo", 9, 6), (Operator, "(", 9, 9), (Keyword, "int", 9, 10),
        (Identifier, "val", 9, 14), (Operator, ")", 9, 17), (Operator, "{", 9, 18),
        (Keyword, "float", 10, 4), (Identifier, "TestFloat", 10, 10), (Operator, "=", 10, 20),
        (FloatConstant, "1.4", 10, 22), (Operator, ";", 10, 25), (Keyword, "while", 12, 4),
        (Operator, "(", 12, 9), (Identifier, "val", 12, 10), (Operator, ">", 12, 14),
        (IntConstant, "0", 12, 16), (Operator, ")", 12, 17), (Operator, "{", 12, 18),
        (Identifier, "TestFloat", 13, 8), (Operator, "=", 13, 18), (Identifier, "TestFloat", 13, 20),
        (Operator, "*", 13, 30), (Identifier, "TestFloat", 13, 32), (Operator, ";", 13, 41),
        (Identifier, "val", 14, 8), (Operator, "=", 14, 12), (Identifier, "val", 14, 14),
        (Operator, "-", 14, 18), (IntConstant, "1", 14, 20), (Operator, ";", 14, 21),
        (Operator, "}", 15, 4), (Keyword, "return", 16, 4), (Identifier, "TestFloat", 16, 11),
        (Operator, ";", 16, 20), (Operator, "}", 17, 0),
    ];
    let mut sc = Scanner::new(EXAMPLE1);
    sc.run();
    let actual: Vec<(TokenType, &str, i32, i32)> = sc
        .all_tokens
        .iter()
        .map(|t| (t.token_type, t.text.as_str(), t.line_num, t.char_pos))
        .collect();
    assert_eq!(actual, expected);
}

#[test]
fn keywords_outrank_identifiers() {
    assert_eq!(
        kinds_and_texts("int integer while"),
        vec![
            (TokenType::Keyword, "int".to_string()),
            (TokenType::Identifier, "integer".to_string()),
            (TokenType::Keyword, "while".to_string()),
        ]
    );
}

#[test]
fn leading_dot_float_and_bare_dot() {
    assert_eq!(
        kinds_and_texts(".5 ."),
        vec![
            (TokenType::FloatConstant, ".5".to_string()),
            (TokenType::FloatConstant, ".".to_string()),
        ]
    );
}

#[test]
fn unknown_character_is_invalid() {
    assert_eq!(kinds_and_texts("#"), vec![(TokenType::Invalid, "#".to_string())]);
}

#[test]
fn empty_and_blank_text_have_no_tokens() {
    assert!(tokenize("").is_empty());
    assert!(tokenize("  \n\t \n").is_empty());
}

#[test]
fn positions_are_line_and_column_of_first_character() {
    let toks = tokenize("int x;\n  y = 10 ;\n\nvoid");
    let pos: Vec<(String, i32, i32)> =
        toks.iter().map(|t| (t.text.clone(), t.line_num, t.char_pos)).collect();
    assert_eq!(
        pos,
        vec![
            ("int".to_string(), 0, 0),
            ("x".to_string(), 0, 4),
            (";".to_string(), 0, 5),
            ("y".to_string(), 1, 2),
            ("=".to_string(), 1, 4),
            ("10".to_string(), 1, 6),
            (";".to_string(), 1, 9),
            ("void".to_string(), 3, 0),
        ]
    );
    for w in toks.windows(2) {
        assert!((w[0].line_num, w[0].char_pos) < (w[1].line_num, w[1].char_pos));
    }
}

#[test]
fn lexing_twice_gives_the_same_tokens() {
    let src = "void main ( ) { x = 3.5 * y ; }";
    let a: Vec<(TokenType, String, i32, i32)> =
        tokenize(src).into_iter().map(|t| (t.token_type, t.text, t.line_num, t.char_pos)).collect();
    let b: Vec<(TokenType, String, i32, i32)> =
        tokenize(src).into_iter().map(|t| (t.token_type, t.text, t.line_num, t.char_pos)).collect();
    assert_eq!(a, b);
}

#[test]
fn scanner_logs_what_it_returns() {
    let mut sc = Scanner::new("a + 1");
    let first = sc.next_token().unwrap();
    assert_eq!((first.token_type, first.text.as_str()), (TokenType::Identifier, "a"));
    let second = sc.next_token().unwrap();
    assert_eq!((second.token_type, second.text.as_str(), second.char_pos), (TokenType::Operator, "+", 2));
    sc.run();
    assert!(sc.next_token().is_none());
    let logged: Vec<&str> = sc.all_tokens.iter().map(|t| t.text.as_str()).collect();
    assert_eq!(logged, vec!["a", "+", "1"]);
}

#[test]
fn token_new_keeps_its_parts() {
    let t = Token::new(TokenType::Keyword, "void", 3, 7);
    assert_eq!((t.token_type, t.text.as_str(), t.line_num, t.char_pos), (TokenType::Keyword, "void", 3, 7));
}

#[test]
fn cstream_reads_and_peeks() {
    let mut t = CStream::new("ab\ncd");
    assert!(t.more_available());
    assert_eq!(t.peek_next_char(), 'a');
    assert_eq!(t.peek_ahead_char(4), 'c');
    assert_eq!(t.get_next_char(), 'a');
    assert_eq!((t.line_num, t.char_pos), (0, 0));
    assert_eq!(t.get_next_char(), 'b');
    assert_eq!(t.get_cur_char(), 'b');
    assert_eq!(t.peek_ahead_char(0), 'b');
    t.locate_ahead_char(2);
    assert_eq!(t.get_cur_char(), 'c');
    assert_eq!((t.current_line(), t.current_column()), (1, 0));
    assert_eq!(t.get_next_char(), 'd');
    assert_eq!((t.line_num, t.char_pos), (1, 1));
    assert!(!t.more_available());
}
