use x_syntax::parser::{Parser, SyntaxError};
use x_syntax::scanner::tokenize;

const OK: &str = "Input program is syntactically correct.";

#[test]
fn minimal_main_is_accepted() {
    assert_eq!(Parser::new("void main ( ) { }").run(), OK);
}

#[test]
fn declaration_without_main_is_rejected() {
    // The declaration is consumed by `{Declaration}`; `void` is then missing past the end,
    // which is reported at the last token.
    let report = Parser::new("int x ;").run();
    assert!(report.ends_with("The syntax should be: MainDeclaration := void main ( ) Block."));
    assert_eq!(
        report,
        "Error at Line 0 Character 6. The syntax should be: MainDeclaration := void main ( ) Block."
    );
}

#[test]
fn non_declaration_before_main_is_reported_at_first_token() {
    assert_eq!(
        Parser::new("x ;").run(),
        "Error at Line 0 Character 0. The syntax should be: MainDeclaration := void main ( ) Block."
    );
}

#[test]
fn example_program_is_accepted() {
    let src = "\nfloat Foo(int val);\n\nvoid main(){\n    float Value;\n\n    Value = Foo(7);\n}\n\nfloat Foo(int val){\n    float TestFloat = 1.4;\n\n    while(val > 0){\n        TestFloat = TestFloat * TestFloat;\n        val = val - 1;\n    }\n    return TestFloat;\n}\n";
    assert_eq!(Parser::new(src).run(), OK);
}

#[test]
fn full_program_is_accepted() {
    let src = "int x = 5 ;\nfloat f ( int a , double b ) ;\nvoid main ( ) {\n  int y ;\n  y = x = f ( 1 , 2.5 ) + 3 * ( x - 1 ) ;\n  while ( y < 10 ) { y = y + 1 ; }\n  if ( y == 10 ) { return y ; }\n  g ( ) ;\n}\nint g ( ) { return 0 ; }";
    assert_eq!(Parser::new(src).run(), OK);
}

#[test]
fn missing_close_brace_reports_block() {
    assert_eq!(
        Parser::new("void main ( ) { int x ;").run(),
        "Error at Line 0 Character 22. The syntax should be: Block := { {Declaration} {Statement} {FunctionDefinition} }."
    );
}

#[test]
fn bad_statement_inside_main_reports_block() {
    assert_eq!(
        Parser::new("void main ( ) {\n  x = ;\n}").run(),
        "Error at Line 1 Character 2. The syntax should be: Block := { {Declaration} {Statement} {FunctionDefinition} }."
    );
}

#[test]
fn empty_input_reports_at_origin() {
    assert_eq!(
        Parser::new("").run(),
        "Error at Line 0 Character 0. The syntax should be: MainDeclaration := void main ( ) Block."
    );
}

#[test]
fn failure_past_the_end_uses_last_token() {
    assert_eq!(
        Parser::new("void main (").run(),
        "Error at Line 0 Character 10. The syntax should be: MainDeclaration := void main ( ) Block."
    );
}

#[test]
fn parsing_twice_gives_the_same_report() {
    let src = "void main ( ) { x = 1 ; }";
    assert_eq!(Parser::new(src).run(), Parser::new(src).run());
    let bad = "void main ( ) { x = }";
    assert_eq!(Parser::new(bad).run(), Parser::new(bad).run());
}

#[test]
fn failed_alternatives_leave_the_cursor() {
    // `x = ;` matches the start of an assignment, then every alternative fails.
    let mut p = Parser::from_tokens(tokenize("x = ; y"));
    assert!(p.syntax_statement().is_err());
    assert_eq!(p.cursor(), 0);
    // `x ( 1 ,` matches the start of a call suffix, which then gives way.
    let mut q = Parser::from_tokens(tokenize("x ( 1 , ;"));
    assert!(q.syntax_factor().is_ok());
    assert_eq!(q.cursor(), 1);
}

#[test]
fn unmatched_repetition_consumes_nothing() {
    let mut p = Parser::from_tokens(tokenize("void main"));
    p.repeat_declarations();
    assert_eq!(p.cursor(), 0);
    p.repeat_statements();
    assert_eq!(p.cursor(), 0);
    let mut q = Parser::from_tokens(tokenize("a + * b"));
    assert!(q.syntax_simple_expression().is_ok());
    assert_eq!(q.cursor(), 1);
}

#[test]
fn terminals_and_operators() {
    let mut p = Parser::from_tokens(tokenize("<= unsigned long double"));
    assert!(p.syntax_relation_operator().is_ok());
    assert!(p.syntax_integer_type().is_ok());
    assert!(p.syntax_data_type().is_ok());
    assert_eq!(p.cursor(), 4);
    let mut q = Parser::from_tokens(tokenize("unsigned x"));
    let e = q.syntax_integer_type().err().unwrap();
    assert_eq!((e.line_num, e.char_pos), (0, 9));
    assert_eq!(q.cursor(), 0);
}

#[test]
fn error_message_format() {
    let e = SyntaxError { line_num: 12, char_pos: -3, ebnf: "A := b".to_string() };
    assert_eq!(e.message(), "Error at Line 12 Character -3. The syntax should be: A := b.");
}
