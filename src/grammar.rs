//! The grammar of the X language as functions on token sequences.
//!
//! Each rule maps a token sequence and a start index to the index after the text it
//! matches, or to the syntax error it reports. Ordered choice, optional parts and
//! repetitions follow the backtracking discipline: a failed attempt consumes nothing.
use vstd::prelude::*;

use crate::token::{TokenType, TokenView};

verus! {

/// Mathematical view of a syntax error.
pub struct ErrView {
    pub line: int,
    pub col: int,
    pub ebnf: Seq<char>,
}

/// Result of a rule: the index after the matched text, or an error.
pub type PRes = Result<int, ErrView>;

/// The error reported at index `i`: at that token, or at the last one past the end.
pub open spec fn err_at(t: Seq<TokenView>, i: int, ebnf: Seq<char>) -> ErrView {
    if 0 <= i < t.len() {
        ErrView { line: t[i].line, col: t[i].col, ebnf }
    } else if t.len() > 0 {
        ErrView { line: t.last().line, col: t.last().col, ebnf }
    } else {
        ErrView { line: 0, col: 0, ebnf }
    }
}

/// A terminal: the token at `i` has kind `kind` and, for keywords and operators, text `text`.
pub open spec fn term(t: Seq<TokenView>, i: int, kind: TokenType, text: Seq<char>, ebnf: Seq<char>) -> PRes {
    if 0 <= i < t.len() && t[i].kind == kind && kind != TokenType::Invalid && ((kind
        == TokenType::Operator || kind == TokenType::Keyword) ==> t[i].text == text) {
        Ok(i + 1)
    } else {
        Err(err_at(t, i, ebnf))
    }
}

/// A keyword terminal.
pub open spec fn kw(t: Seq<TokenView>, i: int, text: Seq<char>, ebnf: Seq<char>) -> PRes {
    term(t, i, TokenType::Keyword, text, ebnf)
}

/// An operator terminal.
pub open spec fn op(t: Seq<TokenView>, i: int, text: Seq<char>, ebnf: Seq<char>) -> PRes {
    term(t, i, TokenType::Operator, text, ebnf)
}

/// An identifier terminal.
pub open spec fn ident(t: Seq<TokenView>, i: int, ebnf: Seq<char>) -> PRes {
    term(t, i, TokenType::Identifier, Seq::empty(), ebnf)
}

/// `r` moved forward from `i` and stayed within the tokens.
pub open spec fn advanced(t: Seq<TokenView>, i: int, r: PRes) -> bool {
    match r {
        Ok(j) => i < j <= t.len(),
        Err(_) => true,
    }
}

/// Sequencing with a terminal after `r`.
pub open spec fn then_term(t: Seq<TokenView>, r: PRes, kind: TokenType, text: Seq<char>, ebnf: Seq<char>) -> PRes {
    match r {
        Ok(j) => term(t, j, kind, text, ebnf),
        Err(e) => Err(e),
    }
}

/// An optional part that succeeded ends at `r`; one that failed consumes nothing.
pub open spec fn or_stay(i: int, r: PRes) -> int {
    match r {
        Ok(j) => j,
        Err(_) => i,
    }
}

/// The rule texts reported in syntax errors, one per rule.
pub open spec fn ebnf_program() -> Seq<char> { "Program := { Declaration } MainDeclaration { FunctionDefinition }"@ }
pub open spec fn ebnf_declaration() -> Seq<char> { "Declaration := DeclarationType (VariableDeclaration | FunctionDeclaration)"@ }
pub open spec fn ebnf_main() -> Seq<char> { "MainDeclaration := void main ( ) Block"@ }
pub open spec fn ebnf_function_definition() -> Seq<char> { "FunctionDefinition := DeclarationType ParameterBlock Block"@ }
pub open spec fn ebnf_declaration_type() -> Seq<char> { "DeclarationType := DataType Identifier"@ }
pub open spec fn ebnf_variable_declaration() -> Seq<char> { "VariableDeclaration := [= Constant] ;"@ }
pub open spec fn ebnf_function_declaration() -> Seq<char> { "FunctionDeclaration := ParameterBlock ;"@ }
pub open spec fn ebnf_block() -> Seq<char> { "Block := { {Declaration} {Statement} {FunctionDefinition} }"@ }
pub open spec fn ebnf_parameter_block() -> Seq<char> { "ParameterBlock := ( [Parameter {, Parameter}] )"@ }
pub open spec fn ebnf_data_type() -> Seq<char> { "DataType := IntegerType | FloatType"@ }
pub open spec fn ebnf_constant() -> Seq<char> { "Constant := IntConstant | FloatConstant"@ }
pub open spec fn ebnf_statement() -> Seq<char> { "Statement := Assignment | WhileLoop | IfStatement | ReturnStatement | (Expression ;)"@ }
pub open spec fn ebnf_parameter() -> Seq<char> { "Parameter := DataType Identifier"@ }
pub open spec fn ebnf_integer_type() -> Seq<char> { "IntegerType := [unsigned] ( char | short | int | long )"@ }
pub open spec fn ebnf_float_type() -> Seq<char> { "FloatType := float | double"@ }
pub open spec fn ebnf_assignment() -> Seq<char> { "Assignment := Identifier = {Identifier =} Expression ;"@ }
pub open spec fn ebnf_while_loop() -> Seq<char> { "WhileLoop := while ( Expression ) Block"@ }
pub open spec fn ebnf_if_statement() -> Seq<char> { "IfStatement := if ( Expression ) Block"@ }
pub open spec fn ebnf_return_statement() -> Seq<char> { "ReturnStatement := return Expression ;"@ }
pub open spec fn ebnf_expression() -> Seq<char> { "Expression := SimpleExpression [ RelationOperator SimpleExpression ]"@ }
pub open spec fn ebnf_simple_expression() -> Seq<char> { "SimpleExpression := Term { AddOperator Term }"@ }
pub open spec fn ebnf_term() -> Seq<char> { "Term := Factor { MultOperator Factor }"@ }
pub open spec fn ebnf_factor() -> Seq<char> { "Factor := ( ( Expression ) ) | Constant | ( Identifier [ ( [ Expression {, Expression} ] ) ] )"@ }
pub open spec fn ebnf_relation_operator() -> Seq<char> { "RelationOperator := ( == ) | < | > | ( <= ) | ( >= ) | ( != )"@ }
pub open spec fn ebnf_add_operator() -> Seq<char> { "AddOperator := + | -"@ }
pub open spec fn ebnf_mult_operator() -> Seq<char> { "MultOperator := * | /"@ }

/// Program := {Declaration} MainDeclaration {FunctionDefinition}
pub open spec fn p_program(t: Seq<TokenView>, i: int) -> PRes
    decreases t.len() - i, 30nat,
{
    let j = r_declarations(t, i);
    if i <= j <= t.len() {
        match p_main(t, j) {
            Ok(k) => if j < k <= t.len() { Ok(r_function_definitions(t, k)) } else { Ok(k) },
            Err(e) => Err(e),
        }
    } else {
        Ok(j)
    }
}

/// {Declaration}
pub open spec fn r_declarations(t: Seq<TokenView>, i: int) -> int
    decreases t.len() - i, 29nat,
{
    match p_declaration(t, i) {
        Ok(j) => if i < j <= t.len() { r_declarations(t, j) } else { i },
        Err(_) => i,
    }
}

/// {FunctionDefinition}
pub open spec fn r_function_definitions(t: Seq<TokenView>, i: int) -> int
    decreases t.len() - i, 29nat,
{
    match p_function_definition(t, i) {
        Ok(j) => if i < j <= t.len() { r_function_definitions(t, j) } else { i },
        Err(_) => i,
    }
}

/// {Statement}
pub open spec fn r_statements(t: Seq<TokenView>, i: int) -> int
    decreases t.len() - i, 12nat,
{
    match p_statement(t, i) {
        Ok(j) => if i < j <= t.len() { r_statements(t, j) } else { i },
        Err(_) => i,
    }
}

/// Declaration := DeclarationType (VariableDeclaration | FunctionDeclaration)
pub open spec fn p_declaration(t: Seq<TokenView>, i: int) -> PRes
    decreases t.len() - i, 28nat,
{
    match p_declaration_type(t, i) {
        Ok(j) => if i < j <= t.len() {
            match p_variable_declaration(t, j) {
                Ok(k) => Ok(k),
                Err(_) => match p_function_declaration(t, j) {
                    Ok(k) => Ok(k),
                    Err(_) => Err(err_at(t, j, ebnf_declaration())),
                },
            }
        } else {
            Ok(j)
        },
        Err(e) => Err(e),
    }
}

/// MainDeclaration := void main ( ) Block
pub open spec fn p_main(t: Seq<TokenView>, i: int) -> PRes
    decreases t.len() - i, 27nat,
{
    let e = ebnf_main();
    match then_term(t, then_term(t, kw(t, i, "void"@, e), TokenType::Keyword, "main"@, e), TokenType::Operator, "("@, e) {
        Ok(j) => match op(t, j, ")"@, e) {
            Ok(k) => if i < k <= t.len() { p_block(t, k) } else { Ok(k) },
            Err(e2) => Err(e2),
        },
        Err(e2) => Err(e2),
    }
}

/// FunctionDefinition := DeclarationType ParameterBlock Block
pub open spec fn p_function_definition(t: Seq<TokenView>, i: int) -> PRes
    decreases t.len() - i, 28nat,
{
    match p_declaration_type(t, i) {
        Ok(j) => if i < j <= t.len() {
            match p_parameter_block(t, j) {
                Ok(k) => if j < k <= t.len() { p_block(t, k) } else { Ok(k) },
                Err(e) => Err(e),
            }
        } else {
            Ok(j)
        },
        Err(e) => Err(e),
    }
}

/// DeclarationType := DataType Identifier
pub open spec fn p_declaration_type(t: Seq<TokenView>, i: int) -> PRes
    decreases t.len() - i, 20nat,
{
    match p_data_type(t, i) {
        Ok(j) => ident(t, j, ebnf_declaration_type()),
        Err(e) => Err(e),
    }
}

/// VariableDeclaration := [= Constant] ;
pub open spec fn p_variable_declaration(t: Seq<TokenView>, i: int) -> PRes
    decreases t.len() - i, 20nat,
{
    let j = match op(t, i, "="@, ebnf_variable_declaration()) {
        Ok(k) => if i < k <= t.len() { or_stay(i, p_constant(t, k)) } else { i },
        Err(_) => i,
    };
    op(t, j, ";"@, ebnf_variable_declaration())
}

/// FunctionDeclaration := ParameterBlock ;
pub open spec fn p_function_declaration(t: Seq<TokenView>, i: int) -> PRes
    decreases t.len() - i, 20nat,
{
    then_term(t, p_parameter_block(t, i), TokenType::Operator, ";"@, ebnf_function_declaration())
}

/// Block := { {Declaration} {Statement} {FunctionDefinition} }
pub open spec fn p_block(t: Seq<TokenView>, i: int) -> PRes
    decreases t.len() - i, 5nat,
{
    match op(t, i, "{"@, ebnf_block()) {
        Ok(j) => {
            let k1 = r_declarations(t, j);
            let k2 = if j <= k1 <= t.len() { r_statements(t, k1) } else { k1 };
            let k3 = if j <= k1 <= k2 <= t.len() { r_function_definitions(t, k2) } else { k2 };
            op(t, k3, "}"@, ebnf_block())
        },
        Err(e) => Err(e),
    }
}

/// {, Parameter}
pub open spec fn r_parameters(t: Seq<TokenView>, i: int) -> int
    decreases t.len() - i, 2nat,
{
    match op(t, i, ","@, ebnf_parameter_block()) {
        Ok(j) => match p_parameter(t, j) {
            Ok(k) => if i < k <= t.len() { r_parameters(t, k) } else { i },
            Err(_) => i,
        },
        Err(_) => i,
    }
}

/// ParameterBlock := ( [Parameter {, Parameter}] )
pub open spec fn p_parameter_block(t: Seq<TokenView>, i: int) -> PRes
    decreases t.len() - i, 19nat,
{
    match op(t, i, "("@, ebnf_parameter_block()) {
        Ok(j) => {
            let k = match p_parameter(t, j) {
                Ok(k1) => if j < k1 <= t.len() { r_parameters(t, k1) } else { j },
                Err(_) => j,
            };
            op(t, k, ")"@, ebnf_parameter_block())
        },
        Err(e) => Err(e),
    }
}

/// DataType := IntegerType | FloatType
pub open spec fn p_data_type(t: Seq<TokenView>, i: int) -> PRes
    decreases t.len() - i, 18nat,
{
    match p_integer_type(t, i) {
        Ok(j) => Ok(j),
        Err(_) => match p_float_type(t, i) {
            Ok(j) => Ok(j),
            Err(_) => Err(err_at(t, i, ebnf_data_type())),
        },
    }
}

/// Constant := IntConstant | FloatConstant
pub open spec fn p_constant(t: Seq<TokenView>, i: int) -> PRes
    decreases t.len() - i, 1nat,
{
    match term(t, i, TokenType::IntConstant, Seq::empty(), ebnf_constant()) {
        Ok(j) => Ok(j),
        Err(_) => match term(t, i, TokenType::FloatConstant, Seq::empty(), ebnf_constant()) {
            Ok(j) => Ok(j),
            Err(_) => Err(err_at(t, i, ebnf_constant())),
        },
    }
}

/// Statement := Assignment | WhileLoop | IfStatement | ReturnStatement | (Expression ;)
pub open spec fn p_statement(t: Seq<TokenView>, i: int) -> PRes
    decreases t.len() - i, 11nat,
{
    match p_assignment(t, i) {
        Ok(j) => Ok(j),
        Err(_) => match p_while_loop(t, i) {
            Ok(j) => Ok(j),
            Err(_) => match p_if_statement(t, i) {
                Ok(j) => Ok(j),
                Err(_) => match p_return_statement(t, i) {
                    Ok(j) => Ok(j),
                    Err(_) => match then_term(t, p_expression(t, i), TokenType::Operator, ";"@, ebnf_statement()) {
                        Ok(j) => Ok(j),
                        Err(_) => Err(err_at(t, i, ebnf_statement())),
                    },
                },
            },
        },
    }
}

/// Parameter := DataType Identifier
pub open spec fn p_parameter(t: Seq<TokenView>, i: int) -> PRes
    decreases t.len() - i, 20nat,
{
    match p_data_type(t, i) {
        Ok(j) => ident(t, j, ebnf_parameter()),
        Err(e) => Err(e),
    }
}

/// IntegerType := [unsigned] (char | short | int | long)
pub open spec fn p_integer_type(t: Seq<TokenView>, i: int) -> PRes {
    let e = ebnf_integer_type();
    let j = or_stay(i, kw(t, i, "unsigned"@, e));
    match kw(t, j, "char"@, e) {
        Ok(k) => Ok(k),
        Err(_) => match kw(t, j, "short"@, e) {
            Ok(k) => Ok(k),
            Err(_) => match kw(t, j, "int"@, e) {
                Ok(k) => Ok(k),
                Err(_) => match kw(t, j, "long"@, e) {
                    Ok(k) => Ok(k),
                    Err(_) => Err(err_at(t, j, e)),
                },
            },
        },
    }
}

/// FloatType := float | double
pub open spec fn p_float_type(t: Seq<TokenView>, i: int) -> PRes {
    let e = ebnf_float_type();
    match kw(t, i, "float"@, e) {
        Ok(k) => Ok(k),
        Err(_) => match kw(t, i, "double"@, e) {
            Ok(k) => Ok(k),
            Err(_) => Err(err_at(t, i, e)),
        },
    }
}

/// {Identifier =}
pub open spec fn r_assign_targets(t: Seq<TokenView>, i: int) -> int
    decreases t.len() - i,
{
    match then_term(t, ident(t, i, ebnf_assignment()), TokenType::Operator, "="@, ebnf_assignment()) {
        Ok(j) => if i < j <= t.len() { r_assign_targets(t, j) } else { i },
        Err(_) => i,
    }
}

/// Assignment := Identifier = {Identifier =} Expression ;
pub open spec fn p_assignment(t: Seq<TokenView>, i: int) -> PRes
    decreases t.len() - i, 10nat,
{
    let e = ebnf_assignment();
    match then_term(t, ident(t, i, e), TokenType::Operator, "="@, e) {
        Ok(j) => {
            let k = r_assign_targets(t, j);
            if i < k <= t.len() {
                then_term(t, p_expression(t, k), TokenType::Operator, ";"@, e)
            } else {
                Ok(k)
            }
        },
        Err(e2) => Err(e2),
    }
}

/// `keyword ( Expression ) Block`, the shape of while loops and if statements.
pub open spec fn p_guarded_block(t: Seq<TokenView>, i: int, word: Seq<char>, e: Seq<char>) -> PRes
    decreases t.len() - i, 9nat,
{
    match then_term(t, kw(t, i, word, e), TokenType::Operator, "("@, e) {
        Ok(j) => if i < j <= t.len() {
            match then_term(t, p_expression(t, j), TokenType::Operator, ")"@, e) {
                Ok(k) => if j < k <= t.len() { p_block(t, k) } else { Ok(k) },
                Err(e2) => Err(e2),
            }
        } else {
            Ok(j)
        },
        Err(e2) => Err(e2),
    }
}

/// WhileLoop := while ( Expression ) Block
pub open spec fn p_while_loop(t: Seq<TokenView>, i: int) -> PRes
    decreases t.len() - i, 10nat,
{
    p_guarded_block(t, i, "while"@, ebnf_while_loop())
}

/// IfStatement := if ( Expression ) Block
pub open spec fn p_if_statement(t: Seq<TokenView>, i: int) -> PRes
    decreases t.len() - i, 10nat,
{
    p_guarded_block(t, i, "if"@, ebnf_if_statement())
}

/// ReturnStatement := return Expression ;
pub open spec fn p_return_statement(t: Seq<TokenView>, i: int) -> PRes
    decreases t.len() - i, 10nat,
{
    let e = ebnf_return_statement();
    match kw(t, i, "return"@, e) {
        Ok(j) => if i < j <= t.len() {
            then_term(t, p_expression(t, j), TokenType::Operator, ";"@, e)
        } else {
            Ok(j)
        },
        Err(e2) => Err(e2),
    }
}

/// Expression := SimpleExpression [RelationOperator SimpleExpression]
pub open spec fn p_expression(t: Seq<TokenView>, i: int) -> PRes
    decreases t.len() - i, 8nat,
{
    match p_simple_expression(t, i) {
        Ok(j) => if i < j <= t.len() {
            match p_relation_operator(t, j) {
                Ok(k) => if j < k <= t.len() { Ok(or_stay(j, p_simple_expression(t, k))) } else { Ok(j) },
                Err(_) => Ok(j),
            }
        } else {
            Ok(j)
        },
        Err(e) => Err(e),
    }
}

/// {AddOperator Term}
pub open spec fn r_add_terms(t: Seq<TokenView>, i: int) -> int
    decreases t.len() - i, 2nat,
{
    match p_add_operator(t, i) {
        Ok(j) => if i < j <= t.len() {
            match p_term(t, j) {
                Ok(k) => if j < k <= t.len() { r_add_terms(t, k) } else { i },
                Err(_) => i,
            }
        } else {
            i
        },
        Err(_) => i,
    }
}

/// SimpleExpression := Term {AddOperator Term}
pub open spec fn p_simple_expression(t: Seq<TokenView>, i: int) -> PRes
    decreases t.len() - i, 7nat,
{
    match p_term(t, i) {
        Ok(j) => if i < j <= t.len() { Ok(r_add_terms(t, j)) } else { Ok(j) },
        Err(e) => Err(e),
    }
}

/// {MultOperator Factor}
pub open spec fn r_mult_factors(t: Seq<TokenView>, i: int) -> int
    decreases t.len() - i, 2nat,
{
    match p_mult_operator(t, i) {
        Ok(j) => if i < j <= t.len() {
            match p_factor(t, j) {
                Ok(k) => if j < k <= t.len() { r_mult_factors(t, k) } else { i },
                Err(_) => i,
            }
        } else {
            i
        },
        Err(_) => i,
    }
}

/// Term := Factor {MultOperator Factor}
pub open spec fn p_term(t: Seq<TokenView>, i: int) -> PRes
    decreases t.len() - i, 6nat,
{
    match p_factor(t, i) {
        Ok(j) => if i < j <= t.len() { Ok(r_mult_factors(t, j)) } else { Ok(j) },
        Err(e) => Err(e),
    }
}

/// {, Expression}
pub open spec fn r_arguments(t: Seq<TokenView>, i: int) -> int
    decreases t.len() - i, 2nat,
{
    match op(t, i, ","@, ebnf_factor()) {
        Ok(j) => if i < j <= t.len() {
            match p_expression(t, j) {
                Ok(k) => if j < k <= t.len() { r_arguments(t, k) } else { i },
                Err(_) => i,
            }
        } else {
            i
        },
        Err(_) => i,
    }
}

/// `[ ( [Expression {, Expression}] ) ]` after an identifier in a factor.
pub open spec fn p_call_suffix(t: Seq<TokenView>, i: int) -> int
    decreases t.len() - i, 3nat,
{
    match op(t, i, "("@, ebnf_factor()) {
        Ok(j) => if i < j <= t.len() {
            let k = match p_expression(t, j) {
                Ok(k1) => if j < k1 <= t.len() { r_arguments(t, k1) } else { j },
                Err(_) => j,
            };
            or_stay(i, op(t, k, ")"@, ebnf_factor()))
        } else {
            i
        },
        Err(_) => i,
    }
}

/// Factor := ( Expression ) | Constant | Identifier [( [Expression {, Expression}] )]
pub open spec fn p_factor(t: Seq<TokenView>, i: int) -> PRes
    decreases t.len() - i, 5nat,
{
    let e = ebnf_factor();
    let paren = match op(t, i, "("@, e) {
        Ok(j) => if i < j <= t.len() {
            then_term(t, p_expression(t, j), TokenType::Operator, ")"@, e)
        } else {
            Ok(j)
        },
        Err(e2) => Err(e2),
    };
    match paren {
        Ok(j) => Ok(j),
        Err(_) => match p_constant(t, i) {
            Ok(j) => Ok(j),
            Err(_) => match ident(t, i, e) {
                Ok(j) => if i < j <= t.len() { Ok(p_call_suffix(t, j)) } else { Ok(j) },
                Err(_) => Err(err_at(t, i, e)),
            },
        },
    }
}

/// RelationOperator := == | < | > | <= | >= | !=
pub open spec fn p_relation_operator(t: Seq<TokenView>, i: int) -> PRes {
    let e = ebnf_relation_operator();
    if op(t, i, "=="@, e) is Ok || op(t, i, "<"@, e) is Ok || op(t, i, ">"@, e) is Ok
        || op(t, i, "<="@, e) is Ok || op(t, i, ">="@, e) is Ok || op(t, i, "!="@, e) is Ok {
        Ok(i + 1)
    } else {
        Err(err_at(t, i, e))
    }
}

/// AddOperator := + | -
pub open spec fn p_add_operator(t: Seq<TokenView>, i: int) -> PRes {
    let e = ebnf_add_operator();
    if op(t, i, "+"@, e) is Ok || op(t, i, "-"@, e) is Ok {
        Ok(i + 1)
    } else {
        Err(err_at(t, i, e))
    }
}

/// MultOperator := * | /
pub open spec fn p_mult_operator(t: Seq<TokenView>, i: int) -> PRes {
    let e = ebnf_mult_operator();
    if op(t, i, "*"@, e) is Ok || op(t, i, "/"@, e) is Ok {
        Ok(i + 1)
    } else {
        Err(err_at(t, i, e))
    }
}

} // verus!

verus! {

/// A repetition whose sub-rule does not match where it starts consumes nothing (and,
/// having no error outcome, reports none).
pub proof fn lemma_repetition_without_match(t: Seq<TokenView>, i: int)
    ensures
        p_declaration(t, i) is Err ==> r_declarations(t, i) == i,
        p_function_definition(t, i) is Err ==> r_function_definitions(t, i) == i,
        p_statement(t, i) is Err ==> r_statements(t, i) == i,
        op(t, i, ","@, ebnf_parameter_block()) is Err ==> r_parameters(t, i) == i,
        then_term(t, ident(t, i, ebnf_assignment()), TokenType::Operator, "="@, ebnf_assignment()) is Err
            ==> r_assign_targets(t, i) == i,
        p_add_operator(t, i) is Err ==> r_add_terms(t, i) == i,
        p_mult_operator(t, i) is Err ==> r_mult_factors(t, i) == i,
        op(t, i, ","@, ebnf_factor()) is Err ==> r_arguments(t, i) == i,
{
}

} // verus!
