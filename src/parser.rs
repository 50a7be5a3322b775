//! The backtracking recursive-descent syntax validator.
use vstd::prelude::*;

use crate::grammar::{
    err_at, p_add_operator, p_assignment, p_block, p_call_suffix, p_constant, p_data_type,
    p_declaration, p_declaration_type, p_expression, p_factor, p_float_type,
    p_function_declaration, p_function_definition, p_guarded_block, p_if_statement,
    p_integer_type, p_main, p_mult_operator, p_parameter, p_parameter_block, p_program,
    p_relation_operator, p_return_statement, p_simple_expression, p_statement, p_term,
    p_variable_declaration, p_while_loop, r_add_terms, r_arguments, r_assign_targets,
    r_declarations, r_function_definitions, r_mult_factors, r_parameters, r_statements, term,
    ErrView, PRes,
};
use crate::scanner::{lex, tokenize, views};
use crate::text::{chars_of, decimal_int, push_chars, push_int, text_of};
use crate::token::{Token, TokenType, TokenView};

verus! {

/// The first grammar rule that could not be satisfied, and where.
pub struct SyntaxError {
    pub line_num: i32,
    pub char_pos: i32,
    pub ebnf: String,
}

impl View for SyntaxError {
    type V = ErrView;

    open spec fn view(&self) -> ErrView {
        ErrView { line: self.line_num as int, col: self.char_pos as int, ebnf: self.ebnf@ }
    }
}

/// The message that reports a syntax error.
pub open spec fn message_text(e: ErrView) -> Seq<char> {
    "Error at Line "@ + decimal_int(e.line) + " Character "@ + decimal_int(e.col)
        + ". The syntax should be: "@ + e.ebnf + "."@
}

/// The message that reports a program without syntax errors.
pub open spec fn success_text() -> Seq<char> {
    "Input program is syntactically correct."@
}

/// The report for a whole parse of `t` from index `i`.
pub open spec fn report(t: Seq<TokenView>, i: int) -> Seq<char> {
    match p_program(t, i) {
        Ok(_) => success_text(),
        Err(e) => message_text(e),
    }
}

impl SyntaxError {
    /// `Error at Line {line} Character {column}. The syntax should be: {ebnf}.`
    pub fn message(&self) -> (r: String)
        ensures
            r@ == message_text(self@),
    {
        let mut out: Vec<char> = chars_of("Error at Line ");
        push_int(&mut out, self.line_num);
        push_chars(&mut out, &chars_of(" Character "));
        push_int(&mut out, self.char_pos);
        push_chars(&mut out, &chars_of(". The syntax should be: "));
        push_chars(&mut out, &chars_of(self.ebnf.as_str()));
        push_chars(&mut out, &chars_of("."));
        text_of(&out)
    }
}

/// A rule's outcome: on success the cursor moved forward to the end of the matched text;
/// on failure it is back where it was and the error is the one the grammar reports.
pub open spec fn ok_or_back(t: Seq<TokenView>, i: int, j: int, r: Result<(), SyntaxError>, s: PRes) -> bool {
    match r {
        Ok(_) => s == PRes::Ok(j) && i < j <= t.len(),
        Err(e) => s == PRes::Err(e@) && j == i,
    }
}

/// Checks a token sequence against the grammar, with one cursor into the tokens.
pub struct Parser {
    pub all_tokens: Vec<Token>,
    token_index: usize,
}

impl Parser {
    /// The tokens being checked.
    pub closed spec fn toks(&self) -> Seq<TokenView> {
        views(self.all_tokens@)
    }

    /// The cursor.
    pub closed spec fn index(&self) -> int {
        self.token_index as int
    }

    /// The cursor stays within the tokens.
    pub closed spec fn wf(&self) -> bool {
        self.token_index <= self.all_tokens@.len()
    }

    /// A parser over the tokens of `contents`, with the cursor at the first one.
    pub fn new(contents: &str) -> (r: Parser)
        requires
            contents@.len() < i32::MAX,
        ensures
            r.wf(),
            r.toks() == lex(contents@),
            r.index() == 0,
    {
        Parser { all_tokens: tokenize(contents), token_index: 0 }
    }

    /// A parser over `all_tokens`, with the cursor at the first one.
    pub fn from_tokens(all_tokens: Vec<Token>) -> (r: Parser)
        ensures
            r.wf(),
            r.toks() == views(all_tokens@),
            r.index() == 0,
    {
        Parser { all_tokens, token_index: 0 }
    }

    /// The tokens being checked.
    pub fn tokens(&self) -> (r: &Vec<Token>)
        ensures
            views(r@) == self.toks(),
    {
        &self.all_tokens
    }

    /// The cursor: index of the next token to match.
    pub fn cursor(&self) -> (r: usize)
        ensures
            r == self.index(),
    {
        self.token_index
    }

    /// The error for the rule `ebnf` at the cursor.
    fn error_here(&self, ebnf: &str) -> (r: SyntaxError)
        requires
            self.wf(),
        ensures
            r@ == err_at(self.toks(), self.index(), ebnf@),
    {
        let n = self.all_tokens.len();
        if self.token_index < n {
            let tok = &self.all_tokens[self.token_index];
            SyntaxError { line_num: tok.line_num, char_pos: tok.char_pos, ebnf: ebnf.to_owned() }
        } else if n > 0 {
            let tok = &self.all_tokens[n - 1];
            SyntaxError { line_num: tok.line_num, char_pos: tok.char_pos, ebnf: ebnf.to_owned() }
        } else {
            SyntaxError { line_num: 0, char_pos: 0, ebnf: ebnf.to_owned() }
        }
    }

    /// Matches one token of kind `token_type` (and text `text`, for keywords and operators).
    fn terminal_token(&mut self, token_type: TokenType, text: &str, ebnf: &str) -> (r: Result<(), SyntaxError>)
        requires
            old(self).wf(),
        ensures
            final(self).wf(),
            final(self).toks() == old(self).toks(),
            ok_or_back(old(self).toks(), old(self).index(), final(self).index(), r,
                term(old(self).toks(), old(self).index(), token_type, text@, ebnf@)),
    {
        if self.token_index >= self.all_tokens.len() {
            return Err(self.error_here(ebnf));
        }
        let i = self.token_index;
        let tok = &self.all_tokens[i];
        if token_type == tok.token_type {
            match token_type {
                TokenType::Invalid => {},
                TokenType::Operator | TokenType::Keyword => {
                    if tok.text == text.to_owned() {
                        self.token_index = i + 1;
                        return Ok(());
                    }
                },
                _ => {
                    self.token_index = i + 1;
                    return Ok(());
                },
            }
        }
        Err(self.error_here(ebnf))
    }

    /// Program := {Declaration} MainDeclaration {FunctionDefinition}
    pub fn syntax_program(&mut self) -> (r: Result<(), SyntaxError>)
        requires
            old(self).wf(),
        ensures
            final(self).wf(),
            final(self).toks() == old(self).toks(),
            ok_or_back(old(self).toks(), old(self).index(), final(self).index(), r,
                p_program(old(self).toks(), old(self).index())),
        decreases old(self).toks().len() - old(self).index(), 30nat,
    {
        let start = self.token_index;
        self.repeat_declarations();
        if let Err(e) = self.syntax_main_declaration() {
            self.token_index = start;
            return Err(e);
        }
        self.repeat_function_definitions();
        Ok(())
    }

    /// Repetition `{Declaration}`: matches as often as it can, rolls back a failed attempt, never fails.
    pub fn repeat_declarations(&mut self)
        requires
            old(self).wf(),
        ensures
            final(self).wf(),
            final(self).toks() == old(self).toks(),
            final(self).index() == r_declarations(old(self).toks(), old(self).index()),
            old(self).index() <= final(self).index(),
        decreases old(self).toks().len() - old(self).index(), 29nat,
    {
        let ghost t = self.toks();
        let ghost i0 = self.index();
        loop
            invariant
                self.wf(),
                self.toks() == t,
                t == old(self).toks(),
                i0 == old(self).index(),
                i0 <= self.index(),
                r_declarations(t, i0) == r_declarations(t, self.index()),
            ensures
                self.wf(),
                self.toks() == t,
                i0 <= self.index(),
                r_declarations(t, i0) == self.index(),
            decreases t.len() - self.index(),
        {
            let start = self.token_index;
            if self.syntax_declaration().is_err() {
                self.token_index = start;
                break;
            }
        }
    }

    /// Repetition `{FunctionDefinition}`: matches as often as it can, rolls back a failed attempt, never fails.
    pub fn repeat_function_definitions(&mut self)
        requires
            old(self).wf(),
        ensures
            final(self).wf(),
            final(self).toks() == old(self).toks(),
            final(self).index() == r_function_definitions(old(self).toks(), old(self).index()),
            old(self).index() <= final(self).index(),
        decreases old(self).toks().len() - old(self).index(), 29nat,
    {
        let ghost t = self.toks();
        let ghost i0 = self.index();
        loop
            invariant
                self.wf(),
                self.toks() == t,
                t == old(self).toks(),
                i0 == old(self).index(),
                i0 <= self.index(),
                r_function_definitions(t, i0) == r_function_definitions(t, self.index()),
            ensures
                self.wf(),
                self.toks() == t,
                i0 <= self.index(),
                r_function_definitions(t, i0) == self.index(),
            decreases t.len() - self.index(),
        {
            let start = self.token_index;
            if self.syntax_function_definition().is_err() {
                self.token_index = start;
                break;
            }
        }
    }

    /// Repetition `{Statement}`: matches as often as it can, rolls back a failed attempt, never fails.
    pub fn repeat_statements(&mut self)
        requires
            old(self).wf(),
        ensures
            final(self).wf(),
            final(self).toks() == old(self).toks(),
            final(self).index() == r_statements(old(self).toks(), old(self).index()),
            old(self).index() <= final(self).index(),
        decreases old(self).toks().len() - old(self).index(), 12nat,
    {
        let ghost t = self.toks();
        let ghost i0 = self.index();
        loop
            invariant
                self.wf(),
                self.toks() == t,
                t == old(self).toks(),
                i0 == old(self).index(),
                i0 <= self.index(),
                r_statements(t, i0) == r_statements(t, self.index()),
            ensures
                self.wf(),
                self.toks() == t,
                i0 <= self.index(),
                r_statements(t, i0) == self.index(),
            decreases t.len() - self.index(),
        {
            let start = self.token_index;
            if self.syntax_statement().is_err() {
                self.token_index = start;
                break;
            }
        }
    }

    /// Declaration := DeclarationType (VariableDeclaration | FunctionDeclaration)
    pub fn syntax_declaration(&mut self) -> (r: Result<(), SyntaxError>)
        requires
            old(self).wf(),
        ensures
            final(self).wf(),
            final(self).toks() == old(self).toks(),
            ok_or_back(old(self).toks(), old(self).index(), final(self).index(), r,
                p_declaration(old(self).toks(), old(self).index())),
        decreases old(self).toks().len() - old(self).index(), 28nat,
    {
        let ebnf = "Declaration := DeclarationType (VariableDeclaration | FunctionDeclaration)";
        let start = self.token_index;
        if let Err(e) = self.syntax_declaration_type() {
            self.token_index = start;
            return Err(e);
        }
        if self.syntax_variable_declaration().is_ok() {
            return Ok(());
        }
        if self.syntax_function_declaration().is_ok() {
            return Ok(());
        }
        let e = self.error_here(ebnf);
        self.token_index = start;
        Err(e)
    }

    /// MainDeclaration := void main ( ) Block
    pub fn syntax_main_declaration(&mut self) -> (r: Result<(), SyntaxError>)
        requires
            old(self).wf(),
        ensures
            final(self).wf(),
            final(self).toks() == old(self).toks(),
            ok_or_back(old(self).toks(), old(self).index(), final(self).index(), r,
                p_main(old(self).toks(), old(self).index())),
        decreases old(self).toks().len() - old(self).index(), 27nat,
    {
        let ebnf = "MainDeclaration := void main ( ) Block";
        let start = self.token_index;
        if let Err(e) = self.terminal_token(TokenType::Keyword, "void", ebnf) {
            self.token_index = start;
            return Err(e);
        }
        if let Err(e) = self.terminal_token(TokenType::Keyword, "main", ebnf) {
            self.token_index = start;
            return Err(e);
        }
        if let Err(e) = self.terminal_token(TokenType::Operator, "(", ebnf) {
            self.token_index = start;
            return Err(e);
        }
        if let Err(e) = self.terminal_token(TokenType::Operator, ")", ebnf) {
            self.token_index = start;
            return Err(e);
        }
        if let Err(e) = self.syntax_block() {
            self.token_index = start;
            return Err(e);
        }
        Ok(())
    }

    /// FunctionDefinition := DeclarationType ParameterBlock Block
    pub fn syntax_function_definition(&mut self) -> (r: Result<(), SyntaxError>)
        requires
            old(self).wf(),
        ensures
            final(self).wf(),
            final(self).toks() == old(self).toks(),
            ok_or_back(old(self).toks(), old(self).index(), final(self).index(), r,
                p_function_definition(old(self).toks(), old(self).index())),
        decreases old(self).toks().len() - old(self).index(), 28nat,
    {
        let start = self.token_index;
        if let Err(e) = self.syntax_declaration_type() {
            self.token_index = start;
            return Err(e);
        }
        if let Err(e) = self.syntax_parameter_block() {
            self.token_index = start;
            return Err(e);
        }
        if let Err(e) = self.syntax_block() {
            self.token_index = start;
            return Err(e);
        }
        Ok(())
    }

    /// DeclarationType := DataType Identifier
    pub fn syntax_declaration_type(&mut self) -> (r: Result<(), SyntaxError>)
        requires
            old(self).wf(),
        ensures
            final(self).wf(),
            final(self).toks() == old(self).toks(),
            ok_or_back(old(self).toks(), old(self).index(), final(self).index(), r,
                p_declaration_type(old(self).toks(), old(self).index())),
        decreases old(self).toks().len() - old(self).index(), 20nat,
    {
        let ebnf = "DeclarationType := DataType Identifier";
        let start = self.token_index;
        if let Err(e) = self.syntax_data_type() {
            self.token_index = start;
            return Err(e);
        }
        if let Err(e) = self.terminal_token(TokenType::Identifier, "", ebnf) {
            self.token_index = start;
            return Err(e);
        }
        Ok(())
    }

    /// VariableDeclaration := [= Constant] ;
    pub fn syntax_variable_declaration(&mut self) -> (r: Result<(), SyntaxError>)
        requires
            old(self).wf(),
        ensures
            final(self).wf(),
            final(self).toks() == old(self).toks(),
            ok_or_back(old(self).toks(), old(self).index(), final(self).index(), r,
                p_variable_declaration(old(self).toks(), old(self).index())),
        decreases old(self).toks().len() - old(self).index(), 20nat,
    {
        let ebnf = "VariableDeclaration := [= Constant] ;";
        let start = self.token_index;
        if self.terminal_token(TokenType::Operator, "=", ebnf).is_ok() {
            if self.syntax_constant().is_err() {
                self.token_index = start;
            }
        }
        if let Err(e) = self.terminal_token(TokenType::Operator, ";", ebnf) {
            self.token_index = start;
            return Err(e);
        }
        Ok(())
    }

    /// FunctionDeclaration := ParameterBlock ;
    pub fn syntax_function_declaration(&mut self) -> (r: Result<(), SyntaxError>)
        requires
            old(self).wf(),
        ensures
            final(self).wf(),
            final(self).toks() == old(self).toks(),
            ok_or_back(old(self).toks(), old(self).index(), final(self).index(), r,
                p_function_declaration(old(self).toks(), old(self).index())),
        decreases old(self).toks().len() - old(self).index(), 20nat,
    {
        let ebnf = "FunctionDeclaration := ParameterBlock ;";
        let start = self.token_index;
        if let Err(e) = self.syntax_parameter_block() {
            self.token_index = start;
            return Err(e);
        }
        if let Err(e) = self.terminal_token(TokenType::Operator, ";", ebnf) {
            self.token_index = start;
            return Err(e);
        }
        Ok(())
    }

    /// Block := { {Declaration} {Statement} {FunctionDefinition} }
    pub fn syntax_block(&mut self) -> (r: Result<(), SyntaxError>)
        requires
            old(self).wf(),
        ensures
            final(self).wf(),
            final(self).toks() == old(self).toks(),
            ok_or_back(old(self).toks(), old(self).index(), final(self).index(), r,
                p_block(old(self).toks(), old(self).index())),
        decreases old(self).toks().len() - old(self).index(), 5nat,
    {
        let ebnf = "Block := { {Declaration} {Statement} {FunctionDefinition} }";
        let start = self.token_index;
        if let Err(e) = self.terminal_token(TokenType::Operator, "{", ebnf) {
            self.token_index = start;
            return Err(e);
        }
        self.repeat_declarations();
        self.repeat_statements();
        self.repeat_function_definitions();
        if let Err(e) = self.terminal_token(TokenType::Operator, "}", ebnf) {
            self.token_index = start;
            return Err(e);
        }
        Ok(())
    }

    /// Repetition `{, Parameter}`: matches as often as it can, rolls back a failed attempt, never fails.
    pub fn repeat_parameters(&mut self)
        requires
            old(self).wf(),
        ensures
            final(self).wf(),
            final(self).toks() == old(self).toks(),
            final(self).index() == r_parameters(old(self).toks(), old(self).index()),
            old(self).index() <= final(self).index(),
        decreases old(self).toks().len() - old(self).index(), 2nat,
    {
        let ghost t = self.toks();
        let ghost i0 = self.index();
        loop
            invariant
                self.wf(),
                self.toks() == t,
                t == old(self).toks(),
                i0 == old(self).index(),
                i0 <= self.index(),
                r_parameters(t, i0) == r_parameters(t, self.index()),
            ensures
                self.wf(),
                self.toks() == t,
                i0 <= self.index(),
                r_parameters(t, i0) == self.index(),
            decreases t.len() - self.index(),
        {
            let start = self.token_index;
            if self.terminal_token(TokenType::Operator, ",", "ParameterBlock := ( [Parameter {, Parameter}] )").is_err() {
                self.token_index = start;
                break;
            }
            if self.syntax_parameter().is_err() {
                self.token_index = start;
                break;
            }
        }
    }

    /// ParameterBlock := ( [Parameter {, Parameter}] )
    pub fn syntax_parameter_block(&mut self) -> (r: Result<(), SyntaxError>)
        requires
            old(self).wf(),
        ensures
            final(self).wf(),
            final(self).toks() == old(self).toks(),
            ok_or_back(old(self).toks(), old(self).index(), final(self).index(), r,
                p_parameter_block(old(self).toks(), old(self).index())),
        decreases old(self).toks().len() - old(self).index(), 19nat,
    {
        let ebnf = "ParameterBlock := ( [Parameter {, Parameter}] )";
        let start = self.token_index;
        if let Err(e) = self.terminal_token(TokenType::Operator, "(", ebnf) {
            self.token_index = start;
            return Err(e);
        }
        if self.syntax_parameter().is_ok() {
            self.repeat_parameters();
        }
        if let Err(e) = self.terminal_token(TokenType::Operator, ")", ebnf) {
            self.token_index = start;
            return Err(e);
        }
        Ok(())
    }

    /// DataType := IntegerType | FloatType
    pub fn syntax_data_type(&mut self) -> (r: Result<(), SyntaxError>)
        requires
            old(self).wf(),
        ensures
            final(self).wf(),
            final(self).toks() == old(self).toks(),
            ok_or_back(old(self).toks(), old(self).index(), final(self).index(), r,
                p_data_type(old(self).toks(), old(self).index())),
        decreases old(self).toks().len() - old(self).index(), 18nat,
    {
        let ebnf = "DataType := IntegerType | FloatType";
        if self.syntax_integer_type().is_ok() {
            return Ok(());
        }
        if self.syntax_float_type().is_ok() {
            return Ok(());
        }
        Err(self.error_here(ebnf))
    }

    /// Constant := IntConstant | FloatConstant
    pub fn syntax_constant(&mut self) -> (r: Result<(), SyntaxError>)
        requires
            old(self).wf(),
        ensures
            final(self).wf(),
            final(self).toks() == old(self).toks(),
            ok_or_back(old(self).toks(), old(self).index(), final(self).index(), r,
                p_constant(old(self).toks(), old(self).index())),
        decreases old(self).toks().len() - old(self).index(), 1nat,
    {
        let ebnf = "Constant := IntConstant | FloatConstant";
        if self.terminal_token(TokenType::IntConstant, "", ebnf).is_ok() {
            return Ok(());
        }
        if self.terminal_token(TokenType::FloatConstant, "", ebnf).is_ok() {
            return Ok(());
        }
        Err(self.error_here(ebnf))
    }

    /// Statement := Assignment | WhileLoop | IfStatement | ReturnStatement | (Expression ;)
    pub fn syntax_statement(&mut self) -> (r: Result<(), SyntaxError>)
        requires
            old(self).wf(),
        ensures
            final(self).wf(),
            final(self).toks() == old(self).toks(),
            ok_or_back(old(self).toks(), old(self).index(), final(self).index(), r,
                p_statement(old(self).toks(), old(self).index())),
        decreases old(self).toks().len() - old(self).index(), 11nat,
    {
        let ebnf = "Statement := Assignment | WhileLoop | IfStatement | ReturnStatement | (Expression ;)";
        let start = self.token_index;
        if self.syntax_assignment().is_ok() {
            return Ok(());
        }
        if self.syntax_while_loop().is_ok() {
            return Ok(());
        }
        if self.syntax_if_statement().is_ok() {
            return Ok(());
        }
        if self.syntax_return_statement().is_ok() {
            return Ok(());
        }
        if self.syntax_expression().is_ok() {
            if self.terminal_token(TokenType::Operator, ";", ebnf).is_ok() {
                return Ok(());
            }
            self.token_index = start;
        }
        Err(self.error_here(ebnf))
    }

    /// Parameter := DataType Identifier
    pub fn syntax_parameter(&mut self) -> (r: Result<(), SyntaxError>)
        requires
            old(self).wf(),
        ensures
            final(self).wf(),
            final(self).toks() == old(self).toks(),
            ok_or_back(old(self).toks(), old(self).index(), final(self).index(), r,
                p_parameter(old(self).toks(), old(self).index())),
        decreases old(self).toks().len() - old(self).index(), 20nat,
    {
        let ebnf = "Parameter := DataType Identifier";
        let start = self.token_index;
        if let Err(e) = self.syntax_data_type() {
            self.token_index = start;
            return Err(e);
        }
        if let Err(e) = self.terminal_token(TokenType::Identifier, "", ebnf) {
            self.token_index = start;
            return Err(e);
        }
        Ok(())
    }

    /// IntegerType := [unsigned] (char | short | int | long)
    pub fn syntax_integer_type(&mut self) -> (r: Result<(), SyntaxError>)
        requires
            old(self).wf(),
        ensures
            final(self).wf(),
            final(self).toks() == old(self).toks(),
            ok_or_back(old(self).toks(), old(self).index(), final(self).index(), r,
                p_integer_type(old(self).toks(), old(self).index())),
        decreases old(self).toks().len() - old(self).index(), 17nat,
    {
        let ebnf = "IntegerType := [unsigned] ( char | short | int | long )";
        let start = self.token_index;
        let _ = self.terminal_token(TokenType::Keyword, "unsigned", ebnf);
        if self.terminal_token(TokenType::Keyword, "char", ebnf).is_ok() {
            return Ok(());
        }
        if self.terminal_token(TokenType::Keyword, "short", ebnf).is_ok() {
            return Ok(());
        }
        if self.terminal_token(TokenType::Keyword, "int", ebnf).is_ok() {
            return Ok(());
        }
        if self.terminal_token(TokenType::Keyword, "long", ebnf).is_ok() {
            return Ok(());
        }
        let e = self.error_here(ebnf);
        self.token_index = start;
        Err(e)
    }

    /// FloatType := float | double
    pub fn syntax_float_type(&mut self) -> (r: Result<(), SyntaxError>)
        requires
            old(self).wf(),
        ensures
            final(self).wf(),
            final(self).toks() == old(self).toks(),
            ok_or_back(old(self).toks(), old(self).index(), final(self).index(), r,
                p_float_type(old(self).toks(), old(self).index())),
        decreases old(self).toks().len() - old(self).index(), 17nat,
    {
        let ebnf = "FloatType := float | double";
        if self.terminal_token(TokenType::Keyword, "float", ebnf).is_ok() {
            return Ok(());
        }
        if self.terminal_token(TokenType::Keyword, "double", ebnf).is_ok() {
            return Ok(());
        }
        Err(self.error_here(ebnf))
    }

    /// Repetition `{Identifier =}`: matches as often as it can, rolls back a failed attempt, never fails.
    pub fn repeat_assign_targets(&mut self)
        requires
            old(self).wf(),
        ensures
            final(self).wf(),
            final(self).toks() == old(self).toks(),
            final(self).index() == r_assign_targets(old(self).toks(), old(self).index()),
            old(self).index() <= final(self).index(),
        decreases old(self).toks().len() - old(self).index(), 2nat,
    {
        let ghost t = self.toks();
        let ghost i0 = self.index();
        loop
            invariant
                self.wf(),
                self.toks() == t,
                t == old(self).toks(),
                i0 == old(self).index(),
                i0 <= self.index(),
                r_assign_targets(t, i0) == r_assign_targets(t, self.index()),
            ensures
                self.wf(),
                self.toks() == t,
                i0 <= self.index(),
                r_assign_targets(t, i0) == self.index(),
            decreases t.len() - self.index(),
        {
            let start = self.token_index;
            if self.terminal_token(TokenType::Identifier, "", "Assignment := Identifier = {Identifier =} Expression ;").is_err() {
                self.token_index = start;
                break;
            }
            if self.terminal_token(TokenType::Operator, "=", "Assignment := Identifier = {Identifier =} Expression ;").is_err() {
                self.token_index = start;
                break;
            }
        }
    }

    /// Assignment := Identifier = {Identifier =} Expression ;
    pub fn syntax_assignment(&mut self) -> (r: Result<(), SyntaxError>)
        requires
            old(self).wf(),
        ensures
            final(self).wf(),
            final(self).toks() == old(self).toks(),
            ok_or_back(old(self).toks(), old(self).index(), final(self).index(), r,
                p_assignment(old(self).toks(), old(self).index())),
        decreases old(self).toks().len() - old(self).index(), 10nat,
    {
        let ebnf = "Assignment := Identifier = {Identifier =} Expression ;";
        let start = self.token_index;
        if let Err(e) = self.terminal_token(TokenType::Identifier, "", ebnf) {
            self.token_index = start;
            return Err(e);
        }
        if let Err(e) = self.terminal_token(TokenType::Operator, "=", ebnf) {
            self.token_index = start;
            return Err(e);
        }
        self.repeat_assign_targets();
        if let Err(e) = self.syntax_expression() {
            self.token_index = start;
            return Err(e);
        }
        if let Err(e) = self.terminal_token(TokenType::Operator, ";", ebnf) {
            self.token_index = start;
            return Err(e);
        }
        Ok(())
    }

    /// `keyword ( Expression ) Block`, the shape of while loops and if statements.
    pub fn syntax_guarded_block(&mut self, word: &str, ebnf: &str) -> (r: Result<(), SyntaxError>)
        requires
            old(self).wf(),
        ensures
            final(self).wf(),
            final(self).toks() == old(self).toks(),
            ok_or_back(old(self).toks(), old(self).index(), final(self).index(), r,
                p_guarded_block(old(self).toks(), old(self).index(), word@, ebnf@)),
        decreases old(self).toks().len() - old(self).index(), 9nat,
    {
        let start = self.token_index;
        if let Err(e) = self.terminal_token(TokenType::Keyword, word, ebnf) {
            self.token_index = start;
            return Err(e);
        }
        if let Err(e) = self.terminal_token(TokenType::Operator, "(", ebnf) {
            self.token_index = start;
            return Err(e);
        }
        if let Err(e) = self.syntax_expression() {
            self.token_index = start;
            return Err(e);
        }
        if let Err(e) = self.terminal_token(TokenType::Operator, ")", ebnf) {
            self.token_index = start;
            return Err(e);
        }
        if let Err(e) = self.syntax_block() {
            self.token_index = start;
            return Err(e);
        }
        Ok(())
    }

    /// WhileLoop := while ( Expression ) Block
    pub fn syntax_while_loop(&mut self) -> (r: Result<(), SyntaxError>)
        requires
            old(self).wf(),
        ensures
            final(self).wf(),
            final(self).toks() == old(self).toks(),
            ok_or_back(old(self).toks(), old(self).index(), final(self).index(), r,
                p_while_loop(old(self).toks(), old(self).index())),
        decreases old(self).toks().len() - old(self).index(), 10nat,
    {
        self.syntax_guarded_block("while", "WhileLoop := while ( Expression ) Block")
    }

    /// IfStatement := if ( Expression ) Block
    pub fn syntax_if_statement(&mut self) -> (r: Result<(), SyntaxError>)
        requires
            old(self).wf(),
        ensures
            final(self).wf(),
            final(self).toks() == old(self).toks(),
            ok_or_back(old(self).toks(), old(self).index(), final(self).index(), r,
                p_if_statement(old(self).toks(), old(self).index())),
        decreases old(self).toks().len() - old(self).index(), 10nat,
    {
        self.syntax_guarded_block("if", "IfStatement := if ( Expression ) Block")
    }

    /// ReturnStatement := return Expression ;
    pub fn syntax_return_statement(&mut self) -> (r: Result<(), SyntaxError>)
        requires
            old(self).wf(),
        ensures
            final(self).wf(),
            final(self).toks() == old(self).toks(),
            ok_or_back(old(self).toks(), old(self).index(), final(self).index(), r,
                p_return_statement(old(self).toks(), old(self).index())),
        decreases old(self).toks().len() - old(self).index(), 10nat,
    {
        let ebnf = "ReturnStatement := return Expression ;";
        let start = self.token_index;
        if let Err(e) = self.terminal_token(TokenType::Keyword, "return", ebnf) {
            self.token_index = start;
            return Err(e);
        }
        if let Err(e) = self.syntax_expression() {
            self.token_index = start;
            return Err(e);
        }
        if let Err(e) = self.terminal_token(TokenType::Operator, ";", ebnf) {
            self.token_index = start;
            return Err(e);
        }
        Ok(())
    }

    /// Expression := SimpleExpression [RelationOperator SimpleExpression]
    pub fn syntax_expression(&mut self) -> (r: Result<(), SyntaxError>)
        requires
            old(self).wf(),
        ensures
            final(self).wf(),
            final(self).toks() == old(self).toks(),
            ok_or_back(old(self).toks(), old(self).index(), final(self).index(), r,
                p_expression(old(self).toks(), old(self).index())),
        decreases old(self).toks().len() - old(self).index(), 8nat,
    {
        let start = self.token_index;
        if let Err(e) = self.syntax_simple_expression() {
            self.token_index = start;
            return Err(e);
        }
        let mid = self.token_index;
        if self.syntax_relation_operator().is_ok() {
            if self.syntax_simple_expression().is_err() {
                self.token_index = mid;
            }
        }
        Ok(())
    }

    /// Repetition `{AddOperator Term}`: matches as often as it can, rolls back a failed attempt, never fails.
    pub fn repeat_add_terms(&mut self)
        requires
            old(self).wf(),
        ensures
            final(self).wf(),
            final(self).toks() == old(self).toks(),
            final(self).index() == r_add_terms(old(self).toks(), old(self).index()),
            old(self).index() <= final(self).index(),
        decreases old(self).toks().len() - old(self).index(), 2nat,
    {
        let ghost t = self.toks();
        let ghost i0 = self.index();
        loop
            invariant
                self.wf(),
                self.toks() == t,
                t == old(self).toks(),
                i0 == old(self).index(),
                i0 <= self.index(),
                r_add_terms(t, i0) == r_add_terms(t, self.index()),
            ensures
                self.wf(),
                self.toks() == t,
                i0 <= self.index(),
                r_add_terms(t, i0) == self.index(),
            decreases t.len() - self.index(),
        {
            let start = self.token_index;
            if self.syntax_add_operator().is_err() {
                self.token_index = start;
                break;
            }
            if self.syntax_term().is_err() {
                self.token_index = start;
                break;
            }
        }
    }

    /// SimpleExpression := Term {AddOperator Term}
    pub fn syntax_simple_expression(&mut self) -> (r: Result<(), SyntaxError>)
        requires
            old(self).wf(),
        ensures
            final(self).wf(),
            final(self).toks() == old(self).toks(),
            ok_or_back(old(self).toks(), old(self).index(), final(self).index(), r,
                p_simple_expression(old(self).toks(), old(self).index())),
        decreases old(self).toks().len() - old(self).index(), 7nat,
    {
        let start = self.token_index;
        if let Err(e) = self.syntax_term() {
            self.token_index = start;
            return Err(e);
        }
        self.repeat_add_terms();
        Ok(())
    }

    /// Repetition `{MultOperator Factor}`: matches as often as it can, rolls back a failed attempt, never fails.
    pub fn repeat_mult_factors(&mut self)
        requires
            old(self).wf(),
        ensures
            final(self).wf(),
            final(self).toks() == old(self).toks(),
            final(self).index() == r_mult_factors(old(self).toks(), old(self).index()),
            old(self).index() <= final(self).index(),
        decreases old(self).toks().len() - old(self).index(), 2nat,
    {
        let ghost t = self.toks();
        let ghost i0 = self.index();
        loop
            invariant
                self.wf(),
                self.toks() == t,
                t == old(self).toks(),
                i0 == old(self).index(),
                i0 <= self.index(),
                r_mult_factors(t, i0) == r_mult_factors(t, self.index()),
            ensures
                self.wf(),
                self.toks() == t,
                i0 <= self.index(),
                r_mult_factors(t, i0) == self.index(),
            decreases t.len() - self.index(),
        {
            let start = self.token_index;
            if self.syntax_mult_operator().is_err() {
                self.token_index = start;
                break;
            }
            if self.syntax_factor().is_err() {
                self.token_index = start;
                break;
            }
        }
    }

    /// Term := Factor {MultOperator Factor}
    pub fn syntax_term(&mut self) -> (r: Result<(), SyntaxError>)
        requires
            old(self).wf(),
        ensures
            final(self).wf(),
            final(self).toks() == old(self).toks(),
            ok_or_back(old(self).toks(), old(self).index(), final(self).index(), r,
                p_term(old(self).toks(), old(self).index())),
        decreases old(self).toks().len() - old(self).index(), 6nat,
    {
        let start = self.token_index;
        if let Err(e) = self.syntax_factor() {
            self.token_index = start;
            return Err(e);
        }
        self.repeat_mult_factors();
        Ok(())
    }

    /// Repetition `{, Expression}`: matches as often as it can, rolls back a failed attempt, never fails.
    pub fn repeat_arguments(&mut self)
        requires
            old(self).wf(),
        ensures
            final(self).wf(),
            final(self).toks() == old(self).toks(),
            final(self).index() == r_arguments(old(self).toks(), old(self).index()),
            old(self).index() <= final(self).index(),
        decreases old(self).toks().len() - old(self).index(), 2nat,
    {
        let ghost t = self.toks();
        let ghost i0 = self.index();
        loop
            invariant
                self.wf(),
                self.toks() == t,
                t == old(self).toks(),
                i0 == old(self).index(),
                i0 <= self.index(),
                r_arguments(t, i0) == r_arguments(t, self.index()),
            ensures
                self.wf(),
                self.toks() == t,
                i0 <= self.index(),
                r_arguments(t, i0) == self.index(),
            decreases t.len() - self.index(),
        {
            let start = self.token_index;
            if self.terminal_token(TokenType::Operator, ",", "Factor := ( ( Expression ) ) | Constant | ( Identifier [ ( [ Expression {, Expression} ] ) ] )").is_err() {
                self.token_index = start;
                break;
            }
            if self.syntax_expression().is_err() {
                self.token_index = start;
                break;
            }
        }
    }

    /// `[ ( [Expression {, Expression}] ) ]` after an identifier in a factor.
    pub fn syntax_call_suffix(&mut self)
        requires
            old(self).wf(),
        ensures
            final(self).wf(),
            final(self).toks() == old(self).toks(),
            final(self).index() == p_call_suffix(old(self).toks(), old(self).index()),
            old(self).index() <= final(self).index(),
        decreases old(self).toks().len() - old(self).index(), 3nat,
    {
        let ebnf = "Factor := ( ( Expression ) ) | Constant | ( Identifier [ ( [ Expression {, Expression} ] ) ] )";
        let start = self.token_index;
        if self.terminal_token(TokenType::Operator, "(", ebnf).is_err() {
            return;
        }
        if self.syntax_expression().is_ok() {
            self.repeat_arguments();
        }
        if self.terminal_token(TokenType::Operator, ")", ebnf).is_err() {
            self.token_index = start;
        }
    }

    /// Factor := ( Expression ) | Constant | Identifier [( [Expression {, Expression}] )]
    pub fn syntax_factor(&mut self) -> (r: Result<(), SyntaxError>)
        requires
            old(self).wf(),
        ensures
            final(self).wf(),
            final(self).toks() == old(self).toks(),
            ok_or_back(old(self).toks(), old(self).index(), final(self).index(), r,
                p_factor(old(self).toks(), old(self).index())),
        decreases old(self).toks().len() - old(self).index(), 5nat,
    {
        let ebnf = "Factor := ( ( Expression ) ) | Constant | ( Identifier [ ( [ Expression {, Expression} ] ) ] )";
        let start = self.token_index;
        if self.terminal_token(TokenType::Operator, "(", ebnf).is_ok() {
            if self.syntax_expression().is_ok() {
                if self.terminal_token(TokenType::Operator, ")", ebnf).is_ok() {
                    return Ok(());
                }
            }
            self.token_index = start;
        }
        if self.syntax_constant().is_ok() {
            return Ok(());
        }
        if self.terminal_token(TokenType::Identifier, "", ebnf).is_ok() {
            self.syntax_call_suffix();
            return Ok(());
        }
        Err(self.error_here(ebnf))
    }

    /// RelationOperator := == | < | > | <= | >= | !=
    pub fn syntax_relation_operator(&mut self) -> (r: Result<(), SyntaxError>)
        requires
            old(self).wf(),
        ensures
            final(self).wf(),
            final(self).toks() == old(self).toks(),
            ok_or_back(old(self).toks(), old(self).index(), final(self).index(), r,
                p_relation_operator(old(self).toks(), old(self).index())),
        decreases old(self).toks().len() - old(self).index(), 1nat,
    {
        let ebnf = "RelationOperator := ( == ) | < | > | ( <= ) | ( >= ) | ( != )";
        if self.terminal_token(TokenType::Operator, "==", ebnf).is_ok() {
            return Ok(());
        }
        if self.terminal_token(TokenType::Operator, "<", ebnf).is_ok() {
            return Ok(());
        }
        if self.terminal_token(TokenType::Operator, ">", ebnf).is_ok() {
            return Ok(());
        }
        if self.terminal_token(TokenType::Operator, "<=", ebnf).is_ok() {
            return Ok(());
        }
        if self.terminal_token(TokenType::Operator, ">=", ebnf).is_ok() {
            return Ok(());
        }
        if self.terminal_token(TokenType::Operator, "!=", ebnf).is_ok() {
            return Ok(());
        }
        Err(self.error_here(ebnf))
    }

    /// AddOperator := + | -
    pub fn syntax_add_operator(&mut self) -> (r: Result<(), SyntaxError>)
        requires
            old(self).wf(),
        ensures
            final(self).wf(),
            final(self).toks() == old(self).toks(),
            ok_or_back(old(self).toks(), old(self).index(), final(self).index(), r,
                p_add_operator(old(self).toks(), old(self).index())),
        decreases old(self).toks().len() - old(self).index(), 1nat,
    {
        let ebnf = "AddOperator := + | -";
        if self.terminal_token(TokenType::Operator, "+", ebnf).is_ok() {
            return Ok(());
        }
        if self.terminal_token(TokenType::Operator, "-", ebnf).is_ok() {
            return Ok(());
        }
        Err(self.error_here(ebnf))
    }

    /// MultOperator := * | /
    pub fn syntax_mult_operator(&mut self) -> (r: Result<(), SyntaxError>)
        requires
            old(self).wf(),
        ensures
            final(self).wf(),
            final(self).toks() == old(self).toks(),
            ok_or_back(old(self).toks(), old(self).index(), final(self).index(), r,
                p_mult_operator(old(self).toks(), old(self).index())),
        decreases old(self).toks().len() - old(self).index(), 1nat,
    {
        let ebnf = "MultOperator := * | /";
        if self.terminal_token(TokenType::Operator, "*", ebnf).is_ok() {
            return Ok(());
        }
        if self.terminal_token(TokenType::Operator, "/", ebnf).is_ok() {
            return Ok(());
        }
        Err(self.error_here(ebnf))
    }

    /// Checks the whole token sequence; reports success or the first syntax error.
    pub fn run(&mut self) -> (r: String)
        requires
            old(self).wf(),
        ensures
            r@ == report(old(self).toks(), old(self).index()),
    {
        match self.syntax_program() {
            Ok(_) => "Input program is syntactically correct.".to_owned(),
            Err(e) => e.message(),
        }
    }
}

/// Parsing is a function of the text: identical texts get identical reports.
pub proof fn lemma_parse_deterministic(a: Seq<char>, b: Seq<char>)
    requires
        a == b,
    ensures
        report(lex(a), 0) == report(lex(b), 0),
{
}

} // verus!
