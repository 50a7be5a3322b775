//! Token model and the classification of candidate lexemes.
use vstd::prelude::*;


verus! {

/// The kinds of token the lexer produces.
#[derive(Clone, Copy, Debug, PartialEq, Eq, Hash, Structural)]
pub enum TokenType {
    IntConstant,
    FloatConstant,
    Keyword,
    Operator,
    Identifier,
    Invalid,
}

/// One lexeme with its kind and the 0-based line and column of its first character.
#[derive(Clone, Debug)]
pub struct Token {
    pub token_type: TokenType,
    pub text: String,
    pub line_num: i32,
    pub char_pos: i32,
}

/// Mathematical view of a token.
pub struct TokenView {
    pub kind: TokenType,
    pub text: Seq<char>,
    pub line: int,
    pub col: int,
}

impl View for Token {
    type V = TokenView;

    open spec fn view(&self) -> TokenView {
        TokenView {
            kind: self.token_type,
            text: self.text@,
            line: self.line_num as int,
            col: self.char_pos as int,
        }
    }
}

impl Token {
    /// Builds a token from its parts.
    pub fn new(token_type: TokenType, text: &str, line_num: i32, char_pos: i32) -> (r: Token)
        ensures
            r@ == (TokenView { kind: token_type, text: text@, line: line_num as int, col: char_pos as int }),
    {
        Token { token_type, text: text.to_owned(), line_num, char_pos }
    }
}

/// What `char::is_whitespace` answers for a character.
pub uninterp spec fn whitespace(c: char) -> bool;

/// What `char::is_numeric` answers for a character.
pub uninterp spec fn numeric(c: char) -> bool;

/// What `char::is_alphabetic` answers for a character.
pub uninterp spec fn alphabetic(c: char) -> bool;

/// What `char::is_alphanumeric` answers for a character.
pub uninterp spec fn alphanumeric(c: char) -> bool;

/// Relies on `char::is_whitespace`: whether the character has the Unicode `White_Space` property.
#[verifier::external_body]
pub(crate) fn is_whitespace(c: char) -> (r: bool)
    ensures
        r == whitespace(c),
{
    c.is_whitespace()
}

/// Relies on `char::is_numeric`: whether the character is in a Unicode numeric category.
#[verifier::external_body]
pub(crate) fn is_numeric(c: char) -> (r: bool)
    ensures
        r == numeric(c),
{
    c.is_numeric()
}

/// Relies on `char::is_alphabetic`: whether the character has the Unicode `Alphabetic` property.
#[verifier::external_body]
pub(crate) fn is_alphabetic(c: char) -> (r: bool)
    ensures
        r == alphabetic(c),
{
    c.is_alphabetic()
}

/// Relies on `char::is_alphanumeric`: documented as `is_alphabetic() || is_numeric()`.
#[verifier::external_body]
pub(crate) fn is_alphanumeric(c: char) -> (r: bool)
    ensures
        r == alphanumeric(c),
        r == (alphabetic(c) || numeric(c)),
{
    c.is_alphanumeric()
}

/// The reserved words of the language.
pub open spec fn is_keyword_text(t: Seq<char>) -> bool {
    t == seq!['u', 'n', 's', 'i', 'g', 'n', 'e', 'd'] || t == seq!['c', 'h', 'a', 'r']
        || t == seq!['s', 'h', 'o', 'r', 't'] || t == seq!['i', 'n', 't']
        || t == seq!['l', 'o', 'n', 'g'] || t == seq!['f', 'l', 'o', 'a', 't']
        || t == seq!['d', 'o', 'u', 'b', 'l', 'e'] || t == seq!['w', 'h', 'i', 'l', 'e']
        || t == seq!['i', 'f'] || t == seq!['r', 'e', 't', 'u', 'r', 'n']
        || t == seq!['v', 'o', 'i', 'd'] || t == seq!['m', 'a', 'i', 'n']
}

/// The operators of the language.
pub open spec fn is_operator_text(t: Seq<char>) -> bool {
    t == seq!['('] || t == seq![','] || t == seq![')'] || t == seq!['{'] || t == seq!['}']
        || t == seq!['='] || t == seq!['=', '='] || t == seq!['<'] || t == seq!['>']
        || t == seq!['<', '='] || t == seq!['>', '='] || t == seq!['!', '=']
        || t == seq!['+'] || t == seq!['-'] || t == seq!['*'] || t == seq!['/'] || t == seq![';']
}

/// Characters that begin some operator.
pub open spec fn is_operator_start(c: char) -> bool {
    c == '(' || c == ',' || c == ')' || c == '{' || c == '}' || c == '=' || c == '<' || c == '>'
        || c == '!' || c == '+' || c == '-' || c == '*' || c == '/' || c == ';'
}

/// Number of `.` characters in `t`.
pub open spec fn dot_count(t: Seq<char>) -> nat
    decreases t.len(),
{
    if t.len() == 0 {
        0
    } else {
        dot_count(t.drop_last()) + if t.last() == '.' { 1nat } else { 0nat }
    }
}

/// Every character of `t` is numeric.
pub open spec fn all_numeric(t: Seq<char>) -> bool {
    forall|i: int| 0 <= i < t.len() ==> numeric(#[trigger] t[i])
}

/// Every character of `t` other than `.` is numeric.
pub open spec fn numeric_but_dots(t: Seq<char>) -> bool {
    forall|i: int| 0 <= i < t.len() && t[i] != '.' ==> numeric(#[trigger] t[i])
}

/// The kind of a non-empty candidate lexeme, by the fixed order of precedence.
pub open spec fn classify(t: Seq<char>) -> TokenType {
    if is_keyword_text(t) {
        TokenType::Keyword
    } else if is_operator_text(t) {
        TokenType::Operator
    } else if all_numeric(t) {
        TokenType::IntConstant
    } else if (numeric(t[0]) || t[0] == '.') && dot_count(t) == 1 && numeric_but_dots(t) {
        TokenType::FloatConstant
    } else if alphabetic(t[0]) || t[0] == '_' {
        TokenType::Identifier
    } else {
        TokenType::Invalid
    }
}

/// Whether `a` holds exactly the characters of `b`.
pub fn same_text(a: &Vec<char>, b: &Vec<char>) -> (r: bool)
    ensures
        r == (a@ == b@),
{
    if a.len() != b.len() {
        return false;
    }
    let mut i: usize = 0;
    while i < a.len()
        invariant
            a@.len() == b@.len(),
            i <= a@.len(),
            forall|j: int| 0 <= j < i ==> a@[j] == b@[j],
        decreases a@.len() - i,
    {
        if a[i] != b[i] {
            return false;
        }
        i = i + 1;
    }
    assert(a@ =~= b@);
    true
}

/// Whether `t` is a reserved word.
pub fn is_keyword(t: &Vec<char>) -> (r: bool)
    ensures
        r == is_keyword_text(t@),
{
    same_text(t, &vec!['u', 'n', 's', 'i', 'g', 'n', 'e', 'd']) || same_text(t, &vec!['c', 'h', 'a', 'r'])
        || same_text(t, &vec!['s', 'h', 'o', 'r', 't']) || same_text(t, &vec!['i', 'n', 't'])
        || same_text(t, &vec!['l', 'o', 'n', 'g']) || same_text(t, &vec!['f', 'l', 'o', 'a', 't'])
        || same_text(t, &vec!['d', 'o', 'u', 'b', 'l', 'e']) || same_text(t, &vec!['w', 'h', 'i', 'l', 'e'])
        || same_text(t, &vec!['i', 'f']) || same_text(t, &vec!['r', 'e', 't', 'u', 'r', 'n'])
        || same_text(t, &vec!['v', 'o', 'i', 'd']) || same_text(t, &vec!['m', 'a', 'i', 'n'])
}

/// Whether `t` is an operator.
/// Whether `t` is exactly the one character `c`.
fn one_char(t: &Vec<char>, c: char) -> (r: bool)
    ensures
        r == (t@ == seq![c]),
{
    if t.len() == 1 && t[0] == c {
        assert(t@ =~= seq![c]);
        true
    } else {
        false
    }
}

/// Whether `t` is an operator.
pub fn is_operator(t: &Vec<char>) -> (r: bool)
    ensures
        r == is_operator_text(t@),
{
    one_char(t, '(') || one_char(t, ',') || one_char(t, ')') || one_char(t, '{') || one_char(t, '}')
        || one_char(t, '=') || same_text(t, &vec!['=', '=']) || one_char(t, '<') || one_char(t, '>')
        || same_text(t, &vec!['<', '=']) || same_text(t, &vec!['>', '='])
        || same_text(t, &vec!['!', '=']) || one_char(t, '+') || one_char(t, '-') || one_char(t, '*')
        || one_char(t, '/') || one_char(t, ';')
}

/// Whether `c` begins some operator.
pub fn starts_operator(c: char) -> (r: bool)
    ensures
        r == is_operator_start(c),
{
    c == '(' || c == ',' || c == ')' || c == '{' || c == '}' || c == '=' || c == '<' || c == '>'
        || c == '!' || c == '+' || c == '-' || c == '*' || c == '/' || c == ';'
}

/// The kind of a non-empty candidate lexeme.
pub fn classify_text(t: &Vec<char>) -> (r: TokenType)
    requires
        t@.len() > 0,
    ensures
        r == classify(t@),
{
    if is_keyword(t) {
        return TokenType::Keyword;
    }
    if is_operator(t) {
        return TokenType::Operator;
    }
    let mut all_num = true;
    let mut rest_num = true;
    let mut dots: usize = 0;
    let mut i: usize = 0;
    while i < t.len()
        invariant
            i <= t@.len(),
            dots == dot_count(t@.subrange(0, i as int)),
            dots <= i,
            all_num == all_numeric(t@.subrange(0, i as int)),
            rest_num == numeric_but_dots(t@.subrange(0, i as int)),
        decreases t@.len() - i,
    {
        let c = t[i];
        let n = is_numeric(c);
        let ghost s0 = t@.subrange(0, i as int);
        let ghost s1 = t@.subrange(0, i + 1);
        assert(s1.drop_last() =~= s0);
        assert(s1.last() == c);
        if !n {
            all_num = false;
            assert(!numeric(s1[i as int]));
            if c != '.' {
                rest_num = false;
            }
        } else {
            if all_num {
                assert forall|j: int| 0 <= j < s1.len() implies numeric(#[trigger] s1[j]) by {
                    if j < i {
                        assert(s1[j] == s0[j]);
                    } else {
                        assert(s1[j] == c);
                    }
                }
            }
        }
        if c == '.' {
            dots = dots + 1;
        }
        assert(!all_num ==> !all_numeric(s1)) by {
            if !all_num && !all_numeric(s0) {
                let j = choose|j: int| 0 <= j < s0.len() && !numeric(#[trigger] s0[j]);
                assert(s1[j] == s0[j]);
            }
        }
        assert(rest_num == numeric_but_dots(s1)) by {
            if !numeric_but_dots(s0) {
                let j = choose|j: int| 0 <= j < s0.len() && s0[j] != '.' && !numeric(#[trigger] s0[j]);
                assert(s1[j] == s0[j]);
            }
            if rest_num {
                assert forall|j: int| 0 <= j < s1.len() && s1[j] != '.' implies numeric(#[trigger] s1[j]) by {
                    if j < i {
                        assert(s1[j] == s0[j]);
                    }
                }
            }
        }
        i = i + 1;
    }
    assert(t@.subrange(0, t@.len() as int) =~= t@);
    if all_num {
        return TokenType::IntConstant;
    }
    let first = t[0];
    if (is_numeric(first) || first == '.') && dots == 1 && rest_num {
        return TokenType::FloatConstant;
    }
    if is_alphabetic(first) || first == '_' {
        TokenType::Identifier
    } else {
        TokenType::Invalid
    }
}

} // verus!

verus! {

/// Keywords and operators are recognised before any numeric or identifier reading:
/// a keyword is always a `Keyword` (never an `Identifier`), an operator always an `Operator`.
pub proof fn lemma_classify_precedence(t: Seq<char>)
    requires
        t.len() > 0,
    ensures
        is_keyword_text(t) ==> classify(t) == TokenType::Keyword,
        is_operator_text(t) ==> classify(t) == TokenType::Operator,
        classify(t) == TokenType::IntConstant ==> !is_keyword_text(t) && !is_operator_text(t),
        classify(t) == TokenType::FloatConstant ==> !is_keyword_text(t) && !is_operator_text(t),
        classify(t) == TokenType::Identifier ==> !is_keyword_text(t) && !is_operator_text(t),
{
    if is_operator_text(t) {
        assert(!is_keyword_text(t));
    }
}

} // verus!
