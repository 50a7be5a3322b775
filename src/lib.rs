//! Lexer and backtracking recursive-descent syntax validator for the X teaching language,
//! with a syntax-highlighted XHTML view of the tokens.
pub mod text;
pub mod token;
pub mod cstream;
pub mod scanner;
pub mod grammar;
pub mod parser;
pub mod xhtml;
