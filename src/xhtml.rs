//! Renders a token sequence as a syntax-highlighted XHTML page.
use vstd::prelude::*;

use crate::parser::Parser;
use crate::text::{chars_of, push_chars, text_of};
use crate::token::{Token, TokenType, TokenView};

verus! {

/// Text before the first token.
pub open spec fn header() -> Seq<char> {
    "\n<!DOCTYPE html PUBLIC \"-//W3C//DTD XHTML 1.0 Transitional//EN\" \"http://www.w3.org/TR/xhtml1/DTD/xhtml1-transitional.dtd\">\n<html xmlns=\"http://www.w3.org/1999/xhtml\" xml:lang=\"en\">\n<head>\n<title>X Formatted file</title>\n</head>\n<body bgcolor=\"navy\" text=\"orange\" link=\"orange\" vlink=\"orange\">\n<font face=\"Courier New\">\n"@
}

/// Text after the last token.
pub open spec fn footer() -> Seq<char> {
    "\n</font>\n</body>\n</html>\n"@
}

/// `n` line breaks.
pub open spec fn breaks(n: int) -> Seq<char>
    decreases n,
{
    if n <= 0 {
        Seq::empty()
    } else {
        "<br />\n"@ + breaks(n - 1)
    }
}

/// Spacing from column `from` to column `to`: four non-breaking spaces per whole group of
/// four columns, then plain spaces.
pub open spec fn pad(from: int, to: int) -> Seq<char>
    decreases to - from,
{
    if from >= to {
        Seq::empty()
    } else if from + 4 <= to {
        "&nbsp;&nbsp;&nbsp;&nbsp;"@ + pad(from + 4, to)
    } else {
        " "@ + pad(from + 1, to)
    }
}

/// The markup of a token's text, coloured by kind.
pub open spec fn colored(t: TokenView) -> Seq<char> {
    match t.kind {
        TokenType::Keyword | TokenType::Operator => "<font color=\"white\"><b>"@ + t.text
            + "</b></font>"@,
        TokenType::IntConstant | TokenType::FloatConstant => "<font color=\"aqua\"><b>"@ + t.text
            + "</b></font>"@,
        TokenType::Identifier => "<font color=\"yellow\">"@ + t.text + "</font>"@,
        TokenType::Invalid => "<font color=\"red\">"@ + t.text + "</font>"@,
    }
}

/// A token's markup, with the breaks and spacing that lead to it from (`line`, `pos`).
pub open spec fn piece(t: TokenView, line: int, pos: int) -> Seq<char> {
    if line < t.line {
        breaks(t.line - line) + pad(0, t.col) + colored(t)
    } else {
        pad(pos, t.col) + colored(t)
    }
}

/// The markup of `toks`, starting at (`line`, `pos`).
pub open spec fn body(toks: Seq<TokenView>, line: int, pos: int) -> Seq<char>
    decreases toks.len(),
{
    if toks.len() == 0 {
        Seq::empty()
    } else {
        let t = toks[0];
        piece(t, line, pos) + body(toks.drop_first(), t.line, t.col + t.text.len())
    }
}

/// The whole page for `toks`.
pub open spec fn render(toks: Seq<TokenView>) -> Seq<char> {
    header() + body(toks, 0, 0) + footer()
}

/// Appends the markup of one token to `out`.
fn push_colored(out: &mut Vec<char>, tok: &Token)
    ensures
        final(out)@ == old(out)@ + colored(tok@),
{
    let text = chars_of(tok.text.as_str());
    match tok.token_type {
        TokenType::Keyword | TokenType::Operator => {
            push_chars(out, &chars_of("<font color=\"white\"><b>"));
            push_chars(out, &text);
            push_chars(out, &chars_of("</b></font>"));
        },
        TokenType::IntConstant | TokenType::FloatConstant => {
            push_chars(out, &chars_of("<font color=\"aqua\"><b>"));
            push_chars(out, &text);
            push_chars(out, &chars_of("</b></font>"));
        },
        TokenType::Identifier => {
            push_chars(out, &chars_of("<font color=\"yellow\">"));
            push_chars(out, &text);
            push_chars(out, &chars_of("</font>"));
        },
        TokenType::Invalid => {
            push_chars(out, &chars_of("<font color=\"red\">"));
            push_chars(out, &text);
            push_chars(out, &chars_of("</font>"));
        },
    }
    assert(final(out)@ =~= old(out)@ + colored(tok@));
}

/// Appends the breaks and spacing that lead from (`line`, `pos`) to `tok`, then its markup.
fn push_piece(out: &mut Vec<char>, tok: &Token, line: i128, pos: i128)
    requires
        -0x4_0000_0000_0000_0000 <= pos <= 0x4_0000_0000_0000_0000,
    ensures
        final(out)@ == old(out)@ + piece(tok@, line as int, pos as int),
{
    let target_line = tok.line_num as i128;
    let target_col = tok.char_pos as i128;
    let mut l = line;
    let mut p = pos;
    let ghost lead = if line < target_line { breaks(target_line - line) } else { Seq::empty() };
    let ghost pad_from = if line < target_line { 0int } else { pos as int };
    let br = chars_of("<br />\n");
    let nb = chars_of("&nbsp;&nbsp;&nbsp;&nbsp;");
    let sp = chars_of(" ");
    while l < target_line
        invariant
            line <= l,
            line < target_line ==> out@ + breaks(target_line - l) == old(out)@ + lead && (l > line ==> p == 0),
            line >= target_line ==> out@ == old(out)@ && p == pos && l == line,
            l <= target_line || l == line,
            br@ == "<br />\n"@,
            target_line == tok@.line,
        decreases target_line - l,
    {
        push_chars(out, &br);
        l = l + 1;
        p = 0;
        assert(out@ + breaks(target_line - l) =~= old(out)@ + lead);
    }
    assert(out@ == old(out)@ + lead) by {
        if line < target_line {
            assert(breaks(target_line - l) =~= Seq::<char>::empty());
        } else {
            assert(lead =~= Seq::<char>::empty());
        }
    }
    assert(p == pad_from);
    let ghost mid = out@;
    while p < target_col
        invariant
            out@ + pad(p as int, target_col as int) == mid + pad(pad_from, target_col as int),
            p <= target_col || p == pad_from,
            nb@ == "&nbsp;&nbsp;&nbsp;&nbsp;"@,
            sp@ == " "@,
            target_col == tok@.col,
            -0x8000_0000 <= target_col < 0x8000_0000,
            p >= -0x4_0000_0000_0000_0000,
        decreases target_col - p,
    {
        if p + 4 <= target_col {
            push_chars(out, &nb);
            p = p + 4;
        } else {
            push_chars(out, &sp);
            p = p + 1;
        }
        assert(out@ + pad(p as int, target_col as int) =~= mid + pad(pad_from, target_col as int));
    }
    assert(out@ == mid + pad(pad_from, target_col as int)) by {
        assert(pad(p as int, target_col as int) =~= Seq::<char>::empty());
    }
    push_colored(out, tok);
    assert(final(out)@ =~= old(out)@ + piece(tok@, line as int, pos as int));
}

/// Formats the tokens of a program as an XHTML page.
pub struct XHTML {
    parser: Parser,
    res: String,
}

impl XHTML {
    /// The tokens being formatted.
    pub closed spec fn tokens(&self) -> Seq<TokenView> {
        self.parser.toks()
    }

    /// The page produced last; empty before the first one.
    pub closed spec fn result(&self) -> Seq<char> {
        self.res@
    }

    /// A formatter for the tokens of `contents`.
    pub fn new(contents: &str) -> (r: XHTML)
        requires
            contents@.len() < i32::MAX,
        ensures
            r.tokens() == crate::scanner::lex(contents@),
            r.result() == Seq::<char>::empty(),
    {
        XHTML { parser: Parser::new(contents), res: String::new() }
    }

    /// The page for the parser's tokens; it is also kept as the latest result.
    pub fn for_result(&mut self) -> (r: String)
        ensures
            r@ == render(old(self).tokens()),
            final(self).result() == r@,
            final(self).tokens() == old(self).tokens(),
    {
        let mut out = chars_of("\n<!DOCTYPE html PUBLIC \"-//W3C//DTD XHTML 1.0 Transitional//EN\" \"http://www.w3.org/TR/xhtml1/DTD/xhtml1-transitional.dtd\">\n<html xmlns=\"http://www.w3.org/1999/xhtml\" xml:lang=\"en\">\n<head>\n<title>X Formatted file</title>\n</head>\n<body bgcolor=\"navy\" text=\"orange\" link=\"orange\" vlink=\"orange\">\n<font face=\"Courier New\">\n");
        let ghost toks = self.parser.toks();
        let all = self.parser.tokens();
        let n = all.len();
        let mut line: i128 = 0;
        let mut pos: i128 = 0;
        let mut k: usize = 0;
        assert(toks.subrange(0, n as int) =~= toks);
        while k < n
            invariant
                n == all@.len(),
                toks == old(self).parser.toks(),
                toks == crate::scanner::views(all@),
                k <= n,
                out@ + body(toks.subrange(k as int, n as int), line as int, pos as int) == header()
                    + body(toks, 0, 0),
                -0x4_0000_0000_0000_0000 <= pos <= 0x4_0000_0000_0000_0000,
            decreases n - k,
        {
            let tok = &all[k];
            push_piece(&mut out, tok, line, pos);
            let len = chars_of(tok.text.as_str()).len();
            line = tok.line_num as i128;
            pos = tok.char_pos as i128 + len as i128;
            proof {
                let rest = toks.subrange(k as int, n as int);
                assert(rest[0] == tok@);
                assert(rest.drop_first() =~= toks.subrange(k + 1, n as int));
            }
            k = k + 1;
        }
        proof {
            assert(toks.subrange(n as int, n as int) =~= Seq::<TokenView>::empty());
        }
        push_chars(&mut out, &chars_of("\n</font>\n</body>\n</html>\n"));
        assert(out@ =~= render(toks));
        let r = text_of(&out);
        self.res = text_of(&out);
        r
    }
}

} // verus!
