//! The maximal-munch lexer.
use vstd::prelude::*;

use crate::cstream::{pos_of, lemma_pos_bounded, CStream};
use crate::text::text_of;
use crate::token::{
    alphanumeric, classify, classify_text, is_alphanumeric, is_operator_start, is_whitespace,
    starts_operator, whitespace, Token, TokenView,
};

verus! {

/// The candidate `cand` and the character `next` together form a two-character operator.
pub open spec fn joins_operator(cand: Seq<char>, next: char) -> bool {
    cand.len() == 1 && next == '=' && (cand[0] == '=' || cand[0] == '<' || cand[0] == '>'
        || cand[0] == '!')
}

/// Whether the non-empty candidate lexeme `cand` takes `next` as its next character. No
/// candidate takes whitespace. A candidate that begins like an operator takes another
/// operator character only to form a two-character operator (`<=` is one lexeme), and never
/// takes a letter, digit or `_`; any other candidate stops before a character that begins an
/// operator.
pub open spec fn extends(cand: Seq<char>, next: char) -> bool {
    !whitespace(next) && if is_operator_start(cand[0]) {
        if is_operator_start(next) {
            joins_operator(cand, next)
        } else {
            !(alphanumeric(next) || next == '_')
        }
    } else {
        !is_operator_start(next)
    }
}

/// End (exclusive) of the candidate lexeme that begins at index `j` and has reached index `i`.
pub open spec fn munch_end(s: Seq<char>, j: int, i: int) -> int
    decreases s.len() - i,
{
    if i < 0 || i >= s.len() {
        i
    } else if extends(s.subrange(j, i), s[i]) {
        munch_end(s, j, i + 1)
    } else {
        i
    }
}

/// The candidate lexeme stops no earlier than where it has reached, and within the text.
pub proof fn lemma_munch_end_bounds(s: Seq<char>, j: int, i: int)
    requires
        0 <= i <= s.len(),
    ensures
        i <= munch_end(s, j, i) <= s.len(),
    decreases s.len() - i,
{
    if i < s.len() && extends(s.subrange(j, i), s[i]) {
        lemma_munch_end_bounds(s, j, i + 1);
    }
}

/// The lexeme that starts at index `j`.
pub open spec fn lexeme_at(s: Seq<char>, j: int) -> Seq<char> {
    s.subrange(j, munch_end(s, j, j + 1))
}

/// The token that starts at index `j`.
pub open spec fn token_at(s: Seq<char>, j: int) -> TokenView {
    TokenView {
        kind: classify(lexeme_at(s, j)),
        text: lexeme_at(s, j),
        line: pos_of(s, j).0,
        col: pos_of(s, j).1,
    }
}

/// The tokens of `s` from index `i` on.
pub open spec fn lex_from(s: Seq<char>, i: int) -> Seq<TokenView>
    decreases s.len() - i,
    via lex_from_decreases
{
    if i < 0 || i >= s.len() {
        Seq::empty()
    } else if whitespace(s[i]) {
        lex_from(s, i + 1)
    } else {
        seq![token_at(s, i)] + lex_from(s, munch_end(s, i, i + 1))
    }
}

#[via_fn]
proof fn lex_from_decreases(s: Seq<char>, i: int) {
    if 0 <= i < s.len() && !whitespace(s[i]) {
        lemma_munch_end_bounds(s, i, i + 1);
    }
}

/// The token sequence of the source text `s`.
pub open spec fn lex(s: Seq<char>) -> Seq<TokenView> {
    lex_from(s, 0)
}

/// The views of a sequence of tokens.
pub open spec fn views(v: Seq<Token>) -> Seq<TokenView> {
    v.map_values(|t: Token| t@)
}

/// Splits source text into tokens, keeping a log of every token produced.
pub struct Scanner {
    t: CStream,
    pub all_tokens: Vec<Token>,
}

impl Scanner {
    /// The source text being scanned.
    pub closed spec fn source(&self) -> Seq<char> {
        self.t.text()
    }

    /// Index of the first character not yet read.
    pub closed spec fn position(&self) -> int {
        self.t.consumed()
    }

    /// The tokens produced so far.
    pub closed spec fn tokens(&self) -> Seq<TokenView> {
        views(self.all_tokens@)
    }

    /// The log and the rest of the text together give the tokens of the whole text.
    pub closed spec fn wf(&self) -> bool {
        &&& self.t.wf()
        &&& self.tokens() + lex_from(self.source(), self.position()) == lex(self.source())
    }

    /// A scanner at the start of `contents`.
    pub fn new(contents: &str) -> (r: Scanner)
        requires
            contents@.len() < i32::MAX,
        ensures
            r.wf(),
            r.source() == contents@,
            r.position() == 0,
            r.tokens() == Seq::<TokenView>::empty(),
    {
        let r = Scanner { t: CStream::new(contents), all_tokens: Vec::new() };
        assert(r.tokens() =~= Seq::<TokenView>::empty());
        assert(r.tokens() + lex_from(r.source(), 0) =~= lex(r.source()));
        r
    }

    /// The next token of the text, or `None` at its end; each token is also logged.
    pub fn next_token(&mut self) -> (r: Option<Token>)
        requires
            old(self).wf(),
        ensures
            final(self).wf(),
            final(self).source() == old(self).source(),
            match r {
                None => {
                    &&& lex_from(old(self).source(), old(self).position()).len() == 0
                    &&& lex_from(final(self).source(), final(self).position()).len() == 0
                    &&& final(self).tokens() == old(self).tokens()
                },
                Some(tok) => {
                    &&& lex_from(old(self).source(), old(self).position()).len() > 0
                    &&& tok@ == lex_from(old(self).source(), old(self).position())[0]
                    &&& final(self).tokens() == old(self).tokens().push(tok@)
                    &&& lex_from(final(self).source(), final(self).position())
                        == lex_from(old(self).source(), old(self).position()).drop_first()
                },
            },
    {
        let ghost s = self.source();
        let ghost start = self.position();
        proof {
            self.t.lemma_bounds();
        }
        if !self.t.more_available() {
            return None;
        }
        let mut c = self.t.get_next_char();
        while is_whitespace(c)
            invariant
                self.t.wf(),
                self.t.text() == s,
                s == old(self).source(),
                start == old(self).position(),
                old(self).wf(),
                self.all_tokens == old(self).all_tokens,
                1 <= self.t.consumed() <= s.len(),
                c == s[self.t.consumed() - 1],
                lex_from(s, start) == lex_from(s, self.t.consumed() - 1),
                (self.t.line(), self.t.col()) == pos_of(s, self.t.consumed() - 1),
            decreases s.len() - self.t.consumed(),
        {
            if !self.t.more_available() {
                return None;
            }
            c = self.t.get_next_char();
        }
        let ghost j = self.t.consumed() - 1;
        assert(!whitespace(s[j]));
        let line = self.t.current_line();
        let col = self.t.current_column();
        let first_op = starts_operator(c);
        let mut cand: Vec<char> = vec![c];
        proof {
            assert(cand@ =~= s.subrange(j, j + 1));
        }
        loop
            invariant
                self.t.wf(),
                self.t.text() == s,
                s == old(self).source(),
                start == old(self).position(),
                old(self).wf(),
                self.all_tokens == old(self).all_tokens,
                0 <= j < s.len(),
                j + 1 <= self.t.consumed() <= s.len(),
                c == s[j],
                cand@ == s.subrange(j, self.t.consumed()),
                munch_end(s, j, self.t.consumed()) == munch_end(s, j, j + 1),
                first_op == is_operator_start(c),
            ensures
                munch_end(s, j, self.t.consumed()) == self.t.consumed(),
            decreases s.len() - self.t.consumed(),
        {
            if !self.t.more_available() {
                break;
            }
            let n = self.t.peek_next_char();
            let ok = !is_whitespace(n) && if first_op {
                if starts_operator(n) {
                    cand.len() == 1 && n == '=' && (c == '=' || c == '<' || c == '>' || c == '!')
                } else {
                    !(is_alphanumeric(n) || n == '_')
                }
            } else {
                !starts_operator(n)
            };
            if !ok {
                break;
            }
            let n2 = self.t.get_next_char();
            cand.push(n2);
            proof {
                assert(cand@ =~= s.subrange(j, self.t.consumed()));
            }
        }
        let kind = classify_text(&cand);
        let tok = Token { token_type: kind, text: text_of(&cand), line_num: line, char_pos: col };
        let logged = Token { token_type: kind, text: text_of(&cand), line_num: line, char_pos: col };
        self.all_tokens.push(logged);
        proof {
            assert(lex_from(s, j) == seq![token_at(s, j)] + lex_from(s, self.t.consumed()));
            assert(tok@ == token_at(s, j));
            assert(self.tokens() =~= old(self).tokens().push(tok@));
            assert(lex_from(s, start).drop_first() =~= lex_from(s, self.t.consumed()));
            assert(self.tokens() + lex_from(s, self.t.consumed()) =~= old(self).tokens()
                + lex_from(s, start));
        }
        Some(tok)
    }

    /// Scans the rest of the text; afterwards the log holds every token of the text.
    pub fn run(&mut self)
        requires
            old(self).wf(),
        ensures
            final(self).wf(),
            final(self).source() == old(self).source(),
            final(self).tokens() == lex(old(self).source()),
    {
        loop
            invariant
                self.wf(),
                self.source() == old(self).source(),
            ensures
                self.wf(),
                self.source() == old(self).source(),
                self.tokens() == lex(self.source()),
            decreases lex_from(self.source(), self.position()).len(),
        {
            proof {
                self.t.lemma_bounds();
            }
            match self.next_token() {
                None => {
                    assert(self.tokens() =~= lex(self.source()));
                    break;
                },
                Some(_) => {},
            }
        }
    }
}

/// The tokens of `contents`, in order.
pub fn tokenize(contents: &str) -> (r: Vec<Token>)
    requires
        contents@.len() < i32::MAX,
    ensures
        views(r@) == lex(contents@),
{
    let mut sc = Scanner::new(contents);
    sc.run();
    sc.all_tokens
}

} // verus!

verus! {

/// Strict order on (line, column) positions.
pub open spec fn pos_before(p: (int, int), q: (int, int)) -> bool {
    p.0 < q.0 || (p.0 == q.0 && p.1 < q.1)
}

/// Start indexes of the tokens of `s` from index `i` on.
pub open spec fn starts_from(s: Seq<char>, i: int) -> Seq<int>
    decreases s.len() - i,
    via starts_from_decreases
{
    if i < 0 || i >= s.len() {
        Seq::empty()
    } else if whitespace(s[i]) {
        starts_from(s, i + 1)
    } else {
        seq![i] + starts_from(s, munch_end(s, i, i + 1))
    }
}

#[via_fn]
proof fn starts_from_decreases(s: Seq<char>, i: int) {
    if 0 <= i < s.len() && !whitespace(s[i]) {
        lemma_munch_end_bounds(s, i, i + 1);
    }
}

/// Later characters have later positions.
proof fn lemma_pos_increasing(s: Seq<char>, a: int, b: int)
    requires
        0 <= a < b,
    ensures
        pos_before(pos_of(s, a), pos_of(s, b)),
    decreases b,
{
    if a < b - 1 {
        lemma_pos_increasing(s, a, b - 1);
    }
}

/// The tokens from index `i` start at increasing indexes, each at or after `i`.
proof fn lemma_starts(s: Seq<char>, i: int)
    requires
        0 <= i,
    ensures
        lex_from(s, i).len() == starts_from(s, i).len(),
        forall|a: int| 0 <= a < starts_from(s, i).len() ==> {
            let k = #[trigger] starts_from(s, i)[a];
            &&& i <= k < s.len()
            &&& lex_from(s, i)[a] == token_at(s, k)
        },
        forall|a: int, b: int| 0 <= a < b < starts_from(s, i).len() ==>
            #[trigger] starts_from(s, i)[a] < #[trigger] starts_from(s, i)[b],
    decreases s.len() - i,
{
    if i < s.len() {
        if whitespace(s[i]) {
            lemma_starts(s, i + 1);
        } else {
            let e = munch_end(s, i, i + 1);
            lemma_munch_end_bounds(s, i, i + 1);
            lemma_starts(s, e);
            let st = starts_from(s, i);
            let rest = starts_from(s, e);
            assert(st == seq![i] + rest);
            assert forall|a: int| 0 <= a < st.len() implies {
                let k = #[trigger] st[a];
                &&& i <= k < s.len()
                &&& lex_from(s, i)[a] == token_at(s, k)
            } by {
                if a > 0 {
                    assert(st[a] == rest[a - 1]);
                }
            }
            assert forall|a: int, b: int| 0 <= a < b < st.len() implies #[trigger] st[a] < #[trigger] st[b] by {
                assert(st[b] == rest[b - 1]);
                if a > 0 {
                    assert(st[a] == rest[a - 1]);
                }
            }
        }
    }
}

/// Token positions strictly increase in (line, column), and each token stands in the text
/// at the line and column it records: its text begins at a character whose 0-based line
/// and offset on that line are the token's.
pub proof fn lemma_lex_positions(s: Seq<char>)
    ensures
        forall|a: int, b: int| 0 <= a < b < lex(s).len() ==> pos_before(
            (#[trigger] lex(s)[a].line, lex(s)[a].col),
            (#[trigger] lex(s)[b].line, lex(s)[b].col),
        ),
        forall|a: int| 0 <= a < lex(s).len() ==> exists|k: int| {
            &&& 0 <= k < s.len()
            &&& (#[trigger] lex(s)[a].line, lex(s)[a].col) == pos_of(s, k)
            &&& k + lex(s)[a].text.len() <= s.len()
            &&& lex(s)[a].text == s.subrange(k, k + lex(s)[a].text.len())
        },
{
    lemma_starts(s, 0);
    let st = starts_from(s, 0);
    assert forall|a: int, b: int| 0 <= a < b < lex(s).len() implies pos_before(
        (#[trigger] lex(s)[a].line, lex(s)[a].col),
        (#[trigger] lex(s)[b].line, lex(s)[b].col),
    ) by {
        assert(st[a] < st[b]);
        lemma_pos_increasing(s, st[a], st[b]);
    }
    assert forall|a: int| 0 <= a < lex(s).len() implies exists|k: int| {
        &&& 0 <= k < s.len()
        &&& (#[trigger] lex(s)[a].line, lex(s)[a].col) == pos_of(s, k)
        &&& k + lex(s)[a].text.len() <= s.len()
        &&& lex(s)[a].text == s.subrange(k, k + lex(s)[a].text.len())
    } by {
        let k = st[a];
        lemma_munch_end_bounds(s, k, k + 1);
        assert(lex(s)[a] == token_at(s, k));
    }
}

/// Lexing is a function of the text: identical texts give identical token sequences.
pub proof fn lemma_lex_deterministic(a: Seq<char>, b: Seq<char>)
    requires
        a == b,
    ensures
        lex(a) == lex(b),
{
}

} // verus!
