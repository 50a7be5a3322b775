//! A character source over source text, with line and column tracking.
use vstd::prelude::*;

use crate::text::chars_of;

verus! {

/// Line and column (both 0-based) of the character at index `i` of `s`.
pub open spec fn pos_of(s: Seq<char>, i: int) -> (int, int)
    decreases i,
{
    if i <= 0 {
        (0, 0)
    } else {
        let p = pos_of(s, i - 1);
        if s[i - 1] == '\n' {
            (p.0 + 1, 0)
        } else {
            (p.0, p.1 + 1)
        }
    }
}

/// Line and column never exceed the index.
pub proof fn lemma_pos_bounded(s: Seq<char>, i: int)
    requires
        0 <= i,
    ensures
        0 <= pos_of(s, i).0 <= i,
        0 <= pos_of(s, i).1 <= i,
    decreases i,
{
    if i > 0 {
        lemma_pos_bounded(s, i - 1);
    }
}

/// Reads source text one character at a time, with look-ahead.
pub struct CStream {
    /// Line of the current character.
    pub line_num: i32,
    /// Column of the current character; -1 before the first one is read.
    pub char_pos: i32,
    chars: Vec<char>,
    next: usize,
}

impl CStream {
    /// The whole source text.
    pub closed spec fn text(&self) -> Seq<char> {
        self.chars@
    }

    /// How many characters have been read; the current one is at index `consumed() - 1`.
    pub closed spec fn consumed(&self) -> int {
        self.next as int
    }

    /// Line of the current character.
    pub closed spec fn line(&self) -> int {
        self.line_num as int
    }

    /// Column of the current character.
    pub closed spec fn col(&self) -> int {
        self.char_pos as int
    }

    /// The position fields describe the current character.
    pub closed spec fn wf(&self) -> bool {
        &&& self.next <= self.chars@.len()
        &&& self.chars@.len() < i32::MAX
        &&& if self.next == 0 {
            self.line_num == 0 && self.char_pos == -1
        } else {
            (self.line_num as int, self.char_pos as int) == pos_of(self.chars@, self.next - 1)
        }
    }

    /// A well-formed stream has read no more than its text.
    pub proof fn lemma_bounds(&self)
        requires
            self.wf(),
        ensures
            0 <= self.consumed() <= self.text().len(),
            self.text().len() < i32::MAX,
    {
    }

    /// A stream positioned before the first character of `contents`.
    pub fn new(contents: &str) -> (r: CStream)
        requires
            contents@.len() < i32::MAX,
        ensures
            r.wf(),
            r.text() == contents@,
            r.consumed() == 0,
            r.line() == 0,
            r.col() == -1,
    {
        CStream { line_num: 0, char_pos: -1, chars: chars_of(contents), next: 0 }
    }

    /// Whether a character remains to be read.
    pub fn more_available(&self) -> (r: bool)
        requires
            self.wf(),
        ensures
            r == (self.consumed() < self.text().len()),
    {
        self.next < self.chars.len()
    }

    /// Reads the next character, which becomes the current one.
    pub fn get_next_char(&mut self) -> (r: char)
        requires
            old(self).wf(),
            old(self).consumed() < old(self).text().len(),
        ensures
            final(self).wf(),
            final(self).text() == old(self).text(),
            final(self).consumed() == old(self).consumed() + 1,
            r == old(self).text()[old(self).consumed()],
            (final(self).line(), final(self).col()) == pos_of(old(self).text(), old(self).consumed()),
    {
        let k = self.next;
        proof {
            lemma_pos_bounded(self.chars@, k as int);
        }
        if k == 0 {
            self.line_num = 0;
            self.char_pos = 0;
        } else if self.chars[k - 1] == '\n' {
            self.line_num = self.line_num + 1;
            self.char_pos = 0;
        } else {
            self.char_pos = self.char_pos + 1;
        }
        self.next = k + 1;
        self.chars[k]
    }

    /// Line of the current character (0 before the first one is read).
    pub fn current_line(&self) -> (r: i32)
        ensures
            r == self.line(),
    {
        self.line_num
    }

    /// Column of the current character (-1 before the first one is read).
    pub fn current_column(&self) -> (r: i32)
        ensures
            r == self.col(),
    {
        self.char_pos
    }

    /// The current character.
    pub fn get_cur_char(&self) -> (r: char)
        requires
            self.wf(),
            self.consumed() > 0,
        ensures
            r == self.text()[self.consumed() - 1],
    {
        self.chars[self.next - 1]
    }

    /// The character after the current one, without reading it.
    pub fn peek_next_char(&self) -> (r: char)
        requires
            self.wf(),
            self.consumed() < self.text().len(),
        ensures
            r == self.text()[self.consumed()],
    {
        self.peek_ahead_char(1)
    }

    /// The character `k` places after the current one, without reading it.
    pub fn peek_ahead_char(&self, k: usize) -> (r: char)
        requires
            self.wf(),
            0 <= self.consumed() + k - 1 < self.text().len(),
        ensures
            r == self.text()[self.consumed() + k - 1],
    {
        self.chars[self.next + k - 1]
    }

    /// Reads `k` characters; the last of them becomes the current one.
    pub fn locate_ahead_char(&mut self, k: usize)
        requires
            old(self).wf(),
            old(self).consumed() + k <= old(self).text().len(),
        ensures
            final(self).wf(),
            final(self).text() == old(self).text(),
            final(self).consumed() == old(self).consumed() + k,
    {
        let mut i: usize = 0;
        while i < k
            invariant
                self.wf(),
                self.text() == old(self).text(),
                self.consumed() == old(self).consumed() + i,
                i <= k,
                old(self).consumed() + k <= old(self).text().len(),
            decreases k - i,
        {
            self.get_next_char();
            i = i + 1;
        }
    }
}

} // verus!
