use vstd::prelude::*;
use vstd::slice::slice_subrange;
use vstd::std_specs::iter::IteratorSpec;

use crate::span::Span;
use crate::token::{lookup_ident, lower_of, spec_keyword_kind, Token, TokenKind};

verus! {

/// The character at `i`, or `'\0'` past the end.
pub open spec fn char_at(chars: Seq<char>, i: int) -> char {
    if 0 <= i < chars.len() {
        chars[i]
    } else {
        '\0'
    }
}

pub open spec fn is_digit(c: char) -> bool {
    '0' <= c <= '9'
}

pub open spec fn is_letter(c: char) -> bool {
    ('a' <= c <= 'z') || ('A' <= c <= 'Z')
}

/// A character that may continue an identifier.
pub open spec fn is_word_char(c: char) -> bool {
    is_letter(c) || is_digit(c) || c == '_'
}

pub open spec fn is_space(c: char) -> bool {
    c == ' ' || c == '\t' || c == '\n' || c == '\r' || c == '\x0C'
}

fn digit(c: char) -> (r: bool)
    ensures
        r == is_digit(c),
{
    '0' <= c && c <= '9'
}

fn hex_digit(c: char) -> (r: bool) {
    ('0' <= c && c <= '9') || ('a' <= c && c <= 'f') || ('A' <= c && c <= 'F')
}

fn radix_digit(c: char, radix: u32) -> (r: bool) {
    if radix == 16 {
        hex_digit(c)
    } else if radix == 8 {
        '0' <= c && c <= '7'
    } else if radix == 2 {
        c == '0' || c == '1'
    } else {
        digit(c)
    }
}

fn word_char(c: char) -> (r: bool)
    ensures
        r == is_word_char(c),
{
    ('a' <= c && c <= 'z') || ('A' <= c && c <= 'Z') || ('0' <= c && c <= '9') || c == '_'
}

fn space(c: char) -> (r: bool)
    ensures
        r == is_space(c),
{
    c == ' ' || c == '\t' || c == '\n' || c == '\r' || c == '\x0C'
}

/// Relies on `String`'s `FromIterator<char>`: the string of exactly these characters.
#[verifier::external_body]
fn string_of(chars: &[char]) -> (r: String)
    ensures
        r@ == chars@,
{
    chars.iter().collect()
}

/// The characters of `s`, in order.
pub fn chars_of(s: &String) -> (r: Vec<char>)
    ensures
        r@ == s@,
{
    broadcast use vstd::string::axiom_spec_iter, vstd::string::next_postcondition;

    let text = s.as_str();
    let mut it = text.chars();
    let mut out: Vec<char> = Vec::new();
    loop
        invariant
            it.remaining().len() + out@.len() == s@.len(),
            out@ + it.remaining() == s@,
            it.decrease() is Some,
        decreases it.decrease()->0,
    {
        let ghost before = it;
        match it.next() {
            Some(c) => {
                out.push(c);
                assert(out@ + it.remaining() =~= s@) by {
                    assert(before.remaining() == seq![c] + it.remaining()) by {
                        assert(before.remaining() =~= seq![before.remaining()[0]] + before.remaining().drop_first());
                    }
                }
            },
            None => {
                assert(out@ =~= s@);
                return out;
            },
        }
    }
}

/// Splits source text into tokens.
pub struct Lexer {
    pub chars: Vec<char>,
    pub pos: usize,
}

impl Lexer {
    pub open spec fn position(&self) -> nat {
        self.pos as nat
    }

    pub open spec fn wf(&self) -> bool {
        &&& self.position() <= self.chars@.len()
        &&& self.chars@.len() < usize::MAX
    }

    pub fn new(chars: Vec<char>) -> (r: Self)
        requires
            chars@.len() < usize::MAX,
        ensures
            r.wf(),
            r.chars@ == chars@,
            r.position() == 0,
    {
        Lexer { chars, pos: 0 }
    }

    fn peek(&self, k: usize) -> (c: char)
        requires
            self.wf(),
            k <= 2,
        ensures
            c == char_at(self.chars@, self.pos + k),
    {
        if k < self.chars.len() - self.pos {
            self.chars[self.pos + k]
        } else {
            '\0'
        }
    }

    /// Skips whitespace and `;` comments.
    fn skip_trivia(&mut self)
        requires
            old(self).wf(),
        ensures
            final(self).wf(),
            final(self).chars@ == old(self).chars@,
            final(self).position() >= old(self).position(),
    {
        while self.pos < self.chars.len()
            invariant
                self.wf(),
                self.chars@ == old(self).chars@,
                self.position() >= old(self).position(),
            decreases self.chars@.len() - self.pos,
        {
            let c = self.chars[self.pos];
            let ghost p0 = self.pos;
            if space(c) {
                self.pos = self.pos + 1;
            } else if c == ';' {
                self.pos = self.pos + 1;
                while self.pos < self.chars.len() && self.chars[self.pos] != '\n'
                    invariant
                        self.wf(),
                        self.pos > p0,
                        self.chars@ == old(self).chars@,
                        self.position() >= old(self).position(),
                    decreases self.chars@.len() - self.pos,
                {
                    self.pos = self.pos + 1;
                }
            } else {
                return;
            }
        }
    }

    fn take_while_word(&mut self)
        requires
            old(self).wf(),
        ensures
            final(self).wf(),
            final(self).chars@ == old(self).chars@,
            final(self).position() >= old(self).position(),
            forall|i: int| old(self).position() <= i < final(self).position() ==> is_word_char(#[trigger] final(self).chars@[i]),
    {
        while self.pos < self.chars.len() && word_char(self.chars[self.pos])
            invariant
                self.wf(),
                self.chars@ == old(self).chars@,
                self.position() >= old(self).position(),
                forall|i: int| old(self).position() <= i < self.position() ==> is_word_char(#[trigger] self.chars@[i]),
            decreases self.chars@.len() - self.pos,
        {
            self.pos = self.pos + 1;
        }
    }

    fn take_digits(&mut self, radix: u32)
        requires
            old(self).wf(),
        ensures
            final(self).wf(),
            final(self).chars@ == old(self).chars@,
            final(self).position() >= old(self).position(),
    {
        while self.pos < self.chars.len() && radix_digit(self.chars[self.pos], radix)
            invariant
                self.wf(),
                self.chars@ == old(self).chars@,
                self.position() >= old(self).position(),
            decreases self.chars@.len() - self.pos,
        {
            self.pos = self.pos + 1;
        }
    }

    fn text(&self, start: usize) -> (r: String)
        requires
            self.wf(),
            start <= self.position(),
        ensures
            r@ == self.chars@.subrange(start as int, self.position() as int),
    {
        string_of(slice_subrange(self.chars.as_slice(), start, self.pos))
    }

    fn read_number(&mut self) -> (t: Token)
        requires
            old(self).wf(),
            old(self).position() < old(self).chars@.len(),
            is_digit(old(self).chars@[old(self).position() as int]),
        ensures
            final(self).wf(),
            final(self).chars@ == old(self).chars@,
            final(self).position() > old(self).position(),
            t.loc.start == old(self).pos && t.loc.end == final(self).pos,
            t.literal@ == old(self).chars@.subrange(old(self).position() as int, final(self).position() as int),
    {
        let start = self.pos;
        let c1 = self.peek(1);
        let kind = if self.chars[start] == '0' && (c1 == 'x' || c1 == 'X' || c1 == 'b' || c1 == 'B' || c1 == 'o' || c1 == 'O') {
            self.pos = self.pos + 2;
            if c1 == 'x' || c1 == 'X' {
                self.take_digits(16);
                TokenKind::Hexadecimal
            } else if c1 == 'b' || c1 == 'B' {
                self.take_digits(2);
                TokenKind::Binary
            } else {
                self.take_digits(8);
                TokenKind::Octal
            }
        } else {
            self.pos = self.pos + 1;
            self.take_digits(10);
            if self.peek(0) == '.' && digit(self.peek(1)) {
                self.pos = self.pos + 1;
                self.take_digits(10);
                TokenKind::Float
            } else {
                TokenKind::Integer
            }
        };
        Token::new_owned(kind, self.text(start), Span::new(start, self.pos))
    }

    /// An identifier, a keyword, or (with `directive`) a `#`/`.` directive.
    fn read_word(&mut self, directive: bool) -> (t: Token)
        requires
            old(self).wf(),
            old(self).position() < old(self).chars@.len(),
        ensures
            final(self).wf(),
            final(self).chars@ == old(self).chars@,
            final(self).position() > old(self).position(),
            t.loc.start == old(self).pos && t.loc.end == final(self).pos,
            t.literal@ == old(self).chars@.subrange(old(self).position() as int, final(self).position() as int),
            t.kind == spec_keyword_kind(lower_of(t.literal@)),
    {
        let start = self.pos;
        self.pos = self.pos + 1;
        self.take_while_word();
        let literal = self.text(start);
        let kind = lookup_ident(literal.as_str());
        Token::new_owned(kind, literal, Span::new(start, self.pos))
    }

    /// A string literal; `\\n \\r \\t \\\\ \\"` are escapes and an unknown escape
    /// keeps its backslash.
    fn read_string(&mut self) -> (t: Token)
        requires
            old(self).wf(),
            old(self).position() < old(self).chars@.len(),
        ensures
            final(self).wf(),
            final(self).chars@ == old(self).chars@,
            final(self).position() > old(self).position(),
            t.kind == TokenKind::String,
            t.loc.start == old(self).pos && t.loc.end == final(self).pos,
    {
        let start = self.pos;
        self.pos = self.pos + 1;
        let mut out: Vec<char> = Vec::new();
        let mut escaped = false;
        while self.pos < self.chars.len()
            invariant
                self.wf(),
                self.chars@ == old(self).chars@,
                self.position() > old(self).position(),
            decreases self.chars@.len() - self.pos,
        {
            let c = self.chars[self.pos];
            if escaped {
                if c == 'n' {
                    out.push('\n');
                } else if c == 'r' {
                    out.push('\r');
                } else if c == 't' {
                    out.push('\t');
                } else if c == '\\' || c == '"' {
                    out.push(c);
                } else {
                    out.push('\\');
                    out.push(c);
                }
                escaped = false;
            } else if c == '\\' {
                escaped = true;
            } else if c == '"' {
                break;
            } else {
                out.push(c);
            }
            self.pos = self.pos + 1;
        }
        if self.pos < self.chars.len() {
            self.pos = self.pos + 1;
        }
        Token::new_owned(TokenKind::String, string_of(out.as_slice()), Span::new(start, self.pos))
    }

    /// The next token; `Eof` once the input is used up.
    pub fn next_token(&mut self) -> (t: Token)
        requires
            old(self).wf(),
        ensures
            final(self).wf(),
            final(self).chars@ == old(self).chars@,
            final(self).position() >= old(self).position(),
            t.kind != TokenKind::Eof ==> final(self).position() > old(self).position(),
            t.loc.start <= t.loc.end <= final(self).chars@.len() + 1,
    {
        self.skip_trivia();
        let start = self.pos;
        if start >= self.chars.len() {
            return Token::new_static(TokenKind::Eof, "", Span::new(start, start + 1));
        }
        let c = self.chars[start];
        let kind = if c == ',' {
            TokenKind::Comma
        } else if c == ':' {
            TokenKind::Colon
        } else if c == '+' {
            TokenKind::Plus
        } else if c == '-' {
            TokenKind::Minus
        } else if c == '*' {
            TokenKind::Asterisk
        } else if c == '/' {
            TokenKind::Slash
        } else if c == '|' {
            TokenKind::Pipe
        } else if c == '&' {
            TokenKind::Ampersand
        } else if c == '^' {
            TokenKind::Caret
        } else if c == '(' {
            TokenKind::LParen
        } else if c == ')' {
            TokenKind::RParen
        } else if c == '[' {
            TokenKind::LBracket
        } else if c == ']' {
            TokenKind::RBracket
        } else if c == '#' || c == '.' {
            return self.read_word(true);
        } else if c == '"' {
            return self.read_string();
        } else if digit(c) {
            return self.read_number();
        } else if word_char(c) {
            return self.read_word(false);
        } else {
            TokenKind::Illegal
        };
        self.pos = self.pos + 1;
        Token::new_owned(kind, self.text(start), Span::new(start, self.pos))
    }
}

/// All tokens of `chars`, ending with `Eof`.
pub fn tokenize(chars: Vec<char>) -> (r: Vec<Token>)
    requires
        chars@.len() < usize::MAX,
    ensures
        r@.len() > 0,
        r@.last().kind == TokenKind::Eof,
        forall|i: int| 0 <= i < r@.len() - 1 ==> (#[trigger] r@[i]).kind != TokenKind::Eof,
{
    let mut lexer = Lexer::new(chars);
    let mut out: Vec<Token> = Vec::new();
    loop
        invariant
            lexer.wf(),
            forall|i: int| 0 <= i < out@.len() ==> (#[trigger] out@[i]).kind != TokenKind::Eof,
        decreases lexer.chars@.len() - lexer.position(),
    {
        let t = lexer.next_token();
        if t.kind == TokenKind::Eof {
            out.push(t);
            return out;
        }
        out.push(t);
    }
}

} // verus!
