use vstd::prelude::*;

use crate::ast::{BinaryOperator, Expression, SectionType, Statement};
use crate::float::FloatUnit;
use crate::immediate::DataSize;
use crate::lexer::Lexer;
use crate::register::Register;
use crate::span::Span;
use crate::token::{is_word, Token, TokenKind};

verus! {

/// Errors found while parsing.
#[derive(Debug, PartialEq)]
pub enum Error {
    UnexpectedToken { token: Token },
    Expected { expected: String, got: Token },
}

/// The value of the digits `s` in base `radix` (each digit already valid).
pub open spec fn digits_value(s: Seq<char>, radix: nat) -> nat
    decreases s.len(),
{
    if s.len() == 0 {
        0
    } else {
        digits_value(s.drop_last(), radix) * radix + digit_value(s.last())
    }
}

pub open spec fn digit_value(c: char) -> nat {
    if '0' <= c <= '9' {
        (c as nat - '0' as nat) as nat
    } else if 'a' <= c <= 'f' {
        (c as nat - 'a' as nat + 10) as nat
    } else if 'A' <= c <= 'F' {
        (c as nat - 'A' as nat + 10) as nat
    } else {
        16
    }
}

fn digit_of(c: char) -> (r: u32)
    ensures
        r == digit_value(c),
{
    if '0' <= c && c <= '9' {
        (c as u32) - ('0' as u32)
    } else if 'a' <= c && c <= 'f' {
        (c as u32) - ('a' as u32) + 10
    } else if 'A' <= c && c <= 'F' {
        (c as u32) - ('A' as u32) + 10
    } else {
        16
    }
}

/// Reads the digits `s[from..]` in base `radix` as a non-negative `i64`;
/// `None` when a character is no digit of that base or the value exceeds
/// `i64::MAX`.
pub fn parse_digits(s: &Vec<char>, from: usize, radix: u32) -> (r: Option<i64>)
    requires
        2 <= radix <= 16,
        from <= s@.len(),
    ensures
        r matches Some(v) ==> v == digits_value(s@.subrange(from as int, s@.len() as int), radix as nat)
            && from < s@.len(),
{
    if from >= s.len() {
        return None;
    }
    let mut acc: u128 = 0;
    let mut i = from;
    assert(s@.subrange(from as int, from as int) =~= Seq::<char>::empty());
    while i < s.len()
        invariant
            from <= i <= s@.len(),
            2 <= radix <= 16,
            acc <= i64::MAX,
            acc == digits_value(s@.subrange(from as int, i as int), radix as nat),
        decreases s@.len() - i,
    {
        let d = digit_of(s[i]);
        if d >= radix {
            return None;
        }
        assert(acc * (radix as u128) <= 16 * 0x7FFF_FFFF_FFFF_FFFFu128) by (nonlinear_arith)
            requires
                acc <= 0x7FFF_FFFF_FFFF_FFFFu128,
                radix <= 16,
        ;
        let next: u128 = acc * (radix as u128) + (d as u128);
        assert(s@.subrange(from as int, i + 1).drop_last() =~= s@.subrange(from as int, i as int));
        if next > (i64::MAX as u128) {
            return None;
        }
        acc = next;
        i = i + 1;
    }
    Some(acc as i64)
}

/// Builds statements from the tokens of a program.
pub struct Parser {
    pub tokens: Vec<Token>,
    pub pos: usize,
}

impl Parser {
    pub open spec fn wf(&self) -> bool {
        &&& 0 < self.tokens@.len()
        &&& self.pos < self.tokens@.len()
        &&& self.tokens@.last().kind == TokenKind::Eof
    }

    /// Tokens not yet consumed.
    pub open spec fn remaining(&self) -> nat {
        (self.tokens@.len() - self.pos) as nat
    }

    /// A parser over every token that `lexer` still yields.
    pub fn new(lexer: Lexer) -> (r: Self)
        requires
            lexer.wf(),
        ensures
            r.wf(),
            r.pos == 0,
    {
        let mut lexer = lexer;
        let mut tokens: Vec<Token> = Vec::new();
        loop
            invariant
                lexer.wf(),
                tokens@.len() <= lexer.position(),
            decreases lexer.chars@.len() - lexer.position(),
        {
            let t = lexer.next_token();
            let eof = t.kind == TokenKind::Eof;
            tokens.push(t);
            if eof {
                return Parser { tokens, pos: 0 };
            }
        }
    }

    fn cur(&self) -> (t: &Token)
        requires
            self.wf(),
        ensures
            *t == self.tokens@[self.pos as int],
    {
        &self.tokens[self.pos]
    }

    fn cur_kind(&self) -> (k: TokenKind)
        requires
            self.wf(),
        ensures
            k == self.tokens@[self.pos as int].kind,
    {
        self.tokens[self.pos].kind
    }

    fn peek_kind(&self) -> (k: TokenKind)
        requires
            self.wf(),
        ensures
            self.pos + 1 < self.tokens@.len() ==> k == self.tokens@[self.pos + 1].kind,
    {
        if self.pos < self.tokens.len() - 1 {
            self.tokens[self.pos + 1].kind
        } else {
            TokenKind::Eof
        }
    }

    fn next_token(&mut self)
        requires
            old(self).wf(),
        ensures
            final(self).wf(),
            final(self).tokens@ == old(self).tokens@,
            final(self).remaining() <= old(self).remaining(),
            old(self).tokens@[old(self).pos as int].kind != TokenKind::Eof ==> final(self).remaining()
                < old(self).remaining(),
            old(self).pos + 1 < old(self).tokens@.len() ==> final(self).pos == old(self).pos + 1,
    {
        if self.pos < self.tokens.len() - 1 {
            self.pos = self.pos + 1;
        }
    }

    /// The span from `start` to the end of the last consumed token.
    fn span_from(&self, start: usize) -> (r: Span)
        requires
            self.wf(),
        ensures
            r.start == start,
            r.end == (if self.pos > 0 {
                self.tokens@[self.pos - 1].loc.end
            } else {
                self.tokens@[0].loc.end
            }),
    {
        let end = if self.pos > 0 {
            self.tokens[self.pos - 1].loc.end
        } else {
            self.tokens[0].loc.end
        };
        Span::new(start, end)
    }

    fn unexpected(&self) -> (e: Error)
        requires
            self.wf(),
    {
        Error::UnexpectedToken { token: self.cur().clone() }
    }

    fn expect_cur(&mut self, kind: TokenKind) -> (r: Result<(), Error>)
        requires
            old(self).wf(),
        ensures
            final(self).wf(),
            final(self).tokens@ == old(self).tokens@,
            final(self).remaining() <= old(self).remaining(),
    {
        if self.cur_kind() == kind {
            self.next_token();
            Ok(())
        } else {
            let t = if self.pos < self.tokens.len() - 1 {
                self.tokens[self.pos + 1].clone()
            } else {
                self.cur().clone()
            };
            Err(Error::UnexpectedToken { token: t })
        }
    }

    /// Parses every statement up to the end of input.
    pub fn parse<F: FloatUnit>(&mut self, fpu: &F) -> (r: Result<Vec<Statement>, Error>)
        requires
            old(self).wf(),
        ensures
            final(self).wf(),
            r is Ok ==> final(self).tokens@[final(self).pos as int].kind == TokenKind::Eof,
            r matches Ok(stmts) ==> stmts@.len() <= old(self).remaining(),
    {
        let mut stmts: Vec<Statement> = Vec::new();
        while self.cur_kind() != TokenKind::Eof
            invariant
                self.wf(),
                stmts@.len() + self.remaining() <= old(self).remaining(),
            decreases self.remaining(),
        {
            let s = self.parse_statement(fpu)?;
            stmts.push(s);
        }
        Ok(stmts)
    }

    /// The statement of a keyword that takes no operand.
    fn bare_statement(kind: TokenKind, loc: Span) -> (r: Option<Statement>)
        ensures
            kind == TokenKind::KwNop ==> r == Some(Statement::Nop(loc)),
            kind == TokenKind::KwRet ==> r == Some(Statement::Ret(loc)),
            kind == TokenKind::KwSyscall ==> r == Some(Statement::Syscall(loc)),
            kind == TokenKind::KwHlt ==> r == Some(Statement::Hlt(loc)),
            kind == TokenKind::KwElse ==> r == Some(Statement::Else(loc)),
            kind == TokenKind::KwEndIf ==> r == Some(Statement::EndIf(loc)),
            r is Some ==> kind != TokenKind::Identifier,
    {
        match kind {
            TokenKind::KwNop => Some(Statement::Nop(loc)),
            TokenKind::KwRet => Some(Statement::Ret(loc)),
            TokenKind::KwSyscall => Some(Statement::Syscall(loc)),
            TokenKind::KwHlt => Some(Statement::Hlt(loc)),
            TokenKind::KwElse => Some(Statement::Else(loc)),
            TokenKind::KwEndIf => Some(Statement::EndIf(loc)),
            _ => None,
        }
    }

    #[verifier::rlimit(100)]
    fn parse_statement<F: FloatUnit>(&mut self, fpu: &F) -> (r: Result<Statement, Error>)
        requires
            old(self).wf(),
            old(self).tokens@[old(self).pos as int].kind != TokenKind::Eof,
        ensures
            final(self).wf(),
            final(self).tokens@ == old(self).tokens@,
            r is Ok ==> final(self).remaining() < old(self).remaining(),
            ({
                let t = old(self).tokens@[old(self).pos as int];
                &&& t.kind == TokenKind::KwNop ==> r == Ok::<Statement, Error>(Statement::Nop(t.loc))
                &&& t.kind == TokenKind::KwRet ==> r == Ok::<Statement, Error>(Statement::Ret(t.loc))
                &&& t.kind == TokenKind::KwSyscall ==> r == Ok::<Statement, Error>(Statement::Syscall(t.loc))
                &&& t.kind == TokenKind::KwHlt ==> r == Ok::<Statement, Error>(Statement::Hlt(t.loc))
                &&& t.kind == TokenKind::KwElse ==> r == Ok::<Statement, Error>(Statement::Else(t.loc))
                &&& t.kind == TokenKind::KwEndIf ==> r == Ok::<Statement, Error>(Statement::EndIf(t.loc))
                &&& t.kind == TokenKind::Identifier && old(self).tokens@[old(self).pos + 1].kind == TokenKind::Colon
                    ==> r == Ok::<Statement, Error>(Statement::Label(
                    t.literal,
                    Span { start: t.loc.start, end: old(self).tokens@[old(self).pos + 1].loc.end },
                ))
            }),
    {
        let first = self.cur().clone();
        let loc = self.cur().loc;
        let start = self.cur().loc.start;
        let kind = self.cur_kind();
        if let Some(st) = Parser::bare_statement(kind, loc) {
            self.next_token();
            return Ok(st);
        }
        if kind == TokenKind::Identifier {
            if self.peek_kind() != TokenKind::Colon {
                return Err(self.unexpected());
            }
            let name = self.tokens[self.pos].literal.clone();
            self.next_token();
            self.next_token();
            return Ok(Statement::Label(name, self.span_from(start)));
        }
        self.next_token();
        match kind {
            TokenKind::KwDefine => {
                let name = self.parse_expression(fpu)?;
                let value = self.parse_expression(fpu)?;
                Ok(Statement::Define(name, value, self.span_from(start)))
            },
            TokenKind::KwSection => {
                let t = self.cur().clone();
                if t.kind != TokenKind::SectionName {
                    return Err(Error::Expected { expected: "section name (text or data)".to_owned(), got: t });
                }
                let section = if is_word(&t.literal, "text") {
                    SectionType::Text
                } else if is_word(&t.literal, "data") {
                    SectionType::Data
                } else {
                    return Err(Error::UnexpectedToken { token: t });
                };
                self.next_token();
                Ok(Statement::Section(section, self.span_from(start)))
            },
            TokenKind::KwNop => Ok(Statement::Nop(loc)),
            TokenKind::KwPush | TokenKind::KwPop => {
                let size = if self.cur_kind() == TokenKind::DataSize {
                    Some(self.parse_expression(fpu)?)
                } else {
                    None
                };
                let e = self.parse_expression(fpu)?;
                if kind == TokenKind::KwPush {
                    Ok(Statement::Push(size, e, self.span_from(start)))
                } else {
                    Ok(Statement::Pop(size, e, self.span_from(start)))
                }
            },
            TokenKind::KwDb => {
                let mut exprs: Vec<Expression> = Vec::new();
                loop
                    invariant
                        self.wf(),
                        self.tokens@ == old(self).tokens@,
                        self.remaining() < old(self).remaining(),
                        old(self).tokens@[old(self).pos as int].kind == TokenKind::KwDb,
                    decreases self.remaining(),
                {
                    exprs.push(self.parse_expression(fpu)?);
                    if self.cur_kind() == TokenKind::Comma {
                        self.next_token();
                    } else {
                        break;
                    }
                }
                Ok(Statement::Db(exprs, self.span_from(start)))
            },
            TokenKind::KwEntry => {
                let e = self.parse_expression(fpu)?;
                Ok(Statement::Entry(e, self.span_from(start)))
            },
            TokenKind::KwAscii => {
                let e = self.parse_expression(fpu)?;
                Ok(Statement::Ascii(e, self.span_from(start)))
            },
            TokenKind::KwAsciz => {
                let e = self.parse_expression(fpu)?;
                Ok(Statement::Asciz(e, self.span_from(start)))
            },
            TokenKind::KwJmp => {
                let e = self.parse_expression(fpu)?;
                Ok(Statement::Jmp(e, self.span_from(start)))
            },
            TokenKind::KwJeq => {
                let e = self.parse_expression(fpu)?;
                Ok(Statement::Jeq(e, self.span_from(start)))
            },
            TokenKind::KwJne => {
                let e = self.parse_expression(fpu)?;
                Ok(Statement::Jne(e, self.span_from(start)))
            },
            TokenKind::KwJlt => {
                let e = self.parse_expression(fpu)?;
                Ok(Statement::Jlt(e, self.span_from(start)))
            },
            TokenKind::KwJgt => {
                let e = self.parse_expression(fpu)?;
                Ok(Statement::Jgt(e, self.span_from(start)))
            },
            TokenKind::KwJle => {
                let e = self.parse_expression(fpu)?;
                Ok(Statement::Jle(e, self.span_from(start)))
            },
            TokenKind::KwJge => {
                let e = self.parse_expression(fpu)?;
                Ok(Statement::Jge(e, self.span_from(start)))
            },
            TokenKind::KwCall => {
                let e = self.parse_expression(fpu)?;
                Ok(Statement::Call(e, self.span_from(start)))
            },
            TokenKind::KwInc => {
                let e = self.parse_expression(fpu)?;
                Ok(Statement::Inc(e, self.span_from(start)))
            },
            TokenKind::KwDec => {
                let e = self.parse_expression(fpu)?;
                Ok(Statement::Dec(e, self.span_from(start)))
            },
            TokenKind::KwResb => {
                let e = self.parse_expression(fpu)?;
                Ok(Statement::Resb(e, self.span_from(start)))
            },
            TokenKind::KwError => {
                let e = self.parse_expression(fpu)?;
                Ok(Statement::Error(e, self.span_from(start)))
            },
            TokenKind::KwInclude => {
                let e = self.parse_expression(fpu)?;
                Ok(Statement::Include(e, self.span_from(start)))
            },
            TokenKind::KwIfDef => {
                let e = self.parse_expression(fpu)?;
                Ok(Statement::IfDef(e, self.span_from(start)))
            },
            TokenKind::KwIfNDef => {
                let e = self.parse_expression(fpu)?;
                Ok(Statement::IfNDef(e, self.span_from(start)))
            },
            TokenKind::KwMov => {
                let a = self.parse_expression(fpu)?;
                self.expect_cur(TokenKind::Comma)?;
                let b = self.parse_expression(fpu)?;
                Ok(Statement::Mov(a, b, self.span_from(start)))
            },
            TokenKind::KwLdr => {
                let a = self.parse_expression(fpu)?;
                self.expect_cur(TokenKind::Comma)?;
                let b = self.parse_expression(fpu)?;
                Ok(Statement::Ldr(a, b, self.span_from(start)))
            },
            TokenKind::KwStr => {
                let a = self.parse_expression(fpu)?;
                self.expect_cur(TokenKind::Comma)?;
                let b = self.parse_expression(fpu)?;
                Ok(Statement::Str(a, b, self.span_from(start)))
            },
            TokenKind::KwCmp => {
                let a = self.parse_expression(fpu)?;
                self.expect_cur(TokenKind::Comma)?;
                let b = self.parse_expression(fpu)?;
                Ok(Statement::Cmp(a, b, self.span_from(start)))
            },
            TokenKind::KwAdd => {
                let d = self.parse_expression(fpu)?;
                self.expect_cur(TokenKind::Comma)?;
                let a = self.parse_expression(fpu)?;
                self.expect_cur(TokenKind::Comma)?;
                let b = self.parse_expression(fpu)?;
                Ok(Statement::Add(d, a, b, self.span_from(start)))
            },
            TokenKind::KwSub => {
                let d = self.parse_expression(fpu)?;
                self.expect_cur(TokenKind::Comma)?;
                let a = self.parse_expression(fpu)?;
                self.expect_cur(TokenKind::Comma)?;
                let b = self.parse_expression(fpu)?;
                Ok(Statement::Sub(d, a, b, self.span_from(start)))
            },
            TokenKind::KwMul => {
                let d = self.parse_expression(fpu)?;
                self.expect_cur(TokenKind::Comma)?;
                let a = self.parse_expression(fpu)?;
                self.expect_cur(TokenKind::Comma)?;
                let b = self.parse_expression(fpu)?;
                Ok(Statement::Mul(d, a, b, self.span_from(start)))
            },
            TokenKind::KwDiv => {
                let d = self.parse_expression(fpu)?;
                self.expect_cur(TokenKind::Comma)?;
                let a = self.parse_expression(fpu)?;
                self.expect_cur(TokenKind::Comma)?;
                let b = self.parse_expression(fpu)?;
                Ok(Statement::Div(d, a, b, self.span_from(start)))
            },
            TokenKind::KwAnd => {
                let d = self.parse_expression(fpu)?;
                self.expect_cur(TokenKind::Comma)?;
                let a = self.parse_expression(fpu)?;
                self.expect_cur(TokenKind::Comma)?;
                let b = self.parse_expression(fpu)?;
                Ok(Statement::And(d, a, b, self.span_from(start)))
            },
            TokenKind::KwOr => {
                let d = self.parse_expression(fpu)?;
                self.expect_cur(TokenKind::Comma)?;
                let a = self.parse_expression(fpu)?;
                self.expect_cur(TokenKind::Comma)?;
                let b = self.parse_expression(fpu)?;
                Ok(Statement::Or(d, a, b, self.span_from(start)))
            },
            TokenKind::KwXor => {
                let d = self.parse_expression(fpu)?;
                self.expect_cur(TokenKind::Comma)?;
                let a = self.parse_expression(fpu)?;
                self.expect_cur(TokenKind::Comma)?;
                let b = self.parse_expression(fpu)?;
                Ok(Statement::Xor(d, a, b, self.span_from(start)))
            },
            TokenKind::KwShl => {
                let d = self.parse_expression(fpu)?;
                self.expect_cur(TokenKind::Comma)?;
                let a = self.parse_expression(fpu)?;
                self.expect_cur(TokenKind::Comma)?;
                let b = self.parse_expression(fpu)?;
                Ok(Statement::Shl(d, a, b, self.span_from(start)))
            },
            TokenKind::KwShr => {
                let d = self.parse_expression(fpu)?;
                self.expect_cur(TokenKind::Comma)?;
                let a = self.parse_expression(fpu)?;
                self.expect_cur(TokenKind::Comma)?;
                let b = self.parse_expression(fpu)?;
                Ok(Statement::Shr(d, a, b, self.span_from(start)))
            },
            TokenKind::KwElse => Ok(Statement::Else(self.span_from(start))),
            TokenKind::KwEndIf => Ok(Statement::EndIf(self.span_from(start))),
            TokenKind::KwRet => Ok(Statement::Ret(self.span_from(start))),
            TokenKind::KwSyscall => Ok(Statement::Syscall(self.span_from(start))),
            TokenKind::KwHlt => Ok(Statement::Hlt(self.span_from(start))),
            _ => Err(Error::UnexpectedToken { token: first }),
        }
    }

    fn parse_expression<F: FloatUnit>(&mut self, fpu: &F) -> (r: Result<Expression, Error>)
        requires
            old(self).wf(),
        ensures
            final(self).wf(),
            final(self).tokens@ == old(self).tokens@,
            final(self).remaining() <= old(self).remaining(),
        decreases old(self).remaining(), 3nat, 0nat,
    {
        self.parse_binary_expression(0, fpu)
    }

    fn binary_precedence(op: BinaryOperator) -> (p: u8)
        ensures
            p <= 20,
    {
        match op {
            BinaryOperator::Mul | BinaryOperator::Div => 20,
            BinaryOperator::Add | BinaryOperator::Sub => 10,
            BinaryOperator::BitAnd => 5,
            BinaryOperator::BitXor => 4,
            BinaryOperator::BitOr => 3,
        }
    }

    fn parse_binary_expression<F: FloatUnit>(&mut self, min_prec: u8, fpu: &F) -> (r: Result<Expression, Error>)
        requires
            old(self).wf(),
            min_prec <= 21,
        ensures
            final(self).wf(),
            final(self).tokens@ == old(self).tokens@,
            final(self).remaining() <= old(self).remaining(),
        decreases old(self).remaining(), 2nat, (21 - min_prec) as nat,
    {
        let start = self.cur().loc.start;
        let mut lhs = self.parse_primary(fpu)?;
        loop
            invariant
                self.wf(),
                self.tokens@ == old(self).tokens@,
                self.remaining() <= old(self).remaining(),
                min_prec <= 21,
            decreases self.remaining(),
        {
            let op = match self.cur_kind() {
                TokenKind::Plus => BinaryOperator::Add,
                TokenKind::Minus => BinaryOperator::Sub,
                TokenKind::Asterisk => BinaryOperator::Mul,
                TokenKind::Slash => BinaryOperator::Div,
                TokenKind::Pipe => BinaryOperator::BitOr,
                TokenKind::Ampersand => BinaryOperator::BitAnd,
                TokenKind::Caret => BinaryOperator::BitXor,
                _ => break,
            };
            let prec = Parser::binary_precedence(op);
            if prec < min_prec {
                break;
            }
            self.next_token();
            let rhs = self.parse_binary_expression(prec + 1, fpu)?;
            lhs = Expression::BinaryOp(Box::new(lhs), op, Box::new(rhs), self.span_from(start));
        }
        Ok(lhs)
    }

    fn parse_primary<F: FloatUnit>(&mut self, fpu: &F) -> (r: Result<Expression, Error>)
        requires
            old(self).wf(),
        ensures
            final(self).wf(),
            final(self).tokens@ == old(self).tokens@,
            final(self).remaining() <= old(self).remaining(),
        decreases old(self).remaining(), 1nat, 0nat,
    {
        let t = self.cur().clone();
        let kind = self.cur_kind();
        match kind {
            TokenKind::Identifier => {
                self.next_token();
                Ok(Expression::Identifier(t.literal))
            },
            TokenKind::Register => match Register::from_name(&t.literal) {
                Some(reg) => {
                    self.next_token();
                    Ok(Expression::Register(reg))
                },
                None => Err(Error::UnexpectedToken { token: t }),
            },
            TokenKind::Integer | TokenKind::Hexadecimal | TokenKind::Binary | TokenKind::Octal => {
                let chars = crate::lexer::chars_of(&t.literal);
                let (from, radix): (usize, u32) = match kind {
                    TokenKind::Hexadecimal => (2, 16),
                    TokenKind::Binary => (2, 2),
                    TokenKind::Octal => (2, 8),
                    _ => (0, 10),
                };
                if from > chars.len() {
                    return Err(Error::UnexpectedToken { token: t });
                }
                match parse_digits(&chars, from, radix) {
                    Some(v) => {
                        self.next_token();
                        Ok(Expression::IntegerLiteral(v))
                    },
                    None => Err(Error::UnexpectedToken { token: t }),
                }
            },
            TokenKind::Float => match fpu.f64_from_decimal(&t.literal) {
                Some(bits) => {
                    self.next_token();
                    Ok(Expression::FloatLiteral(bits))
                },
                None => Err(Error::UnexpectedToken { token: t }),
            },
            TokenKind::String => {
                self.next_token();
                Ok(Expression::StringLiteral(t.literal))
            },
            TokenKind::DataSize => {
                self.next_token();
                match DataSize::from_name(t.literal.as_str()) {
                    Some(size) => Ok(Expression::DataSize(size)),
                    None => Err(Error::UnexpectedToken { token: t }),
                }
            },
            TokenKind::LBracket => {
                self.next_token();
                let base = self.parse_expression(fpu)?;
                let offset = if self.cur_kind() == TokenKind::Comma {
                    self.next_token();
                    Some(Box::new(self.parse_expression(fpu)?))
                } else {
                    None
                };
                if self.cur_kind() != TokenKind::RBracket {
                    return Err(Error::Expected { expected: "]".to_owned(), got: self.cur().clone() });
                }
                self.next_token();
                Ok(Expression::Address(Box::new(base), offset))
            },
            TokenKind::LParen => {
                self.next_token();
                let e = self.parse_expression(fpu)?;
                if self.cur_kind() != TokenKind::RParen {
                    return Err(Error::Expected { expected: ")".to_owned(), got: self.cur().clone() });
                }
                self.next_token();
                Ok(e)
            },
            _ => Err(Error::UnexpectedToken { token: t }),
        }
    }
}

} // verus!
