use vstd::prelude::*;

use crate::immediate::DataSize;
use crate::register::Register;
use crate::span::Span;

verus! {

/// One statement of a program: a label, a directive or an instruction.
#[derive(Debug, PartialEq)]
pub enum Statement {
    Label(String, Span),
    Error(Expression, Span),
    Define(Expression, Expression, Span),
    Include(Expression, Span),
    IfDef(Expression, Span),
    IfNDef(Expression, Span),
    Else(Span),
    EndIf(Span),
    Section(SectionType, Span),
    Entry(Expression, Span),
    Ascii(Expression, Span),
    Asciz(Expression, Span),
    Nop(Span),
    Mov(Expression, Expression, Span),
    Ldr(Expression, Expression, Span),
    Str(Expression, Expression, Span),
    Push(Option<Expression>, Expression, Span),
    Pop(Option<Expression>, Expression, Span),
    Add(Expression, Expression, Expression, Span),
    Sub(Expression, Expression, Expression, Span),
    Mul(Expression, Expression, Expression, Span),
    Div(Expression, Expression, Expression, Span),
    And(Expression, Expression, Expression, Span),
    Or(Expression, Expression, Expression, Span),
    Xor(Expression, Expression, Expression, Span),
    Shl(Expression, Expression, Expression, Span),
    Shr(Expression, Expression, Expression, Span),
    Cmp(Expression, Expression, Span),
    Jmp(Expression, Span),
    Jne(Expression, Span),
    Jeq(Expression, Span),
    Jlt(Expression, Span),
    Jgt(Expression, Span),
    Jle(Expression, Span),
    Jge(Expression, Span),
    Call(Expression, Span),
    Ret(Span),
    Inc(Expression, Span),
    Dec(Expression, Span),
    Syscall(Span),
    Hlt(Span),
    Db(Vec<Expression>, Span),
    Resb(Expression, Span),
}

/// An operand or directive argument. A float literal is held as the bit
/// pattern of its `f64` value.
#[derive(Debug, PartialEq)]
pub enum Expression {
    Identifier(String),
    Register(Register),
    IntegerLiteral(i64),
    FloatLiteral(u64),
    StringLiteral(String),
    DataSize(DataSize),
    Address(Box<Expression>, Option<Box<Expression>>),
    BinaryOp(Box<Expression>, BinaryOperator, Box<Expression>, Span),
}

#[derive(Debug, Clone, Copy, PartialEq, Eq, Structural)]
pub enum SectionType {
    Text,
    Data,
}

#[derive(Debug, Clone, Copy, PartialEq, Eq, Structural)]
pub enum BinaryOperator {
    Add,
    Sub,
    Mul,
    Div,
    BitOr,
    BitAnd,
    BitXor,
}

impl Statement {
    pub open spec fn spec_span(&self) -> Span {
        match self {
            Statement::Label(_, s) => *s,
            Statement::Error(_, s) => *s,
            Statement::Define(_, _, s) => *s,
            Statement::Include(_, s) => *s,
            Statement::IfDef(_, s) => *s,
            Statement::IfNDef(_, s) => *s,
            Statement::Else(s) => *s,
            Statement::EndIf(s) => *s,
            Statement::Section(_, s) => *s,
            Statement::Entry(_, s) => *s,
            Statement::Ascii(_, s) => *s,
            Statement::Asciz(_, s) => *s,
            Statement::Nop(s) => *s,
            Statement::Mov(_, _, s) => *s,
            Statement::Ldr(_, _, s) => *s,
            Statement::Str(_, _, s) => *s,
            Statement::Push(_, _, s) => *s,
            Statement::Pop(_, _, s) => *s,
            Statement::Add(_, _, _, s) => *s,
            Statement::Sub(_, _, _, s) => *s,
            Statement::Mul(_, _, _, s) => *s,
            Statement::Div(_, _, _, s) => *s,
            Statement::And(_, _, _, s) => *s,
            Statement::Or(_, _, _, s) => *s,
            Statement::Xor(_, _, _, s) => *s,
            Statement::Shl(_, _, _, s) => *s,
            Statement::Shr(_, _, _, s) => *s,
            Statement::Cmp(_, _, s) => *s,
            Statement::Jmp(_, s) => *s,
            Statement::Jne(_, s) => *s,
            Statement::Jeq(_, s) => *s,
            Statement::Jlt(_, s) => *s,
            Statement::Jgt(_, s) => *s,
            Statement::Jle(_, s) => *s,
            Statement::Jge(_, s) => *s,
            Statement::Call(_, s) => *s,
            Statement::Ret(s) => *s,
            Statement::Inc(_, s) => *s,
            Statement::Dec(_, s) => *s,
            Statement::Syscall(s) => *s,
            Statement::Hlt(s) => *s,
            Statement::Db(_, s) => *s,
            Statement::Resb(_, s) => *s,
        }
    }

    /// The source span the statement came from.
    pub fn span(&self) -> (r: Span)
        ensures
            r == self.spec_span(),
    {
        match self {
            Statement::Label(_, s) => *s,
            Statement::Error(_, s) => *s,
            Statement::Define(_, _, s) => *s,
            Statement::Include(_, s) => *s,
            Statement::IfDef(_, s) => *s,
            Statement::IfNDef(_, s) => *s,
            Statement::Else(s) => *s,
            Statement::EndIf(s) => *s,
            Statement::Section(_, s) => *s,
            Statement::Entry(_, s) => *s,
            Statement::Ascii(_, s) => *s,
            Statement::Asciz(_, s) => *s,
            Statement::Nop(s) => *s,
            Statement::Mov(_, _, s) => *s,
            Statement::Ldr(_, _, s) => *s,
            Statement::Str(_, _, s) => *s,
            Statement::Push(_, _, s) => *s,
            Statement::Pop(_, _, s) => *s,
            Statement::Add(_, _, _, s) => *s,
            Statement::Sub(_, _, _, s) => *s,
            Statement::Mul(_, _, _, s) => *s,
            Statement::Div(_, _, _, s) => *s,
            Statement::And(_, _, _, s) => *s,
            Statement::Or(_, _, _, s) => *s,
            Statement::Xor(_, _, _, s) => *s,
            Statement::Shl(_, _, _, s) => *s,
            Statement::Shr(_, _, _, s) => *s,
            Statement::Cmp(_, _, s) => *s,
            Statement::Jmp(_, s) => *s,
            Statement::Jne(_, s) => *s,
            Statement::Jeq(_, s) => *s,
            Statement::Jlt(_, s) => *s,
            Statement::Jgt(_, s) => *s,
            Statement::Jle(_, s) => *s,
            Statement::Jge(_, s) => *s,
            Statement::Call(_, s) => *s,
            Statement::Ret(s) => *s,
            Statement::Inc(_, s) => *s,
            Statement::Dec(_, s) => *s,
            Statement::Syscall(s) => *s,
            Statement::Hlt(s) => *s,
            Statement::Db(_, s) => *s,
            Statement::Resb(_, s) => *s,
        }
    }
}

} // verus!
