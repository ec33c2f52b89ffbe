use vstd::prelude::*;

use crate::span::Span;

verus! {

/// The kinds of token the lexer produces.
#[derive(Debug, Clone, Copy, PartialEq, Eq, Structural)]
pub enum TokenKind {
    Eof,
    Illegal,
    Identifier,
    Register,
    Integer,
    Hexadecimal,
    Binary,
    Octal,
    Float,
    String,
    DataSize,
    SectionName,
    Colon,
    Comma,
    Plus,
    Minus,
    Asterisk,
    Slash,
    Pipe,
    Ampersand,
    Caret,
    LParen,
    RParen,
    LBracket,
    RBracket,
    KwError,
    KwDefine,
    KwInclude,
    KwIfDef,
    KwIfNDef,
    KwElse,
    KwEndIf,
    KwSection,
    KwEntry,
    KwAscii,
    KwAsciz,
    KwNop,
    KwMov,
    KwLdr,
    KwStr,
    KwPush,
    KwPop,
    KwAdd,
    KwSub,
    KwMul,
    KwDiv,
    KwAnd,
    KwOr,
    KwXor,
    KwShl,
    KwShr,
    KwCmp,
    KwJmp,
    KwJeq,
    KwJne,
    KwJlt,
    KwJgt,
    KwJle,
    KwJge,
    KwCall,
    KwRet,
    KwInc,
    KwDec,
    KwSyscall,
    KwHlt,
    KwDb,
    KwResb,
}

/// A token: its kind, its text and where it stands in the source.
#[derive(Debug, Clone, PartialEq, Eq)]
pub struct Token {
    pub kind: TokenKind,
    pub literal: String,
    pub loc: Span,
}

impl Token {
    pub fn new(kind: TokenKind, literal: &str, loc: Span) -> (r: Self)
        ensures
            r.kind == kind,
            r.literal@ == literal@,
            r.loc == loc,
    {
        Token { kind, literal: literal.to_owned(), loc }
    }

    /// A token whose text is a fixed string.
    pub fn new_static(kind: TokenKind, literal: &'static str, loc: Span) -> (r: Self)
        ensures
            r.kind == kind,
            r.literal@ == literal@,
            r.loc == loc,
    {
        Token { kind, literal: literal.to_owned(), loc }
    }

    pub fn new_owned(kind: TokenKind, literal: String, loc: Span) -> (r: Self)
        ensures
            r.kind == kind,
            r.literal == literal,
            r.loc == loc,
    {
        Token { kind, literal, loc }
    }
}

/// The kind of the word `s`: a reserved word (in lower case) has its own
/// kind, every other word is an `Identifier`.
pub open spec fn spec_keyword_kind(s: Seq<char>) -> TokenKind {
    if s == "#error"@ {
        TokenKind::KwError
    } else if s == "#define"@ {
        TokenKind::KwDefine
    } else if s == "#include"@ {
        TokenKind::KwInclude
    } else if s == "#ifdef"@ {
        TokenKind::KwIfDef
    } else if s == "#ifndef"@ {
        TokenKind::KwIfNDef
    } else if s == "#else"@ {
        TokenKind::KwElse
    } else if s == "#endif"@ {
        TokenKind::KwEndIf
    } else if s == ".section"@ {
        TokenKind::KwSection
    } else if s == ".entry"@ {
        TokenKind::KwEntry
    } else if s == ".ascii"@ {
        TokenKind::KwAscii
    } else if s == ".asciz"@ {
        TokenKind::KwAsciz
    } else if s == "nop"@ {
        TokenKind::KwNop
    } else if s == "mov"@ {
        TokenKind::KwMov
    } else if s == "ldr"@ {
        TokenKind::KwLdr
    } else if s == "str"@ {
        TokenKind::KwStr
    } else if s == "push"@ {
        TokenKind::KwPush
    } else if s == "pop"@ {
        TokenKind::KwPop
    } else if s == "add"@ {
        TokenKind::KwAdd
    } else if s == "sub"@ {
        TokenKind::KwSub
    } else if s == "mul"@ {
        TokenKind::KwMul
    } else if s == "div"@ {
        TokenKind::KwDiv
    } else if s == "and"@ {
        TokenKind::KwAnd
    } else if s == "or"@ {
        TokenKind::KwOr
    } else if s == "xor"@ {
        TokenKind::KwXor
    } else if s == "shl"@ {
        TokenKind::KwShl
    } else if s == "shr"@ {
        TokenKind::KwShr
    } else if s == "cmp"@ {
        TokenKind::KwCmp
    } else if s == "jmp"@ {
        TokenKind::KwJmp
    } else if s == "jeq"@ {
        TokenKind::KwJeq
    } else if s == "jne"@ {
        TokenKind::KwJne
    } else if s == "jlt"@ {
        TokenKind::KwJlt
    } else if s == "jgt"@ {
        TokenKind::KwJgt
    } else if s == "jle"@ {
        TokenKind::KwJle
    } else if s == "jge"@ {
        TokenKind::KwJge
    } else if s == "call"@ {
        TokenKind::KwCall
    } else if s == "ret"@ {
        TokenKind::KwRet
    } else if s == "inc"@ {
        TokenKind::KwInc
    } else if s == "dec"@ {
        TokenKind::KwDec
    } else if s == "syscall"@ {
        TokenKind::KwSyscall
    } else if s == "hlt"@ {
        TokenKind::KwHlt
    } else if s == "db"@ {
        TokenKind::KwDb
    } else if s == "resb"@ {
        TokenKind::KwResb
    } else if s == "text"@ {
        TokenKind::SectionName
    } else if s == "data"@ {
        TokenKind::SectionName
    } else if s == "b0"@ {
        TokenKind::Register
    } else if s == "b1"@ {
        TokenKind::Register
    } else if s == "b2"@ {
        TokenKind::Register
    } else if s == "b3"@ {
        TokenKind::Register
    } else if s == "b4"@ {
        TokenKind::Register
    } else if s == "b5"@ {
        TokenKind::Register
    } else if s == "b6"@ {
        TokenKind::Register
    } else if s == "b7"@ {
        TokenKind::Register
    } else if s == "b8"@ {
        TokenKind::Register
    } else if s == "b9"@ {
        TokenKind::Register
    } else if s == "b10"@ {
        TokenKind::Register
    } else if s == "b11"@ {
        TokenKind::Register
    } else if s == "b12"@ {
        TokenKind::Register
    } else if s == "b13"@ {
        TokenKind::Register
    } else if s == "b14"@ {
        TokenKind::Register
    } else if s == "b15"@ {
        TokenKind::Register
    } else if s == "w0"@ {
        TokenKind::Register
    } else if s == "w1"@ {
        TokenKind::Register
    } else if s == "w2"@ {
        TokenKind::Register
    } else if s == "w3"@ {
        TokenKind::Register
    } else if s == "w4"@ {
        TokenKind::Register
    } else if s == "w5"@ {
        TokenKind::Register
    } else if s == "w6"@ {
        TokenKind::Register
    } else if s == "w7"@ {
        TokenKind::Register
    } else if s == "w8"@ {
        TokenKind::Register
    } else if s == "w9"@ {
        TokenKind::Register
    } else if s == "w10"@ {
        TokenKind::Register
    } else if s == "w11"@ {
        TokenKind::Register
    } else if s == "w12"@ {
        TokenKind::Register
    } else if s == "w13"@ {
        TokenKind::Register
    } else if s == "w14"@ {
        TokenKind::Register
    } else if s == "w15"@ {
        TokenKind::Register
    } else if s == "d0"@ {
        TokenKind::Register
    } else if s == "d1"@ {
        TokenKind::Register
    } else if s == "d2"@ {
        TokenKind::Register
    } else if s == "d3"@ {
        TokenKind::Register
    } else if s == "d4"@ {
        TokenKind::Register
    } else if s == "d5"@ {
        TokenKind::Register
    } else if s == "d6"@ {
        TokenKind::Register
    } else if s == "d7"@ {
        TokenKind::Register
    } else if s == "d8"@ {
        TokenKind::Register
    } else if s == "d9"@ {
        TokenKind::Register
    } else if s == "d10"@ {
        TokenKind::Register
    } else if s == "d11"@ {
        TokenKind::Register
    } else if s == "d12"@ {
        TokenKind::Register
    } else if s == "d13"@ {
        TokenKind::Register
    } else if s == "d14"@ {
        TokenKind::Register
    } else if s == "d15"@ {
        TokenKind::Register
    } else if s == "q0"@ {
        TokenKind::Register
    } else if s == "q1"@ {
        TokenKind::Register
    } else if s == "q2"@ {
        TokenKind::Register
    } else if s == "q3"@ {
        TokenKind::Register
    } else if s == "q4"@ {
        TokenKind::Register
    } else if s == "q5"@ {
        TokenKind::Register
    } else if s == "q6"@ {
        TokenKind::Register
    } else if s == "q7"@ {
        TokenKind::Register
    } else if s == "q8"@ {
        TokenKind::Register
    } else if s == "q9"@ {
        TokenKind::Register
    } else if s == "q10"@ {
        TokenKind::Register
    } else if s == "q11"@ {
        TokenKind::Register
    } else if s == "q12"@ {
        TokenKind::Register
    } else if s == "q13"@ {
        TokenKind::Register
    } else if s == "q14"@ {
        TokenKind::Register
    } else if s == "q15"@ {
        TokenKind::Register
    } else if s == "ff0"@ {
        TokenKind::Register
    } else if s == "ff1"@ {
        TokenKind::Register
    } else if s == "ff2"@ {
        TokenKind::Register
    } else if s == "ff3"@ {
        TokenKind::Register
    } else if s == "ff4"@ {
        TokenKind::Register
    } else if s == "ff5"@ {
        TokenKind::Register
    } else if s == "ff6"@ {
        TokenKind::Register
    } else if s == "ff7"@ {
        TokenKind::Register
    } else if s == "ff8"@ {
        TokenKind::Register
    } else if s == "ff9"@ {
        TokenKind::Register
    } else if s == "ff10"@ {
        TokenKind::Register
    } else if s == "ff11"@ {
        TokenKind::Register
    } else if s == "ff12"@ {
        TokenKind::Register
    } else if s == "ff13"@ {
        TokenKind::Register
    } else if s == "ff14"@ {
        TokenKind::Register
    } else if s == "ff15"@ {
        TokenKind::Register
    } else if s == "dd0"@ {
        TokenKind::Register
    } else if s == "dd1"@ {
        TokenKind::Register
    } else if s == "dd2"@ {
        TokenKind::Register
    } else if s == "dd3"@ {
        TokenKind::Register
    } else if s == "dd4"@ {
        TokenKind::Register
    } else if s == "dd5"@ {
        TokenKind::Register
    } else if s == "dd6"@ {
        TokenKind::Register
    } else if s == "dd7"@ {
        TokenKind::Register
    } else if s == "dd8"@ {
        TokenKind::Register
    } else if s == "dd9"@ {
        TokenKind::Register
    } else if s == "dd10"@ {
        TokenKind::Register
    } else if s == "dd11"@ {
        TokenKind::Register
    } else if s == "dd12"@ {
        TokenKind::Register
    } else if s == "dd13"@ {
        TokenKind::Register
    } else if s == "dd14"@ {
        TokenKind::Register
    } else if s == "dd15"@ {
        TokenKind::Register
    } else if s == "ip"@ {
        TokenKind::Register
    } else if s == "sp"@ {
        TokenKind::Register
    } else if s == "bp"@ {
        TokenKind::Register
    } else if s == "byte"@ {
        TokenKind::DataSize
    } else if s == "word"@ {
        TokenKind::DataSize
    } else if s == "dword"@ {
        TokenKind::DataSize
    } else if s == "qword"@ {
        TokenKind::DataSize
    } else if s == "float"@ {
        TokenKind::DataSize
    } else if s == "double"@ {
        TokenKind::DataSize
    } else {
        TokenKind::Identifier
    }
}

/// The lower-case form of a string, as `str::to_lowercase` computes it.
pub uninterp spec fn lower_of(s: Seq<char>) -> Seq<char>;

/// Relies on `str::to_lowercase`: the result depends on the characters alone.
#[verifier::external_body]
pub(crate) fn lowercase(s: &str) -> (r: String)
    ensures
        r@ == lower_of(s@),
{
    s.to_lowercase()
}

/// Whether `s` is the word `w`.
pub fn is_word(s: &String, w: &str) -> (r: bool)
    ensures
        r == (s@ == w@),
{
    *s == w.to_owned()
}

/// The kind of the (already lower-case) word `s`.
pub fn keyword_kind(s: &String) -> (r: TokenKind)
    ensures
        r == spec_keyword_kind(s@),
{
    if is_word(s, "#error") {
        return TokenKind::KwError;
    }
    if is_word(s, "#define") {
        return TokenKind::KwDefine;
    }
    if is_word(s, "#include") {
        return TokenKind::KwInclude;
    }
    if is_word(s, "#ifdef") {
        return TokenKind::KwIfDef;
    }
    if is_word(s, "#ifndef") {
        return TokenKind::KwIfNDef;
    }
    if is_word(s, "#else") {
        return TokenKind::KwElse;
    }
    if is_word(s, "#endif") {
        return TokenKind::KwEndIf;
    }
    if is_word(s, ".section") {
        return TokenKind::KwSection;
    }
    if is_word(s, ".entry") {
        return TokenKind::KwEntry;
    }
    if is_word(s, ".ascii") {
        return TokenKind::KwAscii;
    }
    if is_word(s, ".asciz") {
        return TokenKind::KwAsciz;
    }
    if is_word(s, "nop") {
        return TokenKind::KwNop;
    }
    if is_word(s, "mov") {
        return TokenKind::KwMov;
    }
    if is_word(s, "ldr") {
        return TokenKind::KwLdr;
    }
    if is_word(s, "str") {
        return TokenKind::KwStr;
    }
    if is_word(s, "push") {
        return TokenKind::KwPush;
    }
    if is_word(s, "pop") {
        return TokenKind::KwPop;
    }
    if is_word(s, "add") {
        return TokenKind::KwAdd;
    }
    if is_word(s, "sub") {
        return TokenKind::KwSub;
    }
    if is_word(s, "mul") {
        return TokenKind::KwMul;
    }
    if is_word(s, "div") {
        return TokenKind::KwDiv;
    }
    if is_word(s, "and") {
        return TokenKind::KwAnd;
    }
    if is_word(s, "or") {
        return TokenKind::KwOr;
    }
    if is_word(s, "xor") {
        return TokenKind::KwXor;
    }
    if is_word(s, "shl") {
        return TokenKind::KwShl;
    }
    if is_word(s, "shr") {
        return TokenKind::KwShr;
    }
    if is_word(s, "cmp") {
        return TokenKind::KwCmp;
    }
    if is_word(s, "jmp") {
        return TokenKind::KwJmp;
    }
    if is_word(s, "jeq") {
        return TokenKind::KwJeq;
    }
    if is_word(s, "jne") {
        return TokenKind::KwJne;
    }
    if is_word(s, "jlt") {
        return TokenKind::KwJlt;
    }
    if is_word(s, "jgt") {
        return TokenKind::KwJgt;
    }
    if is_word(s, "jle") {
        return TokenKind::KwJle;
    }
    if is_word(s, "jge") {
        return TokenKind::KwJge;
    }
    if is_word(s, "call") {
        return TokenKind::KwCall;
    }
    if is_word(s, "ret") {
        return TokenKind::KwRet;
    }
    if is_word(s, "inc") {
        return TokenKind::KwInc;
    }
    if is_word(s, "dec") {
        return TokenKind::KwDec;
    }
    if is_word(s, "syscall") {
        return TokenKind::KwSyscall;
    }
    if is_word(s, "hlt") {
        return TokenKind::KwHlt;
    }
    if is_word(s, "db") {
        return TokenKind::KwDb;
    }
    if is_word(s, "resb") {
        return TokenKind::KwResb;
    }
    if is_word(s, "text") {
        return TokenKind::SectionName;
    }
    if is_word(s, "data") {
        return TokenKind::SectionName;
    }
    if is_word(s, "b0") {
        return TokenKind::Register;
    }
    if is_word(s, "b1") {
        return TokenKind::Register;
    }
    if is_word(s, "b2") {
        return TokenKind::Register;
    }
    if is_word(s, "b3") {
        return TokenKind::Register;
    }
    if is_word(s, "b4") {
        return TokenKind::Register;
    }
    if is_word(s, "b5") {
        return TokenKind::Register;
    }
    if is_word(s, "b6") {
        return TokenKind::Register;
    }
    if is_word(s, "b7") {
        return TokenKind::Register;
    }
    if is_word(s, "b8") {
        return TokenKind::Register;
    }
    if is_word(s, "b9") {
        return TokenKind::Register;
    }
    if is_word(s, "b10") {
        return TokenKind::Register;
    }
    if is_word(s, "b11") {
        return TokenKind::Register;
    }
    if is_word(s, "b12") {
        return TokenKind::Register;
    }
    if is_word(s, "b13") {
        return TokenKind::Register;
    }
    if is_word(s, "b14") {
        return TokenKind::Register;
    }
    if is_word(s, "b15") {
        return TokenKind::Register;
    }
    if is_word(s, "w0") {
        return TokenKind::Register;
    }
    if is_word(s, "w1") {
        return TokenKind::Register;
    }
    if is_word(s, "w2") {
        return TokenKind::Register;
    }
    if is_word(s, "w3") {
        return TokenKind::Register;
    }
    if is_word(s, "w4") {
        return TokenKind::Register;
    }
    if is_word(s, "w5") {
        return TokenKind::Register;
    }
    if is_word(s, "w6") {
        return TokenKind::Register;
    }
    if is_word(s, "w7") {
        return TokenKind::Register;
    }
    if is_word(s, "w8") {
        return TokenKind::Register;
    }
    if is_word(s, "w9") {
        return TokenKind::Register;
    }
    if is_word(s, "w10") {
        return TokenKind::Register;
    }
    if is_word(s, "w11") {
        return TokenKind::Register;
    }
    if is_word(s, "w12") {
        return TokenKind::Register;
    }
    if is_word(s, "w13") {
        return TokenKind::Register;
    }
    if is_word(s, "w14") {
        return TokenKind::Register;
    }
    if is_word(s, "w15") {
        return TokenKind::Register;
    }
    if is_word(s, "d0") {
        return TokenKind::Register;
    }
    if is_word(s, "d1") {
        return TokenKind::Register;
    }
    if is_word(s, "d2") {
        return TokenKind::Register;
    }
    if is_word(s, "d3") {
        return TokenKind::Register;
    }
    if is_word(s, "d4") {
        return TokenKind::Register;
    }
    if is_word(s, "d5") {
        return TokenKind::Register;
    }
    if is_word(s, "d6") {
        return TokenKind::Register;
    }
    if is_word(s, "d7") {
        return TokenKind::Register;
    }
    if is_word(s, "d8") {
        return TokenKind::Register;
    }
    if is_word(s, "d9") {
        return TokenKind::Register;
    }
    if is_word(s, "d10") {
        return TokenKind::Register;
    }
    if is_word(s, "d11") {
        return TokenKind::Register;
    }
    if is_word(s, "d12") {
        return TokenKind::Register;
    }
    if is_word(s, "d13") {
        return TokenKind::Register;
    }
    if is_word(s, "d14") {
        return TokenKind::Register;
    }
    if is_word(s, "d15") {
        return TokenKind::Register;
    }
    if is_word(s, "q0") {
        return TokenKind::Register;
    }
    if is_word(s, "q1") {
        return TokenKind::Register;
    }
    if is_word(s, "q2") {
        return TokenKind::Register;
    }
    if is_word(s, "q3") {
        return TokenKind::Register;
    }
    if is_word(s, "q4") {
        return TokenKind::Register;
    }
    if is_word(s, "q5") {
        return TokenKind::Register;
    }
    if is_word(s, "q6") {
        return TokenKind::Register;
    }
    if is_word(s, "q7") {
        return TokenKind::Register;
    }
    if is_word(s, "q8") {
        return TokenKind::Register;
    }
    if is_word(s, "q9") {
        return TokenKind::Register;
    }
    if is_word(s, "q10") {
        return TokenKind::Register;
    }
    if is_word(s, "q11") {
        return TokenKind::Register;
    }
    if is_word(s, "q12") {
        return TokenKind::Register;
    }
    if is_word(s, "q13") {
        return TokenKind::Register;
    }
    if is_word(s, "q14") {
        return TokenKind::Register;
    }
    if is_word(s, "q15") {
        return TokenKind::Register;
    }
    if is_word(s, "ff0") {
        return TokenKind::Register;
    }
    if is_word(s, "ff1") {
        return TokenKind::Register;
    }
    if is_word(s, "ff2") {
        return TokenKind::Register;
    }
    if is_word(s, "ff3") {
        return TokenKind::Register;
    }
    if is_word(s, "ff4") {
        return TokenKind::Register;
    }
    if is_word(s, "ff5") {
        return TokenKind::Register;
    }
    if is_word(s, "ff6") {
        return TokenKind::Register;
    }
    if is_word(s, "ff7") {
        return TokenKind::Register;
    }
    if is_word(s, "ff8") {
        return TokenKind::Register;
    }
    if is_word(s, "ff9") {
        return TokenKind::Register;
    }
    if is_word(s, "ff10") {
        return TokenKind::Register;
    }
    if is_word(s, "ff11") {
        return TokenKind::Register;
    }
    if is_word(s, "ff12") {
        return TokenKind::Register;
    }
    if is_word(s, "ff13") {
        return TokenKind::Register;
    }
    if is_word(s, "ff14") {
        return TokenKind::Register;
    }
    if is_word(s, "ff15") {
        return TokenKind::Register;
    }
    if is_word(s, "dd0") {
        return TokenKind::Register;
    }
    if is_word(s, "dd1") {
        return TokenKind::Register;
    }
    if is_word(s, "dd2") {
        return TokenKind::Register;
    }
    if is_word(s, "dd3") {
        return TokenKind::Register;
    }
    if is_word(s, "dd4") {
        return TokenKind::Register;
    }
    if is_word(s, "dd5") {
        return TokenKind::Register;
    }
    if is_word(s, "dd6") {
        return TokenKind::Register;
    }
    if is_word(s, "dd7") {
        return TokenKind::Register;
    }
    if is_word(s, "dd8") {
        return TokenKind::Register;
    }
    if is_word(s, "dd9") {
        return TokenKind::Register;
    }
    if is_word(s, "dd10") {
        return TokenKind::Register;
    }
    if is_word(s, "dd11") {
        return TokenKind::Register;
    }
    if is_word(s, "dd12") {
        return TokenKind::Register;
    }
    if is_word(s, "dd13") {
        return TokenKind::Register;
    }
    if is_word(s, "dd14") {
        return TokenKind::Register;
    }
    if is_word(s, "dd15") {
        return TokenKind::Register;
    }
    if is_word(s, "ip") {
        return TokenKind::Register;
    }
    if is_word(s, "sp") {
        return TokenKind::Register;
    }
    if is_word(s, "bp") {
        return TokenKind::Register;
    }
    if is_word(s, "byte") {
        return TokenKind::DataSize;
    }
    if is_word(s, "word") {
        return TokenKind::DataSize;
    }
    if is_word(s, "dword") {
        return TokenKind::DataSize;
    }
    if is_word(s, "qword") {
        return TokenKind::DataSize;
    }
    if is_word(s, "float") {
        return TokenKind::DataSize;
    }
    if is_word(s, "double") {
        return TokenKind::DataSize;
    }
    TokenKind::Identifier
}

/// The kind of a word, keywords matched without regard to case.
pub fn lookup_ident(ident: &str) -> (r: TokenKind)
    ensures
        r == spec_keyword_kind(lower_of(ident@)),
{
    let lowered = lowercase(ident);
    keyword_kind(&lowered)
}

} // verus!
