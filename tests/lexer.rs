use nyx::lexer::Lexer;
use nyx::span::Span;
use nyx::token::{Token, TokenKind};

fn tok(kind: TokenKind, literal: &str, loc: (usize, usize)) -> Token {
    Token::new(kind, literal, Span::new(loc.0, loc.1))
}

/// Every token of `input` before the end.
fn lex(input: &str) -> Vec<Token> {
    let mut lexer = Lexer::new(input.chars().collect());
    let mut out = Vec::new();
    loop {
        let t = lexer.next_token();
        if t.kind == TokenKind::Eof {
            return out;
        }
        out.push(t);
    }
}

#[test]
fn single_character() {
    let input = ":,+-[]";

    let tokens = lex(input);

    assert_eq!(
        tokens,
        vec![
            tok(TokenKind::Colon, ":", (0, 1)),
            tok(TokenKind::Comma, ",", (1, 2)),
            tok(TokenKind::Plus, "+", (2, 3)),
            tok(TokenKind::Minus, "-", (3, 4)),
            tok(TokenKind::LBracket, "[", (4, 5)),
            tok(TokenKind::RBracket, "]", (5, 6)),
        ]
    )
}

#[test]
fn numbers() {
    let tests = vec![
        ("69", vec![tok(TokenKind::Integer, "69", (0, 2))]),
        ("420", vec![tok(TokenKind::Integer, "420", (0, 3))]),
        ("1337", vec![tok(TokenKind::Integer, "1337", (0, 4))]),
    ];

    for (input, expected) in tests {
        let tokens = lex(input);
        assert_eq!(tokens, expected);
    }
}

#[test]
fn hexadecimal_numbers() {
    let tests = vec![
        (
            "0x42",
            vec![tok(TokenKind::Hexadecimal, "0x42", (0, 4))],
        ),
        (
            "0xFF",
            vec![tok(TokenKind::Hexadecimal, "0xFF", (0, 4))],
        ),
        (
            "0xDEADBEEF",
            vec![tok(TokenKind::Hexadecimal, "0xDEADBEEF", (0, 10))],
        ),
    ];

    for (input, expected) in tests {
        let tokens = lex(input);
        assert_eq!(tokens, expected);
    }
}

#[test]
fn binary_numbers() {
    let tests = vec![
        ("0b0", vec![tok(TokenKind::Binary, "0b0", (0, 3))]),
        (
            "0b1010",
            vec![tok(TokenKind::Binary, "0b1010", (0, 6))],
        ),
        (
            "0B1101",
            vec![tok(TokenKind::Binary, "0B1101", (0, 6))],
        ),
    ];

    for (input, expected) in tests {
        let tokens = lex(input);
        assert_eq!(tokens, expected);
    }
}

#[test]
fn octal_numbers() {
    let tests = vec![
        ("0o0", vec![tok(TokenKind::Octal, "0o0", (0, 3))]),
        ("0o123", vec![tok(TokenKind::Octal, "0o123", (0, 5))]),
        ("0O777", vec![tok(TokenKind::Octal, "0O777", (0, 5))]),
    ];

    for (input, expected) in tests {
        let tokens = lex(input);
        assert_eq!(tokens, expected);
    }
}

#[test]
fn identifiers() {
    let tests = vec![
        (
            "variable_name",
            vec![tok(TokenKind::Identifier, "variable_name", (0, 13))],
        ),
        (
            "_long_long_long_12345_name",
            vec![tok(
                TokenKind::Identifier,
                "_long_long_long_12345_name",
                (0, 26),
            )],
        ),
    ];

    for (input, expected) in tests {
        let tokens = lex(input);
        assert_eq!(tokens, expected);
    }
}

#[test]
fn preprocessor_directives() {
    let tests = vec![
        (
            "#define",
            vec![tok(TokenKind::KwDefine, "#define", (0, 7))],
        ),
        (
            "#include",
            vec![tok(TokenKind::KwInclude, "#include", (0, 8))],
        ),
        (
            "#ifdef",
            vec![tok(TokenKind::KwIfDef, "#ifdef", (0, 6))],
        ),
        (
            "#ifndef",
            vec![tok(TokenKind::KwIfNDef, "#ifndef", (0, 7))],
        ),
        (
            "#else",
            vec![tok(TokenKind::KwElse, "#else", (0, 5))],
        ),
        (
            "#endif",
            vec![tok(TokenKind::KwEndIf, "#endif", (0, 6))],
        ),
        (
            "#error",
            vec![tok(TokenKind::KwError, "#error", (0, 6))],
        ),
    ];

    for (input, expected) in tests {
        let tokens = lex(input);
        assert_eq!(tokens, expected);
    }
}

#[test]
fn basic_instructions() {
    let tests = vec![
        ("nop", vec![tok(TokenKind::KwNop, "nop", (0, 3))]),
        ("mov", vec![tok(TokenKind::KwMov, "mov", (0, 3))]),
        ("ldr", vec![tok(TokenKind::KwLdr, "ldr", (0, 3))]),
        ("str", vec![tok(TokenKind::KwStr, "str", (0, 3))]),
        ("push", vec![tok(TokenKind::KwPush, "push", (0, 4))]),
        ("pop", vec![tok(TokenKind::KwPop, "pop", (0, 3))]),
        ("cmp", vec![tok(TokenKind::KwCmp, "cmp", (0, 3))]),
        ("call", vec![tok(TokenKind::KwCall, "call", (0, 4))]),
        ("ret", vec![tok(TokenKind::KwRet, "ret", (0, 3))]),
        ("inc", vec![tok(TokenKind::KwInc, "inc", (0, 3))]),
        ("dec", vec![tok(TokenKind::KwDec, "dec", (0, 3))]),
        (
            "syscall",
            vec![tok(TokenKind::KwSyscall, "syscall", (0, 7))],
        ),
        ("hlt", vec![tok(TokenKind::KwHlt, "hlt", (0, 3))]),
    ];

    for (input, expected) in tests {
        let tokens = lex(input);
        assert_eq!(tokens, expected);
    }
}

#[test]
fn arithmetic_instructions() {
    let tests = vec![
        ("add", vec![tok(TokenKind::KwAdd, "add", (0, 3))]),
        ("sub", vec![tok(TokenKind::KwSub, "sub", (0, 3))]),
        ("mul", vec![tok(TokenKind::KwMul, "mul", (0, 3))]),
        ("div", vec![tok(TokenKind::KwDiv, "div", (0, 3))]),
    ];

    for (input, expected) in tests {
        let tokens = lex(input);
        assert_eq!(tokens, expected);
    }
}

#[test]
fn bitwise_instructions() {
    let tests = vec![
        ("and", vec![tok(TokenKind::KwAnd, "and", (0, 3))]),
        ("or", vec![tok(TokenKind::KwOr, "or", (0, 2))]),
        ("xor", vec![tok(TokenKind::KwXor, "xor", (0, 3))]),
    ];

    for (input, expected) in tests {
        let tokens = lex(input);
        assert_eq!(tokens, expected);
    }
}

#[test]
fn shift_instructions() {
    let tests = vec![
        ("shl", vec![tok(TokenKind::KwShl, "shl", (0, 3))]),
        ("shr", vec![tok(TokenKind::KwShr, "shr", (0, 3))]),
    ];

    for (input, expected) in tests {
        let tokens = lex(input);
        assert_eq!(tokens, expected);
    }
}

#[test]
fn jump_instructions() {
    let tests = vec![
        ("jmp", vec![tok(TokenKind::KwJmp, "jmp", (0, 3))]),
        ("jeq", vec![tok(TokenKind::KwJeq, "jeq", (0, 3))]),
        ("jne", vec![tok(TokenKind::KwJne, "jne", (0, 3))]),
        ("jlt", vec![tok(TokenKind::KwJlt, "jlt", (0, 3))]),
        ("jgt", vec![tok(TokenKind::KwJgt, "jgt", (0, 3))]),
        ("jle", vec![tok(TokenKind::KwJle, "jle", (0, 3))]),
        ("jge", vec![tok(TokenKind::KwJge, "jge", (0, 3))]),
    ];

    for (input, expected) in tests {
        let tokens = lex(input);
        assert_eq!(tokens, expected);
    }
}

#[test]
fn data_decleration_directives() {
    let tests = vec![
        ("db", vec![tok(TokenKind::KwDb, "db", (0, 2))]),
        ("resb", vec![tok(TokenKind::KwResb, "resb", (0, 4))]),
    ];

    for (input, expected) in tests {
        let tokens = lex(input);
        assert_eq!(tokens, expected);
    }
}

#[test]
fn float_numbers() {
    let tests = vec![
        ("3.14", vec![tok(TokenKind::Float, "3.14", (0, 4))]),
        ("0.5", vec![tok(TokenKind::Float, "0.5", (0, 3))]),
        (
            "123.456",
            vec![tok(TokenKind::Float, "123.456", (0, 7))],
        ),
        ("0.0", vec![tok(TokenKind::Float, "0.0", (0, 3))]),
        (
            "999.999",
            vec![tok(TokenKind::Float, "999.999", (0, 7))],
        ),
    ];

    for (input, expected) in tests {
        let tokens = lex(input);
        assert_eq!(tokens, expected);
    }
}

#[test]
fn mixed_numbers() {
    let tests = vec![
        (
            "42 3.14 0xFF",
            vec![
                tok(TokenKind::Integer, "42", (0, 2)),
                tok(TokenKind::Float, "3.14", (3, 7)),
                tok(TokenKind::Hexadecimal, "0xFF", (8, 12)),
            ],
        ),
        (
            "0b1010 420.69 0o777",
            vec![
                tok(TokenKind::Binary, "0b1010", (0, 6)),
                tok(TokenKind::Float, "420.69", (7, 13)),
                tok(TokenKind::Octal, "0o777", (14, 19)),
            ],
        ),
    ];

    for (input, expected) in tests {
        let tokens = lex(input);
        assert_eq!(tokens, expected);
    }
}

#[test]
fn register_tokens() {
    let tests = vec![
        (
            "b0 w1 d2 q3",
            vec![
                tok(TokenKind::Register, "b0", (0, 2)),
                tok(TokenKind::Register, "w1", (3, 5)),
                tok(TokenKind::Register, "d2", (6, 8)),
                tok(TokenKind::Register, "q3", (9, 11)),
            ],
        ),
        (
            "ff0 dd1 ip sp bp",
            vec![
                tok(TokenKind::Register, "ff0", (0, 3)),
                tok(TokenKind::Register, "dd1", (4, 7)),
                tok(TokenKind::Register, "ip", (8, 10)),
                tok(TokenKind::Register, "sp", (11, 13)),
                tok(TokenKind::Register, "bp", (14, 16)),
            ],
        ),
    ];

    for (input, expected) in tests {
        let tokens = lex(input);
        assert_eq!(tokens, expected);
    }
}

#[test]
fn data_size_tokens() {
    let tests = vec![
        (
            "byte word dword qword",
            vec![
                tok(TokenKind::DataSize, "byte", (0, 4)),
                tok(TokenKind::DataSize, "word", (5, 9)),
                tok(TokenKind::DataSize, "dword", (10, 15)),
                tok(TokenKind::DataSize, "qword", (16, 21)),
            ],
        ),
        (
            "float double",
            vec![
                tok(TokenKind::DataSize, "float", (0, 5)),
                tok(TokenKind::DataSize, "double", (6, 12)),
            ],
        ),
    ];

    for (input, expected) in tests {
        let tokens = lex(input);
        assert_eq!(tokens, expected);
    }
}

#[test]
fn section_names() {
    let tests = vec![(
        "text data",
        vec![
            tok(TokenKind::SectionName, "text", (0, 4)),
            tok(TokenKind::SectionName, "data", (5, 9)),
        ],
    )];

    for (input, expected) in tests {
        let tokens = lex(input);
        assert_eq!(tokens, expected);
    }
}

#[test]
fn tests_complex_program() {
    let input = r#".entry _start
.section text
_start:
    mov q0, 42
    add q1, q0, 100
    push QWORD q1
    syscall
    hlt

.section data
message:
    db "Hello", 0x00"#;

    let tokens = lex(input);

    assert!(!tokens.is_empty());
    assert_eq!(tokens[0].kind, TokenKind::KwEntry);
    assert_eq!(tokens[1].kind, TokenKind::Identifier);
    assert_eq!(tokens[2].kind, TokenKind::KwSection);
    assert_eq!(tokens[3].kind, TokenKind::SectionName);

    let instruction_tokens: Vec<_> = tokens
        .iter()
        .filter(|t| {
            matches!(
                t.kind,
                TokenKind::KwMov
                    | TokenKind::KwAdd
                    | TokenKind::KwPush
                    | TokenKind::KwSyscall
                    | TokenKind::KwHlt
            )
        })
        .collect();
    assert_eq!(instruction_tokens.len(), 5);
}

#[test]
fn comments() {
    let tests = vec![
        (
            "mov q0, 42 ; this is a comment",
            vec![
                tok(TokenKind::KwMov, "mov", (0, 3)),
                tok(TokenKind::Register, "q0", (4, 6)),
                tok(TokenKind::Comma, ",", (6, 7)),
                tok(TokenKind::Integer, "42", (8, 10)),
            ],
        ),
        (
            "; full line comment\nmov q0, 1",
            vec![
                tok(TokenKind::KwMov, "mov", (20, 23)),
                tok(TokenKind::Register, "q0", (24, 26)),
                tok(TokenKind::Comma, ",", (26, 27)),
                tok(TokenKind::Integer, "1", (28, 29)),
            ],
        ),
        (
            "nop ; comment\nhlt ; another comment",
            vec![
                tok(TokenKind::KwNop, "nop", (0, 3)),
                tok(TokenKind::KwHlt, "hlt", (14, 17)),
            ],
        ),
    ];

    for (input, expected) in tests {
        let tokens = lex(input);
        assert_eq!(tokens, expected);
    }
}

#[test]
fn strings() {
    let tests = vec![
        (
            r#""this is a string!""#,
            vec![tok(TokenKind::String, "this is a string!", (0, 19))],
        ),
        (
            r#""this is a very very very very very long string!""#,
            vec![tok(
                TokenKind::String,
                "this is a very very very very very long string!",
                (0, 49),
            )],
        ),
        (
            r#""escaped quote: \"""#,
            vec![tok(
                TokenKind::String,
                r#"escaped quote: ""#,
                (0, 19),
            )],
        ),
        (
            r#""newline:\n tab:\t backslash:\\ quote:\"""#,
            vec![tok(
                TokenKind::String,
                "newline:\n tab:\t backslash:\\ quote:\"",
                (0, 41),
            )],
        ),
    ];

    for (input, expected) in tests {
        let tokens = lex(input);
        assert_eq!(tokens, expected);
    }
}
