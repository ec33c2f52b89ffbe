use std::collections::HashMap;

use nyx::ast::{BinaryOperator, Expression, Statement};
use nyx::compiler::Compiler;
use nyx::immediate::Immediate;
use nyx::lexer::Lexer;
use nyx::parser::Parser;
use nyx::vm::{RunOutcome, VM};
use nyx::float::{FloatOp, FloatOrder, FloatUnit};
use nyx::preprocessor::{fold_int, Error as PreprocessError, IncludeLoader, LoadFailure, Preprocessor};
use nyx::register::Register;
use nyx::span::Span;

struct HostFloat;

impl FloatUnit for HostFloat {
    fn f32_arith(&self, op: FloatOp, a: u32, b: u32) -> u32 {
        let (x, y) = (f32::from_bits(a), f32::from_bits(b));
        match op {
            FloatOp::Add => (x + y).to_bits(),
            FloatOp::Sub => (x - y).to_bits(),
            FloatOp::Mul => (x * y).to_bits(),
            FloatOp::Div => (x / y).to_bits(),
        }
    }
    fn f64_arith(&self, op: FloatOp, a: u64, b: u64) -> u64 {
        let (x, y) = (f64::from_bits(a), f64::from_bits(b));
        match op {
            FloatOp::Add => (x + y).to_bits(),
            FloatOp::Sub => (x - y).to_bits(),
            FloatOp::Mul => (x * y).to_bits(),
            FloatOp::Div => (x / y).to_bits(),
        }
    }
    fn f32_compare(&self, a: u32, b: u32) -> FloatOrder {
        order(f32::from_bits(a).partial_cmp(&f32::from_bits(b)))
    }
    fn f64_compare(&self, a: u64, b: u64) -> FloatOrder {
        order(f64::from_bits(a).partial_cmp(&f64::from_bits(b)))
    }
    fn f32_from_unsigned(&self, v: u64) -> u32 {
        (v as f32).to_bits()
    }
    fn f64_from_unsigned(&self, v: u64) -> u64 {
        (v as f64).to_bits()
    }
    fn f32_from_signed(&self, v: i64) -> u32 {
        (v as f32).to_bits()
    }
    fn f64_from_signed(&self, v: i64) -> u64 {
        (v as f64).to_bits()
    }
    fn f32_from_f64(&self, bits: u64) -> u32 {
        (f64::from_bits(bits) as f32).to_bits()
    }
    fn f64_from_f32(&self, bits: u32) -> u64 {
        (f32::from_bits(bits) as f64).to_bits()
    }
    fn f64_from_decimal(&self, text: &String) -> Option<u64> {
        text.parse::<f64>().ok().map(|f| f.to_bits())
    }

    fn f32_to_unsigned(&self, bits: u32, bytes: u8) -> u64 {
        let x = f32::from_bits(bits);
        match bytes {
            1 => x as u8 as u64,
            2 => x as u16 as u64,
            4 => x as u32 as u64,
            _ => x as u64,
        }
    }
    fn f64_to_unsigned(&self, bits: u64, bytes: u8) -> u64 {
        let x = f64::from_bits(bits);
        match bytes {
            1 => x as u8 as u64,
            2 => x as u16 as u64,
            4 => x as u32 as u64,
            _ => x as u64,
        }
    }
}

fn order(o: Option<std::cmp::Ordering>) -> FloatOrder {
    match o {
        Some(std::cmp::Ordering::Less) => FloatOrder::Less,
        Some(std::cmp::Ordering::Equal) => FloatOrder::Equal,
        Some(std::cmp::Ordering::Greater) => FloatOrder::Greater,
        None => FloatOrder::Unordered,
    }
}

/// Included files held in memory, each already parsed.
struct Files {
    files: HashMap<String, Vec<Statement>>,
}

impl IncludeLoader for Files {
    fn locate(&self, dir: &String, file: &String) -> Option<String> {
        let path = if dir.is_empty() { file.clone() } else { format!("{}/{}", dir, file) };
        if self.files.contains_key(&path) {
            Some(path)
        } else {
            None
        }
    }

    fn load(&self, path: &String) -> Result<Vec<Statement>, LoadFailure> {
        match self.files.get(path) {
            Some(stmts) => Ok(stmts.iter().map(copy_statement).collect()),
            None => Err(LoadFailure::Unreadable),
        }
    }
}

fn copy_expr(e: &Expression) -> Expression {
    nyx::preprocessor::copy_expr(e)
}

fn copy_statement(s: &Statement) -> Statement {
    match s {
        Statement::Label(n, sp) => Statement::Label(n.clone(), *sp),
        Statement::Define(a, b, sp) => Statement::Define(copy_expr(a), copy_expr(b), *sp),
        Statement::Include(a, sp) => Statement::Include(copy_expr(a), *sp),
        Statement::Mov(a, b, sp) => Statement::Mov(copy_expr(a), copy_expr(b), *sp),
        Statement::Add(a, b, c, sp) => Statement::Add(copy_expr(a), copy_expr(b), copy_expr(c), *sp),
        Statement::Mul(a, b, c, sp) => Statement::Mul(copy_expr(a), copy_expr(b), copy_expr(c), *sp),
        Statement::Ret(sp) => Statement::Ret(*sp),
        Statement::Hlt(sp) => Statement::Hlt(*sp),
        other => panic!("not used in these tests: {:?}", other),
    }
}

fn no_files() -> Files {
    Files { files: HashMap::new() }
}

fn sp(a: usize, b: usize) -> Span {
    Span::new(a, b)
}

fn z() -> Span {
    Span::new(0, 0)
}

fn r(x: Register) -> Expression {
    Expression::Register(x)
}

fn lit(v: i64) -> Expression {
    Expression::IntegerLiteral(v)
}

fn ident(s: &str) -> Expression {
    Expression::Identifier(s.to_string())
}

fn string(s: &str) -> Expression {
    Expression::StringLiteral(s.to_string())
}

fn def(name: &str, value: Expression) -> Statement {
    Statement::Define(ident(name), value, z())
}

fn preprocess(program: Vec<Statement>) -> Result<Vec<Statement>, PreprocessError> {
    Preprocessor::new(program).process(&no_files(), &HostFloat)
}

fn preprocess_with(program: Vec<Statement>, files: Files) -> Result<Vec<Statement>, PreprocessError> {
    Preprocessor::new(program).process(&files, &HostFloat)
}

#[test]
fn define() {
    let program = vec![
        def("NUMBER", lit(1337)),
        Statement::Label("_start".into(), sp(20, 27)),
        Statement::Mov(r(Register::Q0), ident("NUMBER"), sp(32, 46)),
        Statement::Hlt(sp(51, 54)),
    ];
    let expected = vec![
        Statement::Label("_start".into(), sp(20, 27)),
        Statement::Mov(r(Register::Q0), lit(1337), sp(32, 46)),
        Statement::Hlt(sp(51, 54)),
    ];
    assert_eq!(preprocess(program), Ok(expected));
}

#[test]
fn define_arithmetic() {
    let program = vec![
        def("A", lit(10)),
        def("B", lit(5)),
        Statement::Label("_start".into(), sp(25, 32)),
        Statement::Mov(r(Register::Q0), ident("A"), sp(37, 46)),
        Statement::Mov(r(Register::Q1), ident("B"), sp(51, 60)),
        Statement::Add(r(Register::Q2), r(Register::Q0), r(Register::Q1), sp(65, 79)),
        Statement::Sub(r(Register::Q3), r(Register::Q0), ident("B"), sp(84, 97)),
        Statement::Mul(r(Register::Q4), r(Register::Q0), ident("A"), sp(102, 115)),
        Statement::Hlt(sp(120, 123)),
    ];
    let expected = vec![
        Statement::Label("_start".into(), sp(25, 32)),
        Statement::Mov(r(Register::Q0), lit(10), sp(37, 46)),
        Statement::Mov(r(Register::Q1), lit(5), sp(51, 60)),
        Statement::Add(r(Register::Q2), r(Register::Q0), r(Register::Q1), sp(65, 79)),
        Statement::Sub(r(Register::Q3), r(Register::Q0), lit(5), sp(84, 97)),
        Statement::Mul(r(Register::Q4), r(Register::Q0), lit(10), sp(102, 115)),
        Statement::Hlt(sp(120, 123)),
    ];
    assert_eq!(preprocess(program), Ok(expected));
}

#[test]
fn include_basic() {
    let mut files = HashMap::new();
    files.insert(
        "header.nyx".to_string(),
        vec![
            def("MAGIC_NUMBER", lit(42)),
            Statement::Label("helper_function".into(), sp(24, 40)),
            Statement::Mov(r(Register::Q0), ident("MAGIC_NUMBER"), sp(45, 65)),
            Statement::Ret(sp(70, 73)),
        ],
    );
    let program = vec![
        Statement::Include(string("header.nyx"), z()),
        Statement::Label("_start".into(), sp(22, 29)),
        Statement::Call(ident("helper_function"), sp(34, 54)),
        Statement::Hlt(sp(59, 62)),
    ];
    let expected = vec![
        Statement::Label("helper_function".into(), sp(24, 40)),
        Statement::Mov(r(Register::Q0), lit(42), sp(45, 65)),
        Statement::Ret(sp(70, 73)),
        Statement::Label("_start".into(), sp(22, 29)),
        Statement::Call(ident("helper_function"), sp(34, 54)),
        Statement::Hlt(sp(59, 62)),
    ];
    assert_eq!(preprocess_with(program, Files { files }), Ok(expected));
}

#[test]
fn include_file_not_found() {
    let program = vec![Statement::Include(string("nonexistent.nyx"), z()), Statement::Hlt(z())];
    assert!(matches!(preprocess(program), Err(PreprocessError::IncludeFileNotFound { .. })));
}

#[test]
fn include_circular_dependency() {
    let mut files = HashMap::new();
    files.insert("a.nyx".to_string(), vec![Statement::Include(string("b.nyx"), z()), def("FROM_A", lit(1))]);
    files.insert("b.nyx".to_string(), vec![Statement::Include(string("a.nyx"), z()), def("FROM_B", lit(2))]);
    let program = vec![Statement::Include(string("a.nyx"), z()), Statement::Hlt(z())];
    assert!(matches!(
        preprocess_with(program, Files { files }),
        Err(PreprocessError::CircularInclude { .. })
    ));
}

#[test]
fn include_back_to_the_including_file() {
    let mut files = HashMap::new();
    files.insert("x".to_string(), vec![Statement::Include(string("main.nyx"), z())]);
    files.insert("main.nyx".to_string(), vec![Statement::Include(string("x"), z())]);
    let program = vec![Statement::Include(string("x"), z())];
    assert!(matches!(
        preprocess_with(program, Files { files }),
        Err(PreprocessError::CircularInclude { .. })
    ));
}

#[test]
fn include_with_multiple_include_paths() {
    let mut files = HashMap::new();
    files.insert("lib/common.nyx".to_string(), vec![def("COMMON_CONST", lit(100))]);
    files.insert("src/specific.nyx".to_string(), vec![def("SPECIFIC_CONST", lit(200))]);
    let program = vec![
        Statement::Include(string("common.nyx"), z()),
        Statement::Include(string("specific.nyx"), z()),
        Statement::Mov(r(Register::Q0), ident("COMMON_CONST"), z()),
        Statement::Mov(r(Register::Q1), ident("SPECIFIC_CONST"), z()),
    ];
    let out = Preprocessor::new(program)
        .with_include_paths(vec!["lib".to_string(), "src".to_string()])
        .process(&Files { files }, &HostFloat);
    assert_eq!(
        out,
        Ok(vec![
            Statement::Mov(r(Register::Q0), lit(100), z()),
            Statement::Mov(r(Register::Q1), lit(200), z()),
        ])
    );
}

#[test]
fn ifdef_true_branch() {
    let program = vec![
        def("ENABLE", lit(1)),
        Statement::IfDef(ident("ENABLE"), z()),
        Statement::Label("_start".into(), sp(32, 39)),
        Statement::Mov(r(Register::Q0), lit(123), sp(44, 55)),
        Statement::EndIf(z()),
        Statement::Hlt(sp(67, 70)),
    ];
    assert_eq!(
        preprocess(program),
        Ok(vec![
            Statement::Label("_start".into(), sp(32, 39)),
            Statement::Mov(r(Register::Q0), lit(123), sp(44, 55)),
            Statement::Hlt(sp(67, 70)),
        ])
    );
}

#[test]
fn ifdef_false_branch() {
    let program = vec![
        Statement::IfDef(ident("MISSING"), z()),
        Statement::Label("_start".into(), z()),
        Statement::Mov(r(Register::Q0), lit(123), z()),
        Statement::EndIf(z()),
        Statement::Hlt(sp(51, 54)),
    ];
    assert_eq!(preprocess(program), Ok(vec![Statement::Hlt(sp(51, 54))]));
}

#[test]
fn ifndef_true_branch() {
    let program = vec![
        Statement::IfNDef(ident("MISSING"), z()),
        Statement::Label("_start".into(), sp(17, 24)),
        Statement::Mov(r(Register::Q0), lit(456), sp(29, 40)),
        Statement::EndIf(z()),
        Statement::Hlt(sp(52, 55)),
    ];
    assert_eq!(
        preprocess(program),
        Ok(vec![
            Statement::Label("_start".into(), sp(17, 24)),
            Statement::Mov(r(Register::Q0), lit(456), sp(29, 40)),
            Statement::Hlt(sp(52, 55)),
        ])
    );
}

#[test]
fn ifndef_false_branch() {
    let program = vec![
        def("FEATURE", lit(1)),
        Statement::IfNDef(ident("FEATURE"), z()),
        Statement::Label("_start".into(), z()),
        Statement::Mov(r(Register::Q0), lit(999), z()),
        Statement::EndIf(z()),
        Statement::Hlt(sp(70, 73)),
    ];
    assert_eq!(preprocess(program), Ok(vec![Statement::Hlt(sp(70, 73))]));
}

#[test]
fn ifdef_with_else_true_branch() {
    let program = vec![
        def("DEBUG", lit(1)),
        Statement::IfDef(ident("DEBUG"), z()),
        Statement::Label("_start".into(), sp(30, 37)),
        Statement::Mov(r(Register::Q0), lit(111), sp(42, 53)),
        Statement::Else(z()),
        Statement::Mov(r(Register::Q0), lit(222), z()),
        Statement::EndIf(z()),
        Statement::Hlt(sp(87, 90)),
    ];
    assert_eq!(
        preprocess(program),
        Ok(vec![
            Statement::Label("_start".into(), sp(30, 37)),
            Statement::Mov(r(Register::Q0), lit(111), sp(42, 53)),
            Statement::Hlt(sp(87, 90)),
        ])
    );
}

#[test]
fn ifdef_with_else_false_branch() {
    let program = vec![
        Statement::IfDef(ident("DEBUG"), z()),
        Statement::Label("_start".into(), z()),
        Statement::Mov(r(Register::Q0), lit(111), z()),
        Statement::Else(z()),
        Statement::Mov(r(Register::Q0), lit(222), sp(48, 59)),
        Statement::EndIf(z()),
        Statement::Hlt(sp(71, 74)),
    ];
    assert_eq!(
        preprocess(program),
        Ok(vec![Statement::Mov(r(Register::Q0), lit(222), sp(48, 59)), Statement::Hlt(sp(71, 74))])
    );
}

#[test]
fn error() {
    let program = vec![Statement::Error(string("this is an error!"), z())];
    let result = preprocess(program);
    assert!(result.is_err());
    let err = result.unwrap_err().message();
    assert!(err.contains("this is an error!"), "error message missing or wrong: {err}");
}

#[test]
fn unmatched_directives() {
    assert_eq!(preprocess(vec![Statement::Else(sp(1, 2))]), Err(PreprocessError::UnmatchedElse(sp(1, 2))));
    assert_eq!(preprocess(vec![Statement::EndIf(sp(1, 2))]), Err(PreprocessError::UnmatchedEndif(sp(1, 2))));
    assert_eq!(
        preprocess(vec![Statement::IfDef(ident("X"), sp(3, 4))]),
        Err(PreprocessError::UnmatchedIfdef(sp(3, 4)))
    );
    assert_eq!(
        preprocess(vec![Statement::IfNDef(ident("X"), sp(3, 4))]),
        Err(PreprocessError::UnmatchedIfndef(sp(3, 4)))
    );
    assert_eq!(
        preprocess(vec![Statement::IfDef(ident("X"), z()), Statement::Else(z()), Statement::Else(sp(5, 6))]),
        Err(PreprocessError::UnmatchedElse(sp(5, 6)))
    );
}

#[test]
fn invalid_keys_and_paths() {
    assert_eq!(
        preprocess(vec![Statement::Define(lit(1), lit(2), sp(1, 2))]),
        Err(PreprocessError::InvalidDefineKey(sp(1, 2)))
    );
    assert_eq!(
        preprocess(vec![Statement::Include(lit(1), sp(1, 2))]),
        Err(PreprocessError::InvalidIncludePath(sp(1, 2)))
    );
    assert_eq!(
        preprocess(vec![Statement::IfDef(lit(1), sp(1, 2))]),
        Err(PreprocessError::InvalidConditionalExpr(sp(1, 2)))
    );
}

#[test]
fn constants_fold_and_float_bitwise_fails() {
    let two_floats = |op| {
        Expression::BinaryOp(
            Box::new(Expression::FloatLiteral(1.5f64.to_bits())),
            op,
            Box::new(Expression::FloatLiteral(2.0f64.to_bits())),
            sp(7, 9),
        )
    };
    assert_eq!(
        preprocess(vec![Statement::Mov(r(Register::DD0), two_floats(BinaryOperator::Add), z())]),
        Ok(vec![Statement::Mov(r(Register::DD0), Expression::FloatLiteral(3.5f64.to_bits()), z())])
    );
    assert_eq!(
        preprocess(vec![Statement::Mov(r(Register::DD0), two_floats(BinaryOperator::BitOr), z())]),
        Err(PreprocessError::InvalidOperatorForFloat { op: BinaryOperator::BitOr, span: sp(7, 9) })
    );
    assert_eq!(fold_int(BinaryOperator::Add, i64::MAX, 1), Some(i64::MIN));
    assert_eq!(fold_int(BinaryOperator::Div, -7, 2), Some(-3));
    assert_eq!(fold_int(BinaryOperator::Div, i64::MIN, -1), Some(i64::MIN));
    assert_eq!(fold_int(BinaryOperator::Div, 1, 0), None);
    assert_eq!(fold_int(BinaryOperator::BitXor, 0b1100, 0b1010), Some(0b0110));
}

#[test]
fn division_by_zero_in_constant() {
    let e = Expression::BinaryOp(Box::new(lit(1)), BinaryOperator::Div, Box::new(lit(0)), z());
    assert_eq!(
        preprocess(vec![Statement::Mov(r(Register::Q0), e, sp(1, 2))]),
        Err(PreprocessError::DivisionByZero(sp(1, 2)))
    );
}

#[test]
fn self_referential_definition_is_refused() {
    let program = vec![def("A", ident("A")), Statement::Mov(r(Register::Q0), ident("A"), sp(1, 2))];
    assert_eq!(preprocess(program), Err(PreprocessError::DefinitionTooDeep(sp(1, 2))));
}

#[test]
fn defines_flow_into_the_machine() {
    let program = vec![
        def("N", lit(10)),
        def("M", lit(5)),
        Statement::Mov(r(Register::Q0), ident("N"), z()),
        Statement::Add(r(Register::Q1), r(Register::Q0), ident("M"), z()),
        Statement::Hlt(z()),
    ];
    let expanded = preprocess(program).unwrap();
    assert_eq!(expanded[0], Statement::Mov(r(Register::Q0), lit(10), z()));
    assert_eq!(expanded[1], Statement::Add(r(Register::Q1), r(Register::Q0), lit(5), z()));
    let image = Compiler::new(expanded).compile(&HostFloat).unwrap();
    let mut vm = VM::new(image, 256).unwrap();
    assert_eq!(vm.run(&HostFloat, 100), Ok(RunOutcome::Halted));
    assert_eq!(vm.regs.get(Register::Q1), Immediate::QWord(15));
}

#[test]
fn unreadable_and_malformed_includes() {
    struct Broken;
    impl IncludeLoader for Broken {
        fn locate(&self, _dir: &String, file: &String) -> Option<String> {
            Some(file.clone())
        }
        fn load(&self, path: &String) -> Result<Vec<Statement>, LoadFailure> {
            if path == "bad.nyx" {
                Err(LoadFailure::Malformed("unexpected token".to_string()))
            } else {
                Err(LoadFailure::Unreadable)
            }
        }
    }
    let read = Preprocessor::new(vec![Statement::Include(string("gone.nyx"), z())]).process(&Broken, &HostFloat);
    assert!(matches!(read, Err(PreprocessError::IncludeReadError { .. })));
    let parsed = Preprocessor::new(vec![Statement::Include(string("bad.nyx"), z())]).process(&Broken, &HostFloat);
    assert!(matches!(parsed, Err(PreprocessError::IncludeParseError { .. })));
}

#[test]
fn include_recursion_is_bounded() {
    struct Endless;
    impl IncludeLoader for Endless {
        fn locate(&self, _dir: &String, file: &String) -> Option<String> {
            Some(file.clone())
        }
        fn load(&self, path: &String) -> Result<Vec<Statement>, LoadFailure> {
            let next = format!("{}x", path);
            Ok(vec![Statement::Include(Expression::StringLiteral(next), Span::new(0, 0))])
        }
    }
    let out = Preprocessor::new(vec![Statement::Include(string("a"), z())]).process(&Endless, &HostFloat);
    assert!(matches!(out, Err(PreprocessError::IncludeTooDeep { .. })));
}

/// Included files held in memory as source text.
struct Sources {
    files: HashMap<String, String>,
}

fn parse_text(text: &str) -> Vec<Statement> {
    Parser::new(Lexer::new(text.chars().collect())).parse(&HostFloat).expect("parses")
}

impl IncludeLoader for Sources {
    fn locate(&self, dir: &String, file: &String) -> Option<String> {
        let path = if dir.is_empty() { file.clone() } else { format!("{}/{}", dir, file) };
        if self.files.contains_key(&path) {
            Some(path)
        } else {
            None
        }
    }

    fn load(&self, path: &String) -> Result<Vec<Statement>, LoadFailure> {
        match self.files.get(path) {
            Some(text) => Ok(parse_text(text)),
            None => Err(LoadFailure::Unreadable),
        }
    }
}

fn preprocess_text(main: &str, files: Vec<(&str, &str)>) -> Result<Vec<Statement>, PreprocessError> {
    let files = files.into_iter().map(|(k, v)| (format!("tmp/{}", k), v.to_string())).collect();
    Preprocessor::new(parse_text(main))
        .with_include_paths(vec!["tmp".to_string()])
        .process(&Sources { files }, &HostFloat)
}

#[test]
fn include_with_defines() {
    let main_code = r#"#include "constants.nyx"
#define BUFFER_SIZE STACK_SIZE
_start:
    mov q0, BUFFER_SIZE
    mov q1, HEAP_START
    mov q2, MAX_ITERATIONS
    hlt"#;
    let expected = vec![
        Statement::Label("_start".into(), sp(56, 63)),
        Statement::Mov(r(Register::Q0), lit(1024), sp(68, 87)),
        Statement::Mov(r(Register::Q1), lit(2048), sp(92, 110)),
        Statement::Mov(r(Register::Q2), lit(100), sp(115, 137)),
        Statement::Hlt(sp(142, 145)),
    ];
    let result = preprocess_text(
        main_code,
        vec![(
            "constants.nyx",
            "#define STACK_SIZE 1024\n#define HEAP_START 2048\n#define MAX_ITERATIONS 100",
        )],
    );
    assert!(result.is_ok());
    assert_eq!(expected, result.unwrap());
}

#[test]
fn include_nested() {
    let main_code = "#include \"utils.nyx\"\n_start:\n    call add_func\n    mov RESULT_REG, q3\n    hlt";
    let result = preprocess_text(
        main_code,
        vec![
            ("math_ops.nyx", "add_func:\n    add q0, q1, q2\n    ret"),
            ("utils.nyx", "#include \"math_ops.nyx\"\n#define RESULT_REG q0"),
        ],
    );
    assert!(result.is_ok());
    let statements = result.unwrap();
    assert!(statements.len() > 3);
}

#[test]
fn include_multiple_files() {
    let main_code = "#include \"constants.nyx\"\n#include \"functions.nyx\"\n_start:\n    mov q0, PI\n    call square\n    mov q1, E\n    hlt";
    let result = preprocess_text(
        main_code,
        vec![
            ("constants.nyx", "#define PI 314\n#define E 271"),
            ("functions.nyx", "square:\n    mul q0, q0, q0\n    ret"),
        ],
    );
    assert!(result.is_ok());
    let statements = result.unwrap();
    assert!(statements.iter().any(|s| matches!(s, Statement::Label(name, _) if name == "square")));
    assert!(statements.iter().any(|s| matches!(s, Statement::Label(name, _) if name == "_start")));
}

#[test]
fn define_nested() {
    let input = "#define VALUE 42\n#define DOUBLE_VALUE VALUE\n_start:\n    mov q0, DOUBLE_VALUE\n    hlt";
    let expected = vec![
        Statement::Label("_start".into(), sp(44, 51)),
        Statement::Mov(r(Register::Q0), lit(42), sp(56, 76)),
        Statement::Hlt(sp(81, 84)),
    ];
    assert_eq!(preprocess(parse_text(input)), Ok(expected));
}

#[test]
fn define_addressing() {
    let input = "#define BUFFER_ADDR 1000\n#define OFFSET 16\n_start:\n    ldr q0, [BUFFER_ADDR, OFFSET]\n    str q1, [BUFFER_ADDR]\n    hlt";
    let expected = vec![
        Statement::Label("_start".into(), sp(43, 50)),
        Statement::Ldr(
            r(Register::Q0),
            Expression::Address(Box::new(lit(1000)), Some(Box::new(lit(16)))),
            sp(55, 84),
        ),
        Statement::Str(r(Register::Q1), Expression::Address(Box::new(lit(1000)), None), sp(89, 110)),
        Statement::Hlt(sp(115, 118)),
    ];
    assert_eq!(preprocess(parse_text(input)), Ok(expected));
}

#[test]
fn defined_sums_fold() {
    let program = vec![
        def("BASE", lit(40)),
        def("OFFSET", lit(2)),
        def("VALUE", Expression::BinaryOp(Box::new(ident("BASE")), BinaryOperator::Add, Box::new(ident("OFFSET")), z())),
        Statement::Mov(r(Register::Q0), ident("VALUE"), sp(44, 51)),
    ];
    assert_eq!(preprocess(program), Ok(vec![Statement::Mov(r(Register::Q0), lit(42), sp(44, 51))]));
}

#[test]
fn open_blocks_report_the_outermost() {
    assert_eq!(
        preprocess(vec![Statement::IfDef(ident("A"), sp(1, 2)), Statement::IfNDef(ident("B"), sp(3, 4))]),
        Err(PreprocessError::UnmatchedIfdef(sp(1, 2)))
    );
}
