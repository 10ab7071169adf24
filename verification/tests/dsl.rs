use run_tests::describe;
use run_tests::errors::ErrorKind;
use run_tests::fixture::TestSuite;
use run_tests::generate::GenStmt;
use run_tests::keywords::Root;
use run_tests::names::sanitize_label;
use run_tests::suite::Suite;
use run_tests::suite::SuiteSingleton;
use run_tests::tokens::Token;

fn ident(s: &str) -> Token {
    Token::Ident(s.to_string())
}

fn lit(s: &str) -> Token {
    Token::LitStr(s.to_string())
}

fn tok_eq(a: &Token, b: &Token) -> bool {
    match (a, b) {
        (Token::Ident(x), Token::Ident(y)) => x == y,
        (Token::LitStr(x), Token::LitStr(y)) => x == y,
        (Token::LBrace, Token::LBrace) => true,
        (Token::RBrace, Token::RBrace) => true,
        (Token::Comma, Token::Comma) => true,
        (Token::Other(x), Token::Other(y)) => x == y,
        _ => false,
    }
}

fn toks_eq(a: &[Token], b: &[Token]) -> bool {
    a.len() == b.len() && a.iter().zip(b.iter()).all(|(x, y)| tok_eq(x, y))
}

#[test]
fn test() {
    assert_eq!(1, 1)
}

#[test]
fn suite_scenario_two_functions() {
    // suite T { TestFunc, TestFunc2 }
    let toks = vec![
        ident("suite"),
        ident("T"),
        Token::LBrace,
        ident("TestFunc"),
        Token::Comma,
        ident("TestFunc2"),
        Token::RBrace,
    ];
    let root = Root::parse(&toks).expect("valid input must parse");
    assert_eq!(root.ident, "tests");
    assert_eq!(root.describes.len(), 1);
    let s = &root.describes[0];
    assert_eq!(s.ident, "suite");
    assert_eq!(s.suite_struct, "T");
    assert_eq!(s.suite_struct_name, "t");
    assert_eq!(s.functions.len(), 2);
    assert_eq!(s.functions[0].function, "TestFunc");
    assert_eq!(s.functions[0].function_name, "test_func");
    assert_eq!(s.functions[0].struct_ident, "T");
    assert_eq!(s.functions[1].function, "TestFunc2");
    assert_eq!(s.functions[1].function_name, "test_func_2");

    let gen = root.generate();
    assert_eq!(gen.ident, "tests");
    assert_eq!(gen.modules.len(), 1);
    let m = &gen.modules[0];
    assert_eq!(m.ident, "t");
    assert_eq!(m.holder.as_deref(), Some("T"));
    assert!(!m.declares_guard);
    assert_eq!(m.tests.len(), 2);
    for t in &m.tests {
        assert_eq!(t.stmts.len(), 3);
        assert!(matches!(t.stmts[0], GenStmt::BeforeHook));
        assert!(matches!(t.stmts[2], GenStmt::AfterHook));
    }
    match &m.tests[0].stmts[1] {
        GenStmt::CallMethod { method } => assert_eq!(method, "TestFunc"),
        _ => panic!("expected a method call"),
    }
    assert_eq!(m.tests[0].ident, "test_func");
    assert_eq!(m.tests[1].ident, "test_func_2");
}

#[test]
fn suite_trailing_comma_tolerated() {
    let toks = vec![
        ident("suite"),
        ident("TestSuite"),
        Token::LBrace,
        ident("base_test"),
        Token::Comma,
        Token::RBrace,
    ];
    let root = Root::parse(&toks).expect("trailing comma is tolerated");
    assert_eq!(root.describes[0].suite_struct_name, "test_suite");
    assert_eq!(root.describes[0].functions.len(), 1);
    assert_eq!(root.describes[0].functions[0].function_name, "base_test");
}

#[test]
fn suite_empty_function_list() {
    let toks = vec![ident("suite"), ident("T"), Token::LBrace, Token::RBrace];
    let root = Root::parse(&toks).expect("an empty list is legal");
    assert_eq!(root.describes[0].functions.len(), 0);
}

#[test]
fn empty_input_is_legal_in_both_dialects() {
    let toks: Vec<Token> = vec![];
    let root = Root::parse(&toks).expect("empty input is not an error");
    assert_eq!(root.describes.len(), 0);
    assert_eq!(root.generate().modules.len(), 0);

    let droot = describe::Root::parse(&toks).expect("empty input is not an error");
    assert_eq!(droot.describes.len(), 0);
    assert_eq!(droot.generate().modules.len(), 0);
}

#[test]
fn naming_is_deterministic_and_exact() {
    let a = sanitize_label("Add positive numbers: success");
    assert_eq!(a, "add_positive_numbers_success");
    let b = sanitize_label("Add positive numbers: success");
    assert_eq!(a, b);
    // the label wrapper must not hand its argument back unchanged
    assert_eq!(sanitize_label("A:B C"), "ab_c");
}

#[test]
fn missing_closing_brace_rejected() {
    let toks = vec![ident("suite"), ident("T"), Token::LBrace, ident("f")];
    let e = Root::parse(&toks).expect_err("unterminated block must fail");
    assert_eq!(e.kind, ErrorKind::UnterminatedBlock);
    assert_eq!(e.message(), "unterminated block");
}

#[test]
fn unknown_keyword_rejected() {
    let toks = vec![ident("bogus"), ident("T"), Token::LBrace, Token::RBrace];
    let e = Root::parse(&toks).expect_err("unknown keyword must fail");
    assert_eq!(e.kind, ErrorKind::UnknownKeyword);
    assert_eq!(e.pos, 0);
    assert_eq!(e.message(), "unknown keyword");

    let e2 = describe::Root::parse(&toks).expect_err("unknown keyword must fail");
    assert_eq!(e2.kind, ErrorKind::UnknownKeyword);
}

#[test]
fn unexpected_token_rejected() {
    let toks = vec![Token::Comma];
    let e = Root::parse(&toks).expect_err("a stray comma must fail");
    assert_eq!(e.kind, ErrorKind::UnexpectedToken);
    assert_eq!(e.message(), "unexpected token");
}

#[test]
fn describe_scenario_two_tests_no_hooks() {
    // describe "Addition" { test "success: Add positive numbers" { a , b }
    //                       test "success: Add negative numbers" { c } }
    let body1 = vec![ident("a"), Token::Comma, ident("b")];
    let body2 = vec![ident("c")];
    let mut toks = vec![ident("describe"), lit("Addition"), Token::LBrace];
    toks.push(ident("test"));
    toks.push(lit("success: Add positive numbers"));
    toks.push(Token::LBrace);
    toks.extend(body1.iter().map(dup));
    toks.push(Token::RBrace);
    toks.push(ident("test"));
    toks.push(lit("success: Add negative numbers"));
    toks.push(Token::LBrace);
    toks.extend(body2.iter().map(dup));
    toks.push(Token::RBrace);
    toks.push(Token::RBrace);

    let root = describe::Root::parse(&toks).expect("valid input must parse");
    assert_eq!(root.describes.len(), 1);
    let d = &root.describes[0];
    assert_eq!(d.name, "Addition");
    assert!(d.setup.is_none() && d.teardown.is_none());
    assert!(d.setup_all.is_none() && d.teardown_all.is_none());
    assert_eq!(d.tests.len(), 2);

    let gen = root.generate();
    let m = &gen.modules[0];
    assert_eq!(m.ident, "addition");
    assert!(m.holder.is_none());
    assert!(!m.declares_guard, "no run-once hook, no guard");
    assert_eq!(m.tests.len(), 2);
    assert_eq!(m.tests[0].ident, "success_add_positive_numbers");
    assert_eq!(m.tests[1].ident, "success_add_negative_numbers");
    assert_eq!(m.tests[0].stmts.len(), 1);
    match &m.tests[0].stmts[0] {
        GenStmt::Inline { body } => assert!(toks_eq(body, &body1)),
        _ => panic!("expected the inline body"),
    }
    match &m.tests[1].stmts[0] {
        GenStmt::Inline { body } => assert!(toks_eq(body, &body2)),
        _ => panic!("expected the inline body"),
    }
}

fn dup(t: &Token) -> Token {
    t.duplicate()
}

#[test]
fn hook_ordering_in_generated_test() {
    // describe "G" { setup { s } setup_all { sa } teardown { t }
    //                teardown_all { ta } test "one" { x { y } } }
    let toks = vec![
        ident("describe"),
        lit("G"),
        Token::LBrace,
        ident("setup"),
        Token::LBrace,
        ident("s"),
        Token::RBrace,
        ident("setup_all"),
        Token::LBrace,
        ident("sa"),
        Token::RBrace,
        ident("teardown"),
        Token::LBrace,
        ident("t"),
        Token::RBrace,
        ident("teardown_all"),
        Token::LBrace,
        ident("ta"),
        Token::RBrace,
        ident("test"),
        lit("one"),
        Token::LBrace,
        ident("x"),
        Token::LBrace,
        ident("y"),
        Token::RBrace,
        Token::RBrace,
        Token::RBrace,
    ];
    let root = describe::Root::parse(&toks).expect("valid input must parse");
    let d = &root.describes[0];
    assert!(toks_eq(d.setup.as_ref().unwrap(), &[ident("s")]));
    assert!(toks_eq(d.setup_all.as_ref().unwrap(), &[ident("sa")]));
    assert!(toks_eq(d.teardown.as_ref().unwrap(), &[ident("t")]));
    assert!(toks_eq(d.teardown_all.as_ref().unwrap(), &[ident("ta")]));
    assert_eq!(d.tests.len(), 1);
    let nested = [ident("x"), Token::LBrace, ident("y"), Token::RBrace];
    assert!(toks_eq(&d.tests[0].content, &nested), "nested braces stay in the body");

    let gen = root.generate();
    let m = &gen.modules[0];
    assert!(m.declares_guard, "a run-once hook is present, so the guard is declared");
    let stmts = &m.tests[0].stmts;
    assert_eq!(stmts.len(), 5);
    match &stmts[0] {
        GenStmt::Inline { body } => assert!(toks_eq(body, &[ident("s")])),
        _ => panic!("per-test setup must come first"),
    }
    match &stmts[1] {
        GenStmt::RunOnce { body } => assert!(toks_eq(body, &[ident("sa")])),
        _ => panic!("the setup-all body must stand under the run-once guard"),
    }
    match &stmts[2] {
        GenStmt::Inline { body } => assert!(toks_eq(body, &nested)),
        _ => panic!("the test body must stand between the hooks"),
    }
    match &stmts[3] {
        GenStmt::RunOnce { body } => assert!(toks_eq(body, &[ident("ta")])),
        _ => panic!("the teardown-all body must stand under the run-once guard"),
    }
    match &stmts[4] {
        GenStmt::Inline { body } => assert!(toks_eq(body, &[ident("t")])),
        _ => panic!("per-test teardown must come last"),
    }
}

#[test]
fn duplicate_hook_rejected() {
    let toks = vec![
        ident("describe"),
        lit("G"),
        Token::LBrace,
        ident("setup"),
        Token::LBrace,
        Token::RBrace,
        ident("setup"),
        Token::LBrace,
        Token::RBrace,
        Token::RBrace,
    ];
    let e = describe::Root::parse(&toks).expect_err("a second setup must fail");
    assert_eq!(e.kind, ErrorKind::DuplicateHook);
    assert_eq!(e.message(), "duplicate hook");
}

#[test]
fn describe_missing_closing_brace_rejected() {
    let toks = vec![
        ident("describe"),
        lit("G"),
        Token::LBrace,
        ident("test"),
        lit("one"),
        Token::LBrace,
        ident("x"),
    ];
    let e = describe::Root::parse(&toks).expect_err("unterminated body must fail");
    assert_eq!(e.kind, ErrorKind::UnterminatedBlock);
}

#[test]
fn singleton_constructs_once_and_reuses_the_instance() {
    let mut holder: SuiteSingleton<TestSuite> = SuiteSingleton::new();
    assert_eq!(holder.get().input, "", "first access constructs the default instance");
    holder.get_mut().before_test();
    assert_eq!(holder.get().input, "1", "second access returns the same, mutated instance");
    holder.get().base_test();
    holder.get_mut().after_test();
    assert_eq!(holder.get().input, "", "the instance persists across accesses");
}

#[test]
fn trailing_tokens_after_suite_rejected() {
    let toks = vec![
        ident("suite"),
        ident("T"),
        Token::LBrace,
        Token::RBrace,
        Token::Comma,
    ];
    let e = Root::parse(&toks).expect_err("a stray token after the block must fail");
    assert_eq!(e.kind, ErrorKind::UnexpectedToken);
    assert_eq!(e.pos, 4);
}

#[test]
fn hooks_and_tests_may_interleave() {
    let toks = vec![
        ident("describe"),
        lit("G"),
        Token::LBrace,
        ident("test"),
        lit("one"),
        Token::LBrace,
        Token::RBrace,
        ident("setup"),
        Token::LBrace,
        ident("s"),
        Token::RBrace,
        Token::RBrace,
    ];
    let root = describe::Root::parse(&toks).expect("a hook after a test is accepted");
    let d = &root.describes[0];
    assert_eq!(d.tests.len(), 1);
    assert!(toks_eq(d.setup.as_ref().unwrap(), &[ident("s")]));
}

#[test]
fn two_suites_in_order() {
    let toks = vec![
        ident("suite"),
        ident("Alpha"),
        Token::LBrace,
        Token::RBrace,
        ident("suite"),
        ident("Beta"),
        Token::LBrace,
        Token::RBrace,
    ];
    let root = Root::parse(&toks).expect("two blocks must parse");
    assert_eq!(root.describes.len(), 2);
    assert_eq!(root.describes[0].suite_struct_name, "alpha");
    assert_eq!(root.describes[1].suite_struct_name, "beta");
}

#[test]
fn add_works() {
    assert_eq!(run_tests::add(1, 1), 2);
    assert_eq!(run_tests::add(-2, -2), -4);
}
