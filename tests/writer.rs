use peg::grammar::{check_ident, Expr};
use peg::emit::compile_expr;
use peg::writer::CodeWriter;

#[test]
fn blocks_nest_and_close() {
    let mut w = CodeWriter::new();
    let s0 = w.open_fn(true, "f", "x: u8", "u8");
    let s1 = w.open_if("x > 1");
    w.line("x");
    let s2 = w.else_branch(s1);
    w.let_stmt("y", "x + 1");
    w.let_mut_stmt("z", "y");
    w.line("z");
    w.close(s2, "}");
    w.close(s0, "}");
    w.line("// end");
    let expected = "pub fn f(x: u8) -> u8 {
    if x > 1 {
        x
    } else {
        let y = x + 1;
        let mut z = y;
        z
    }
}
// end
";
    assert_eq!(w.into_string(), expected);
}

#[test]
fn match_and_loop_blocks() {
    let mut w = CodeWriter::new();
    let s0 = w.open_loop();
    let s1 = w.open_let_block("r");
    w.line("1");
    w.close(s1, "};");
    let s2 = w.open_match("r");
    w.inline_case("1", "break");
    let s3 = w.open_case("_");
    w.write_indent();
    w.write("continue;\n");
    w.close(s3, "}");
    w.close(s2, "}");
    w.close(s0, "}");
    let expected = "loop {
    let r = {
        1
    };
    match r {
        1 => break,
        _ => {
            continue;
        }
    }
}
";
    assert_eq!(w.into_string(), expected);
}

#[test]
fn expression_at_current_indent() {
    let mut w = CodeWriter::new();
    let s = w.open_let_block("v");
    compile_expr(&mut w, &Expr::RuleExpr("item".to_string()), true);
    w.close(s, "};");
    assert_eq!(w.into_string(), "let v = {\n    parse_item(input, pos)\n};\n");
}

#[test]
fn identifiers() {
    assert!(check_ident("abc_1"));
    assert!(check_ident("_x"));
    assert!(!check_ident(""));
    assert!(!check_ident("9a"));
    assert!(!check_ident("a b"));
}
