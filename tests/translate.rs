use peg::grammar::{CharSetCase, ErrorKind, Expr, Grammar, Rule, TaggedExpr};
use peg::translate::{translate, BANNER, RUNTIME_HELPERS};

fn rule(name: &str, ret_type: &str, exported: bool, expr: Expr) -> Rule {
    Rule {
        name: name.to_string(),
        expr: Box::new(expr),
        ret_type: ret_type.to_string(),
        exported,
    }
}

fn grammar(rules: Vec<Rule>) -> Grammar {
    Grammar { initializer: None, rules }
}

fn lit(s: &str) -> Expr {
    Expr::LiteralExpr(s.to_string())
}

fn range(start: char, end: char) -> Expr {
    Expr::CharSetExpr(false, vec![CharSetCase { start, end }])
}

fn body(text: &str) -> &str {
    &text[BANNER.len() + RUNTIME_HELPERS.len()..]
}

#[test]
fn literal_rule_exported() {
    let g = grammar(vec![rule("greet", "()", true, lit("hi"))]);
    let out = translate(&g).ok().unwrap();
    let expected = "#[allow(unused_variables, unused_mut)]
fn parse_greet(input: &str, pos: usize) -> Result<(usize, ()), usize> {
    slice_eq(input, pos, \"hi\")
}
pub fn greet(input: &str) -> Result<(), String> {
    match parse_greet(input, 0) {
        Ok((pos, value)) => {
            if pos == input.len() {
                Ok(value)
            } else {
                Err(format!(\"Expected end of input at line {}\", pos_to_line(input, pos)))
            }
        }
        Err(pos) => Err(format!(\"Error at line {}\", pos_to_line(input, pos))),
    }
}
";
    assert_eq!(body(&out), expected);
}

#[test]
fn choice_of_two_literals() {
    let g = grammar(vec![rule("ab", "()", true, Expr::ChoiceExpr(vec![lit("a"), lit("b")]))]);
    let out = translate(&g).ok().unwrap();
    let expected = "    let choice_res = {
        slice_eq(input, pos, \"a\")
    };
    match choice_res {
        Ok((pos, value)) => Ok((pos, value)),
        Err(..) => {
            slice_eq(input, pos, \"b\")
        }
    }
";
    assert!(out.contains(expected));
    assert!(out.contains("pub fn ab(input: &str) -> Result<(), String> {"));
}

#[test]
fn optional_then_digits() {
    let e = Expr::SequenceExpr(vec![
        Expr::OptionalExpr(Box::new(lit("-"))),
        Expr::OneOrMore(Box::new(range('0', '9'))),
    ]);
    let g = grammar(vec![rule("num", "()", true, e)]);
    let out = translate(&g).ok().unwrap();
    assert!(out.contains("            Ok((newpos, _)) => Ok((newpos, ())),\n"));
    assert!(out.contains("            Err(..) => Ok((pos, ())),\n"));
    assert!(out.contains("'0'..='9' => Ok((next, ())),"));
    assert!(out.contains("let mut repeat_pos = pos;"));
    assert!(!out.contains("repeat_value"));
    assert!(out.contains("Ok((repeat_pos, ()))"));
}

#[test]
fn negative_lookahead_then_any() {
    let e = Expr::SequenceExpr(vec![Expr::NegAssertExpr(Box::new(lit("x"))), Expr::AnyCharExpr]);
    let g = grammar(vec![rule("notx", "()", true, e)]);
    let out = translate(&g).ok().unwrap();
    let expected = "    let seq_res = {
        let neg_assert_res = {
            slice_eq(input, pos, \"x\")
        };
        match neg_assert_res {
            Err(..) => Ok((pos, ())),
            Ok(..) => Err(pos),
        }
    };
    match seq_res {
        Err(pos) => Err(pos),
        Ok((pos, _)) => {
            any_char(input, pos)
        }
    }
}
";
    assert!(out.contains(expected));
}

#[test]
fn repetition_with_values() {
    let g = grammar(vec![rule("bits", "Vec<()>", true, Expr::ZeroOrMore(Box::new(range('0', '1'))))]);
    let out = translate(&g).ok().unwrap();
    let expected = "    let mut repeat_pos = pos;
    let mut repeat_value = Vec::new();
    loop {
        let step_res = {
            let pos = repeat_pos;
            if input.len() > pos {
                let ch = input[pos..].chars().next().unwrap();
                let next = pos + ch.len_utf8();
                match ch {
                    '0'..='1' => Ok((next, ())),
                    _ => Err(pos),
                }
            } else {
                Err(pos)
            }
        };
        match step_res {
            Ok((newpos, value)) => {
                repeat_pos = newpos;
                repeat_value.push(value);
            }
            Err(..) => {
                break;
            }
        }
    }
    Ok((repeat_pos, repeat_value))
";
    assert!(out.contains(expected));
    assert!(out.contains("fn parse_bits(input: &str, pos: usize) -> Result<(usize, Vec<()>), usize> {"));
}

#[test]
fn action_binds_values() {
    let digits = rule(
        "digits",
        "i64",
        false,
        Expr::ActionExpr(
            vec![TaggedExpr { name: None, expr: Box::new(Expr::OneOrMore(Box::new(range('0', '9')))) }],
            "match_str.parse().unwrap()".to_string(),
        ),
    );
    let sum = rule(
        "sum",
        "i64",
        true,
        Expr::ActionExpr(
            vec![
                TaggedExpr { name: Some("a".to_string()), expr: Box::new(Expr::RuleExpr("digits".to_string())) },
                TaggedExpr { name: None, expr: Box::new(lit("+")) },
                TaggedExpr { name: Some("b".to_string()), expr: Box::new(Expr::RuleExpr("digits".to_string())) },
            ],
            "a + b".to_string(),
        ),
    );
    let out = translate(&grammar(vec![digits, sum])).ok().unwrap();
    let expected = "    let start_pos = pos;
    let seq_res = {
        parse_digits(input, pos)
    };
    match seq_res {
        Err(pos) => Err(pos),
        Ok((pos, a)) => {
            let seq_res = {
                slice_eq(input, pos, \"+\")
            };
            match seq_res {
                Err(pos) => Err(pos),
                Ok((pos, _)) => {
                    let seq_res = {
                        parse_digits(input, pos)
                    };
                    match seq_res {
                        Err(pos) => Err(pos),
                        Ok((pos, b)) => {
                            let match_str = &input[start_pos..pos];
                            Ok((pos, {a + b}))
                        }
                    }
                }
            }
        }
    }
";
    assert!(out.contains(expected));
    assert!(out.contains("Ok((pos, {match_str.parse().unwrap()}))"));
    assert!(!out.contains("pub fn digits"));
    assert!(out.contains("pub fn sum(input: &str) -> Result<i64, String> {"));
}

#[test]
fn one_or_more_with_values() {
    let g = grammar(vec![rule("xs", "Vec<()>", false, Expr::OneOrMore(Box::new(lit("x"))))]);
    let out = translate(&g).ok().unwrap();
    assert!(out.contains("        Ok((pos, first_value)) => {\n            let mut repeat_pos = pos;\n            let mut repeat_value = vec![first_value];\n"));
}

#[test]
fn optional_with_value() {
    let g = grammar(vec![rule("o", "Option<()>", false, Expr::OptionalExpr(Box::new(Expr::AnyCharExpr)))]);
    let out = translate(&g).ok().unwrap();
    assert!(out.contains("        Ok((newpos, value)) => Ok((newpos, Some(value))),\n        Err(..) => Ok((pos, None)),\n"));
}

#[test]
fn positive_lookahead() {
    let g = grammar(vec![rule("p", "()", false, Expr::PosAssertExpr(Box::new(lit("y"))))]);
    let out = translate(&g).ok().unwrap();
    assert!(out.contains("        Ok(..) => Ok((pos, ())),\n        Err(..) => Err(pos),\n"));
}

#[test]
fn inverted_charset_with_singletons() {
    let e = Expr::CharSetExpr(true, vec![CharSetCase { start: 'a', end: 'a' }, CharSetCase { start: '\n', end: '\n' }]);
    let out = translate(&grammar(vec![rule("c", "()", false, e)])).ok().unwrap();
    assert!(out.contains("            'a' | '\\n' => Err(pos),\n            _ => Ok((next, ())),\n"));
}

#[test]
fn empty_charset_has_only_the_default_arm() {
    let e = Expr::CharSetExpr(false, vec![]);
    let out = translate(&grammar(vec![rule("c", "()", false, e)])).ok().unwrap();
    assert!(out.contains("        match ch {\n            _ => Err(pos),\n        }\n"));
}

#[test]
fn literal_is_escaped() {
    let g = grammar(vec![rule("q", "()", false, lit("a\"b\n"))]);
    let out = translate(&g).ok().unwrap();
    assert!(out.contains("slice_eq(input, pos, \"a\\\"b\\n\")"));
}

#[test]
fn empty_sequence_emits_nothing() {
    let g = grammar(vec![rule("e", "()", false, Expr::SequenceExpr(vec![]))]);
    let out = translate(&g).ok().unwrap();
    assert!(body(&out).ends_with("fn parse_e(input: &str, pos: usize) -> Result<(usize, ()), usize> {\n}\n"));
}

#[test]
fn sequence_last_value_is_used() {
    let e = Expr::SequenceExpr(vec![lit("("), Expr::ZeroOrMore(Box::new(Expr::AnyCharExpr))]);
    let out = translate(&grammar(vec![rule("s", "Vec<()>", false, e)])).ok().unwrap();
    assert!(out.contains("let mut repeat_value = Vec::new();"));
}

#[test]
fn no_rules_gives_header_only() {
    let g = Grammar { initializer: Some("use std::collections::HashMap;\n".to_string()), rules: vec![] };
    let out = translate(&g).ok().unwrap();
    assert_eq!(out, format!("{}use std::collections::HashMap;\n{}", BANNER, RUNTIME_HELPERS));
    assert!(out.contains("fn slice_eq("));
    assert!(out.contains("fn any_char("));
    assert!(out.contains("fn pos_to_line("));
}

#[test]
fn prelude_after_banner_before_helpers() {
    let g = Grammar {
        initializer: Some("// user prelude\n".to_string()),
        rules: vec![rule("a", "()", false, Expr::AnyCharExpr)],
    };
    let out = translate(&g).ok().unwrap();
    assert!(out.starts_with(BANNER));
    assert_eq!(&out[BANNER.len()..BANNER.len() + 16], "// user prelude\n");
    assert_eq!(out.matches("// user prelude").count(), 1);
    assert!(out.find("// user prelude").unwrap() < out.find("fn slice_eq").unwrap());
}

#[test]
fn rules_keep_their_order() {
    let g = grammar(vec![
        rule("zeta", "()", true, Expr::AnyCharExpr),
        rule("alpha", "()", false, Expr::AnyCharExpr),
        rule("mid", "()", true, Expr::AnyCharExpr),
    ]);
    let out = translate(&g).ok().unwrap();
    let p1 = out.find("fn parse_zeta(").unwrap();
    let w1 = out.find("pub fn zeta(").unwrap();
    let p2 = out.find("fn parse_alpha(").unwrap();
    let p3 = out.find("fn parse_mid(").unwrap();
    let w3 = out.find("pub fn mid(").unwrap();
    assert!(p1 < w1 && w1 < p2 && p2 < p3 && p3 < w3);
    assert!(!out.contains("pub fn alpha("));
    assert_eq!(out.matches("pub fn ").count(), 2);
}

#[test]
fn translation_is_deterministic() {
    let make = || {
        grammar(vec![rule(
            "r",
            "Vec<()>",
            true,
            Expr::ChoiceExpr(vec![Expr::ZeroOrMore(Box::new(lit("a"))), Expr::OneOrMore(Box::new(range('b', 'c')))]),
        )])
    };
    let a = translate(&make()).ok().unwrap();
    let b = translate(&make()).ok().unwrap();
    assert_eq!(a, b);
}

#[test]
fn delimited_is_refused() {
    let e = Expr::SequenceExpr(vec![lit("a"), Expr::DelimitedExpr(Box::new(lit("b")), Box::new(lit(",")))]);
    let g = grammar(vec![rule("ok", "()", true, lit("x")), rule("bad", "()", true, e)]);
    let err = translate(&g).err().unwrap();
    assert_eq!(err.rule, "bad");
    assert_eq!(err.kind, ErrorKind::Unimplemented);
    assert_eq!(err.message(), "in rule bad: delimited and stringify expressions are not implemented");
}

#[test]
fn stringify_is_refused() {
    let e = Expr::OptionalExpr(Box::new(Expr::StringifyExpr(Box::new(lit("s")))));
    let err = translate(&grammar(vec![rule("st", "()", false, e)])).err().unwrap();
    assert_eq!(err.rule, "st");
    assert_eq!(err.kind, ErrorKind::Unimplemented);
}

#[test]
fn inverted_range_is_refused() {
    let e = Expr::CharSetExpr(false, vec![CharSetCase { start: 'a', end: 'c' }, CharSetCase { start: 'z', end: 'a' }]);
    let err = translate(&grammar(vec![rule("r", "()", false, e)])).err().unwrap();
    assert_eq!(err.kind, ErrorKind::InvertedRange);
    assert_eq!(err.message(), "in rule r: a character range ends before it starts");
}

#[test]
fn invalid_names_are_refused() {
    let err = translate(&grammar(vec![rule("1abc", "()", false, lit("a"))])).err().unwrap();
    assert_eq!(err.kind, ErrorKind::InvalidName);
    assert_eq!(err.message(), "in rule 1abc: a name is not an identifier");
    let err = translate(&grammar(vec![rule("r", "()", false, Expr::RuleExpr("a-b".to_string()))])).err().unwrap();
    assert_eq!(err.kind, ErrorKind::InvalidName);
    let e = Expr::ActionExpr(vec![TaggedExpr { name: Some("".to_string()), expr: Box::new(lit("a")) }], "()".to_string());
    let err = translate(&grammar(vec![rule("t", "()", false, e)])).err().unwrap();
    assert_eq!(err.kind, ErrorKind::InvalidName);
}

#[test]
fn first_problem_is_reported() {
    let e = Expr::SequenceExpr(vec![
        Expr::CharSetExpr(false, vec![CharSetCase { start: '9', end: '0' }]),
        Expr::StringifyExpr(Box::new(lit("s"))),
    ]);
    let g = grammar(vec![rule("first", "()", false, e), rule("second", "()", false, Expr::StringifyExpr(Box::new(lit("t"))))]);
    let err = translate(&g).err().unwrap();
    assert_eq!(err.rule, "first");
    assert_eq!(err.kind, ErrorKind::InvertedRange);
}
