//! Code generation: the text of a generated parser, first as spec functions
//! over the text written so far, then the functions that write it.
//!
//! Every fragment for an expression runs where `input` and `pos` are bound
//! and evaluates to `Result<(usize, V), usize>`: the position after the match
//! and its value, or the position of the failure. `used` says whether the
//! surrounding code needs the value.
use vstd::prelude::*;
use vstd::string::StringExecFns;
use crate::escape::{char_escape, escape_char, escape_str, str_escape};
use crate::grammar::{CharSetCase, Expr, Rule, TaggedExpr};
use crate::writer::{
    case_of, fn_of, if_of, inline_case_of, let_block_of, let_mut_of, let_of, line_of, match_of,
    nl, tab, CodeWriter,
};

verus! {

/// The pattern for a range of characters, given their escaped forms; `end`
/// is absent for a single character.
pub open spec fn range_pattern(out: Seq<char>, start: Seq<char>, end: Option<Seq<char>>) -> Seq<char> {
    match end {
        None => out + "'"@ + start + "'"@,
        Some(e) => out + "'"@ + start + "'..='"@ + e + "'"@,
    }
}

/// The pattern for one range of a character set.
pub open spec fn case_pattern(out: Seq<char>, c: CharSetCase) -> Seq<char> {
    range_pattern(
        out,
        char_escape(c.start),
        if c.start == c.end { None } else { Some(char_escape(c.end)) },
    )
}

/// The call that matches a literal, given its escaped text.
pub open spec fn literal_text(out: Seq<char>, escaped: Seq<char>, ind: Seq<char>) -> Seq<char> {
    out + ind + "slice_eq(input, pos, \""@ + escaped + "\")"@ + nl()
}

/// The patterns of `cases[i..]`, joined by ` | `.
pub open spec fn cases_text(out: Seq<char>, cases: Seq<CharSetCase>, i: int) -> Seq<char>
    decreases cases.len() - i,
{
    if 0 <= i < cases.len() {
        let o1 = if i > 0 { out + " | "@ } else { out };
        cases_text(case_pattern(o1, cases[i]), cases, i + 1)
    } else {
        out
    }
}

pub open spec fn charset_text(
    out: Seq<char>,
    invert: bool,
    cases: Seq<CharSetCase>,
    ind: Seq<char>,
) -> Seq<char> {
    let i1 = ind + tab();
    let i2 = i1 + tab();
    let hit = if invert { "Err(pos)"@ } else { "Ok((next, ()))"@ };
    let miss = if invert { "Ok((next, ()))"@ } else { "Err(pos)"@ };
    let o1 = if_of(out, ind, "input.len() > pos"@);
    let o2 = line_of(o1, i1, "let ch = input[pos..].chars().next().unwrap();"@);
    let o3 = line_of(o2, i1, "let next = pos + ch.len_utf8();"@);
    let o4 = match_of(o3, i1, "ch"@);
    let o5 = if cases.len() > 0 {
        cases_text(o4 + i2, cases, 0) + " => "@ + hit + ","@ + nl()
    } else {
        o4
    };
    let o6 = inline_case_of(o5, i2, "_"@, miss);
    let o7 = line_of(o6, i1, "}"@);
    let o8 = line_of(o7, ind, "} else {"@);
    let o9 = line_of(o8, i1, "Err(pos)"@);
    line_of(o9, ind, "}"@)
}

/// Runs `e`; on failure the whole fragment fails at the failure position, on
/// success the match arm that this opens binds the value to `name` and the
/// new position to `pos`. Closed by `and_then_close`.
pub open spec fn and_then_open(
    out: Seq<char>,
    e: Expr,
    name: Seq<char>,
    used: bool,
    ind: Seq<char>,
) -> Seq<char>
    decreases e, 1int,
{
    let i1 = ind + tab();
    let o1 = let_block_of(out, ind, "seq_res"@);
    let o2 = emit_expr(o1, e, used, i1);
    let o3 = line_of(o2, ind, "};"@);
    let o4 = match_of(o3, ind, "seq_res"@);
    let o5 = inline_case_of(o4, i1, "Err(pos)"@, "Err(pos)"@);
    case_of(o5, i1, "Ok((pos, "@ + name + "))"@)
}

pub open spec fn and_then_close(out: Seq<char>, ind: Seq<char>) -> Seq<char> {
    line_of(line_of(out, ind + tab(), "}"@), ind, "}"@)
}

/// The greedy loop of a repetition, from `pos` on; `init` is the initial list
/// of values, present when the values are used.
pub open spec fn repeat_text(out: Seq<char>, e: Expr, init: Option<Seq<char>>, ind: Seq<char>) -> Seq<char>
    decreases e, 1int,
{
    let used = init is Some;
    let i1 = ind + tab();
    let i2 = i1 + tab();
    let i3 = i2 + tab();
    let o1 = let_mut_of(out, ind, "repeat_pos"@, "pos"@);
    let o2 = match init {
        Some(v) => let_mut_of(o1, ind, "repeat_value"@, v),
        None => o1,
    };
    let o3 = line_of(o2, ind, "loop {"@);
    let o4 = let_block_of(o3, i1, "step_res"@);
    let o5 = let_of(o4, i2, "pos"@, "repeat_pos"@);
    let o6 = emit_expr(o5, e, used, i2);
    let o7 = line_of(o6, i1, "};"@);
    let o8 = match_of(o7, i1, "step_res"@);
    let o9 = case_of(o8, i2, if used { "Ok((newpos, value))"@ } else { "Ok((newpos, _))"@ });
    let o10 = line_of(o9, i3, "repeat_pos = newpos;"@);
    let o11 = if used { line_of(o10, i3, "repeat_value.push(value);"@) } else { o10 };
    let o12 = line_of(o11, i2, "}"@);
    let o13 = case_of(o12, i2, "Err(..)"@);
    let o14 = line_of(o13, i3, "break;"@);
    let o15 = line_of(o14, i2, "}"@);
    let o16 = line_of(o15, i1, "}"@);
    let o17 = line_of(o16, ind, "}"@);
    line_of(
        o17,
        ind,
        if used { "Ok((repeat_pos, repeat_value))"@ } else { "Ok((repeat_pos, ()))"@ },
    )
}

/// `es[i..]` in sequence; the last one gives the value.
pub open spec fn seq_text(out: Seq<char>, es: Seq<Expr>, i: int, used: bool, ind: Seq<char>) -> Seq<char>
    decreases es, es.len() - i,
{
    if 0 <= i < es.len() {
        if i == es.len() - 1 {
            emit_expr(out, es[i], used, ind)
        } else {
            let o1 = and_then_open(out, es[i], "_"@, false, ind);
            let o2 = seq_text(o1, es, i + 1, used, ind + tab() + tab());
            and_then_close(o2, ind)
        }
    } else {
        out
    }
}

/// `es[i..]` as ordered alternatives, each tried from the same position.
pub open spec fn choice_text(out: Seq<char>, es: Seq<Expr>, i: int, used: bool, ind: Seq<char>) -> Seq<char>
    decreases es, es.len() - i,
{
    if 0 <= i < es.len() {
        if i == es.len() - 1 {
            emit_expr(out, es[i], used, ind)
        } else {
            let i1 = ind + tab();
            let o1 = let_block_of(out, ind, "choice_res"@);
            let o2 = emit_expr(o1, es[i], used, i1);
            let o3 = line_of(o2, ind, "};"@);
            let o4 = match_of(o3, ind, "choice_res"@);
            let o5 = inline_case_of(o4, i1, "Ok((pos, value))"@, "Ok((pos, value))"@);
            let o6 = case_of(o5, i1, "Err(..)"@);
            let o7 = choice_text(o6, es, i + 1, used, i1 + tab());
            line_of(line_of(o7, i1, "}"@), ind, "}"@)
        }
    } else {
        out
    }
}

/// The name that the value of a tagged expression is bound to.
pub open spec fn binding_of(t: TaggedExpr) -> Seq<char> {
    match t.name {
        Some(n) => n@,
        None => "_"@,
    }
}

/// `ts[i..]` of an action in sequence, then the action's code.
pub open spec fn action_text(out: Seq<char>, ts: Seq<TaggedExpr>, i: int, code: Seq<char>, ind: Seq<char>) -> Seq<char>
    decreases ts, ts.len() - i,
{
    if 0 <= i < ts.len() {
        let o1 = and_then_open(out, *ts[i].expr, binding_of(ts[i]), ts[i].name is Some, ind);
        let o2 = action_text(o1, ts, i + 1, code, ind + tab() + tab());
        and_then_close(o2, ind)
    } else {
        let o1 = let_of(out, ind, "match_str"@, "&input[start_pos..pos]"@);
        o1 + ind + "Ok((pos, {"@ + code + "}))"@ + nl()
    }
}

/// A lookahead: runs `e` and consumes nothing; succeeds where `e` succeeds,
/// or, if `negative`, where it fails.
pub open spec fn lookahead_text(out: Seq<char>, e: Expr, negative: bool, ind: Seq<char>) -> Seq<char>
    decreases e, 1int,
{
    let i1 = ind + tab();
    let name = if negative { "neg_assert_res"@ } else { "assert_res"@ };
    let o1 = let_block_of(out, ind, name);
    let o2 = emit_expr(o1, e, false, i1);
    let o3 = line_of(o2, ind, "};"@);
    let o4 = match_of(o3, ind, name);
    let o5 = if negative {
        inline_case_of(inline_case_of(o4, i1, "Err(..)"@, "Ok((pos, ()))"@), i1, "Ok(..)"@, "Err(pos)"@)
    } else {
        inline_case_of(inline_case_of(o4, i1, "Ok(..)"@, "Ok((pos, ()))"@), i1, "Err(..)"@, "Err(pos)"@)
    };
    line_of(o5, ind, "}"@)
}

/// `out` followed by the fragment for `e` at indentation `ind`.
pub open spec fn emit_expr(out: Seq<char>, e: Expr, used: bool, ind: Seq<char>) -> Seq<char>
    decreases e, 0int,
{
    let i1 = ind + tab();
    match e {
        Expr::AnyCharExpr => line_of(out, ind, "any_char(input, pos)"@),
        Expr::LiteralExpr(s) => literal_text(out, str_escape(s@), ind),
        Expr::CharSetExpr(invert, cases) => charset_text(out, invert, cases@, ind),
        Expr::RuleExpr(n) => out + ind + "parse_"@ + n@ + "(input, pos)"@ + nl(),
        Expr::SequenceExpr(es) => seq_text(out, es@, 0, used, ind),
        Expr::ChoiceExpr(es) => choice_text(out, es@, 0, used, ind),
        Expr::OptionalExpr(b) => {
            let o1 = let_block_of(out, ind, "optional_res"@);
            let o2 = emit_expr(o1, *b, used, i1);
            let o3 = line_of(o2, ind, "};"@);
            let o4 = match_of(o3, ind, "optional_res"@);
            let o5 = if used {
                inline_case_of(
                    inline_case_of(o4, i1, "Ok((newpos, value))"@, "Ok((newpos, Some(value)))"@),
                    i1,
                    "Err(..)"@,
                    "Ok((pos, None))"@,
                )
            } else {
                inline_case_of(
                    inline_case_of(o4, i1, "Ok((newpos, _))"@, "Ok((newpos, ()))"@),
                    i1,
                    "Err(..)"@,
                    "Ok((pos, ()))"@,
                )
            };
            line_of(o5, ind, "}"@)
        },
        Expr::ZeroOrMore(b) => repeat_text(out, *b, if used { Some("Vec::new()"@) } else { None }, ind),
        Expr::OneOrMore(b) => {
            let o1 = and_then_open(out, *b, if used { "first_value"@ } else { "_"@ }, used, ind);
            let o2 = repeat_text(o1, *b, if used { Some("vec![first_value]"@) } else { None }, i1 + tab());
            and_then_close(o2, ind)
        },
        Expr::DelimitedExpr(_, _) => out,
        Expr::PosAssertExpr(b) => lookahead_text(out, *b, false, ind),
        Expr::NegAssertExpr(b) => lookahead_text(out, *b, true, ind),
        Expr::StringifyExpr(_) => out,
        Expr::ActionExpr(ts, code) => {
            let o1 = let_of(out, ind, "start_pos"@, "pos"@);
            action_text(o1, ts@, 0, code@, ind)
        },
    }
}

/// Writes the pattern for a range of characters from their escaped forms.
pub fn write_range_pattern(w: &mut CodeWriter, start: &str, end: Option<&str>)
    ensures
        final(w).text() == range_pattern(
            old(w).text(),
            start@,
            match end {
                Some(e) => Some(e@),
                None => None,
            },
        ),
        final(w).ind() == old(w).ind(),
{
    w.write("'");
    w.write(start);
    if let Some(e) = end {
        w.write("'..='");
        w.write(e);
    }
    w.write("'");
}

fn write_case_pattern(w: &mut CodeWriter, c: &CharSetCase)
    ensures
        final(w).text() == case_pattern(old(w).text(), *c),
        final(w).ind() == old(w).ind(),
{
    let s = escape_char(c.start);
    if c.start == c.end {
        write_range_pattern(w, s.as_str(), None);
    } else {
        let t = escape_char(c.end);
        write_range_pattern(w, s.as_str(), Some(t.as_str()));
    }
}

/// Writes the call that matches a literal, from its escaped text.
pub fn write_literal(w: &mut CodeWriter, escaped: &str)
    ensures
        final(w).text() == literal_text(old(w).text(), escaped@, old(w).ind()),
        final(w).ind() == old(w).ind(),
{
    w.write_indent();
    w.write("slice_eq(input, pos, \"");
    w.write(escaped);
    w.write("\")");
    w.write("\n");
}

fn compile_charset(w: &mut CodeWriter, invert: bool, cases: &Vec<CharSetCase>)
    ensures
        final(w).text() == charset_text(old(w).text(), invert, cases@, old(w).ind()),
        final(w).ind() == old(w).ind(),
{
    let ghost out0 = w.text();
    let ghost ind = w.ind();
    let s0 = w.open_if("input.len() > pos");
    w.line("let ch = input[pos..].chars().next().unwrap();");
    w.line("let next = pos + ch.len_utf8();");
    let s1 = w.open_match("ch");
    let hit = if invert { "Err(pos)" } else { "Ok((next, ()))" };
    let miss = if invert { "Ok((next, ()))" } else { "Err(pos)" };
    if cases.len() > 0 {
        w.write_indent();
        let ghost start = w.text();
        let mut i: usize = 0;
        while i < cases.len()
            invariant
                i <= cases@.len(),
                cases_text(w.text(), cases@, i as int) == cases_text(start, cases@, 0),
                w.ind() == ind + tab() + tab(),
            decreases cases@.len() - i,
        {
            if i > 0 {
                w.write(" | ");
            }
            write_case_pattern(w, &cases[i]);
            i = i + 1;
        }
        w.write(" => ");
        w.write(hit);
        w.write(",");
        w.write("\n");
    }
    w.inline_case("_", miss);
    w.close(s1, "}");
    let s2 = w.else_branch(s0);
    w.line("Err(pos)");
    w.close(s2, "}");
    proof {
        assert(w.text() == charset_text(out0, invert, cases@, ind));
    }
}

fn compile_match_and_then(w: &mut CodeWriter, e: &Expr, name: &str, used: bool) -> (saved: (String, String))
    ensures
        final(w).text() == and_then_open(old(w).text(), *e, name@, used, old(w).ind()),
        final(w).ind() == old(w).ind() + tab() + tab(),
        saved.0@ == old(w).ind(),
        saved.1@ == old(w).ind() + tab(),
    decreases *e, 1int,
{
    let s0 = w.open_let_block("seq_res");
    compile_expr(w, e, used);
    w.close(s0, "};");
    let s1 = w.open_match("seq_res");
    w.inline_case("Err(pos)", "Err(pos)");
    let pat = String::from_str("Ok((pos, ").concat(name).concat("))");
    let s2 = w.open_case(pat.as_str());
    (s1, s2)
}

fn close_match_and_then(w: &mut CodeWriter, saved: (String, String))
    requires
        saved.1@ == saved.0@ + tab(),
    ensures
        final(w).text() == and_then_close(old(w).text(), saved.0@),
        final(w).ind() == saved.0@,
{
    let (s0, s1) = saved;
    w.close(s1, "}");
    w.close(s0, "}");
}

fn compile_zero_or_more(w: &mut CodeWriter, e: &Expr, list_initial: Option<&str>)
    ensures
        final(w).text() == repeat_text(
            old(w).text(),
            *e,
            match list_initial {
                Some(v) => Some(v@),
                None => None,
            },
            old(w).ind(),
        ),
        final(w).ind() == old(w).ind(),
    decreases *e, 1int,
{
    let used = list_initial.is_some();
    w.let_mut_stmt("repeat_pos", "pos");
    if let Some(v) = list_initial {
        w.let_mut_stmt("repeat_value", v);
    }
    let s0 = w.open_loop();
    let s1 = w.open_let_block("step_res");
    w.let_stmt("pos", "repeat_pos");
    compile_expr(w, e, used);
    w.close(s1, "};");
    let s2 = w.open_match("step_res");
    let s3 = w.open_case(if used { "Ok((newpos, value))" } else { "Ok((newpos, _))" });
    w.line("repeat_pos = newpos;");
    if used {
        w.line("repeat_value.push(value);");
    }
    w.close(s3, "}");
    let s4 = w.open_case("Err(..)");
    w.line("break;");
    w.close(s4, "}");
    w.close(s2, "}");
    w.close(s0, "}");
    w.line(if used { "Ok((repeat_pos, repeat_value))" } else { "Ok((repeat_pos, ()))" });
}

fn compile_seq(w: &mut CodeWriter, es: &Vec<Expr>, i: usize, used: bool)
    requires
        i <= es@.len(),
    ensures
        final(w).text() == seq_text(old(w).text(), es@, i as int, used, old(w).ind()),
        final(w).ind() == old(w).ind(),
    decreases es@, es@.len() - i,
{
    if i >= es.len() {
        return;
    }
    if i == es.len() - 1 {
        compile_expr(w, &es[i], used);
    } else {
        let saved = compile_match_and_then(w, &es[i], "_", false);
        compile_seq(w, es, i + 1, used);
        close_match_and_then(w, saved);
    }
}

fn compile_choice(w: &mut CodeWriter, es: &Vec<Expr>, i: usize, used: bool)
    requires
        i <= es@.len(),
    ensures
        final(w).text() == choice_text(old(w).text(), es@, i as int, used, old(w).ind()),
        final(w).ind() == old(w).ind(),
    decreases es@, es@.len() - i,
{
    if i >= es.len() {
        return;
    }
    if i == es.len() - 1 {
        compile_expr(w, &es[i], used);
    } else {
        let s0 = w.open_let_block("choice_res");
        compile_expr(w, &es[i], used);
        w.close(s0, "};");
        let s1 = w.open_match("choice_res");
        w.inline_case("Ok((pos, value))", "Ok((pos, value))");
        let s2 = w.open_case("Err(..)");
        compile_choice(w, es, i + 1, used);
        w.close(s2, "}");
        w.close(s1, "}");
    }
}

fn compile_action(w: &mut CodeWriter, ts: &Vec<TaggedExpr>, i: usize, code: &str)
    requires
        i <= ts@.len(),
    ensures
        final(w).text() == action_text(old(w).text(), ts@, i as int, code@, old(w).ind()),
        final(w).ind() == old(w).ind(),
    decreases ts@, ts@.len() - i,
{
    if i < ts.len() {
        let t = &ts[i];
        let name = match &t.name {
            Some(n) => n.as_str(),
            None => "_",
        };
        let saved = compile_match_and_then(w, &t.expr, name, t.name.is_some());
        compile_action(w, ts, i + 1, code);
        close_match_and_then(w, saved);
    } else {
        w.let_stmt("match_str", "&input[start_pos..pos]");
        w.write_indent();
        w.write("Ok((pos, {");
        w.write(code);
        w.write("}))");
        w.write("\n");
    }
}

fn compile_lookahead(w: &mut CodeWriter, e: &Expr, negative: bool)
    ensures
        final(w).text() == lookahead_text(old(w).text(), *e, negative, old(w).ind()),
        final(w).ind() == old(w).ind(),
    decreases *e, 1int,
{
    let name = if negative { "neg_assert_res" } else { "assert_res" };
    let s0 = w.open_let_block(name);
    compile_expr(w, e, false);
    w.close(s0, "};");
    let s1 = w.open_match(name);
    if negative {
        w.inline_case("Err(..)", "Ok((pos, ()))");
        w.inline_case("Ok(..)", "Err(pos)");
    } else {
        w.inline_case("Ok(..)", "Ok((pos, ()))");
        w.inline_case("Err(..)", "Err(pos)");
    }
    w.close(s1, "}");
}

/// Writes the fragment for `e` at the writer's indentation.
pub fn compile_expr(w: &mut CodeWriter, e: &Expr, used: bool)
    ensures
        final(w).text() == emit_expr(old(w).text(), *e, used, old(w).ind()),
        final(w).ind() == old(w).ind(),
    decreases *e, 0int,
{
    match e {
        Expr::AnyCharExpr => {
            w.line("any_char(input, pos)");
        },
        Expr::LiteralExpr(s) => {
            let escaped = escape_str(s.as_str());
            write_literal(w, escaped.as_str());
        },
        Expr::CharSetExpr(invert, cases) => {
            compile_charset(w, *invert, cases);
        },
        Expr::RuleExpr(n) => {
            w.write_indent();
            w.write("parse_");
            w.write(n.as_str());
            w.write("(input, pos)");
            w.write("\n");
        },
        Expr::SequenceExpr(es) => {
            compile_seq(w, es, 0, used);
        },
        Expr::ChoiceExpr(es) => {
            compile_choice(w, es, 0, used);
        },
        Expr::OptionalExpr(b) => {
            let s0 = w.open_let_block("optional_res");
            compile_expr(w, b, used);
            w.close(s0, "};");
            let s1 = w.open_match("optional_res");
            if used {
                w.inline_case("Ok((newpos, value))", "Ok((newpos, Some(value)))");
                w.inline_case("Err(..)", "Ok((pos, None))");
            } else {
                w.inline_case("Ok((newpos, _))", "Ok((newpos, ()))");
                w.inline_case("Err(..)", "Ok((pos, ()))");
            }
            w.close(s1, "}");
        },
        Expr::ZeroOrMore(b) => {
            compile_zero_or_more(w, b, if used { Some("Vec::new()") } else { None });
        },
        Expr::OneOrMore(b) => {
            let saved = compile_match_and_then(w, b, if used { "first_value" } else { "_" }, used);
            compile_zero_or_more(w, b, if used { Some("vec![first_value]") } else { None });
            close_match_and_then(w, saved);
        },
        Expr::DelimitedExpr(_, _) => {},
        Expr::PosAssertExpr(b) => {
            compile_lookahead(w, b, false);
        },
        Expr::NegAssertExpr(b) => {
            compile_lookahead(w, b, true);
        },
        Expr::StringifyExpr(_) => {},
        Expr::ActionExpr(ts, code) => {
            w.let_stmt("start_pos", "pos");
            compile_action(w, ts, 0, code.as_str());
        },
    }
}

} // verus!
