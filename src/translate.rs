//! Translation of a whole grammar: the banner, the user's prelude, the
//! runtime helpers, then for each rule its parse function and, if the rule is
//! exported, its public wrapper.
use vstd::prelude::*;
use vstd::string::StringExecFns;
use crate::emit::{compile_expr, emit_expr};
use crate::grammar::{
    check_rule, first_bad_rule, rule_issue, ErrorKind, Grammar, Rule, TranslateError,
};
use crate::writer::{case_of, fn_of, if_of, inline_case_of, line_of, match_of, tab, CodeWriter};

verus! {

/// The first line of every generated file.
pub const BANNER: &'static str = "// Generated by peg. Do not edit.\n";

/// The helpers that generated parse functions call.
pub const RUNTIME_HELPERS: &'static str = "
#[inline]
#[allow(dead_code)]
fn slice_eq(input: &str, pos: usize, m: &str) -> Result<(usize, ()), usize> {
    let l = m.len();
    if input.len() >= pos + l && &input.as_bytes()[pos..pos + l] == m.as_bytes() {
        Ok((pos + l, ()))
    } else {
        Err(pos)
    }
}

#[inline]
#[allow(dead_code)]
fn any_char(input: &str, pos: usize) -> Result<(usize, ()), usize> {
    match input[pos..].chars().next() {
        Some(c) => Ok((pos + c.len_utf8(), ())),
        None => Err(pos),
    }
}

#[allow(dead_code)]
fn pos_to_line(input: &str, pos: usize) -> usize {
    input[..pos].matches('\\n').count() + 1
}

";

/// Whether a rule's value is used: its type is other than `()`.
pub open spec fn has_value(r: Rule) -> bool {
    r.ret_type@ != "()"@
}

/// The parse function of a rule, from `pos` on.
pub open spec fn fn_text(r: Rule) -> Seq<char> {
    let i0 = Seq::<char>::empty();
    let o1 = line_of(Seq::empty(), i0, "#[allow(unused_variables, unused_mut)]"@);
    let o2 = fn_of(
        o1,
        i0,
        false,
        "parse_"@ + r.name@,
        "input: &str, pos: usize"@,
        "Result<(usize, "@ + r.ret_type@ + "), usize>"@,
    );
    let o3 = emit_expr(o2, *r.expr, has_value(r), i0 + tab());
    line_of(o3, i0, "}"@)
}

/// The public wrapper of a rule: it must match the whole input.
pub open spec fn export_text(r: Rule) -> Seq<char> {
    let i0 = Seq::<char>::empty();
    let i1 = i0 + tab();
    let i2 = i1 + tab();
    let i3 = i2 + tab();
    let i4 = i3 + tab();
    let o1 = fn_of(Seq::empty(), i0, true, r.name@, "input: &str"@, "Result<"@ + r.ret_type@ + ", String>"@);
    let o2 = match_of(o1, i1, "parse_"@ + r.name@ + "(input, 0)"@);
    let o3 = case_of(o2, i2, "Ok((pos, value))"@);
    let o4 = if_of(o3, i3, "pos == input.len()"@);
    let o5 = line_of(o4, i4, "Ok(value)"@);
    let o6 = line_of(o5, i3, "} else {"@);
    let o7 = line_of(
        o6,
        i4,
        "Err(format!(\"Expected end of input at line {}\", pos_to_line(input, pos)))"@,
    );
    let o8 = line_of(o7, i3, "}"@);
    let o9 = line_of(o8, i2, "}"@);
    let o10 = inline_case_of(o9, i2, "Err(pos)"@, "Err(format!(\"Error at line {}\", pos_to_line(input, pos)))"@);
    let o11 = line_of(o10, i1, "}"@);
    line_of(o11, i0, "}"@)
}

/// All that is written for one rule.
pub open spec fn rule_text(r: Rule) -> Seq<char> {
    fn_text(r) + if r.exported { export_text(r) } else { Seq::empty() }
}

/// The rules' texts one after the other, in their order.
pub open spec fn rules_text(rs: Seq<Rule>) -> Seq<char>
    decreases rs.len(),
{
    if rs.len() == 0 {
        Seq::empty()
    } else {
        rules_text(rs.drop_last()) + rule_text(rs.last())
    }
}

pub open spec fn initializer_text(g: Grammar) -> Seq<char> {
    match g.initializer {
        Some(s) => s@,
        None => Seq::empty(),
    }
}

/// Everything before the first rule.
pub open spec fn header_text(init: Seq<char>) -> Seq<char> {
    BANNER@ + init + RUNTIME_HELPERS@
}

/// The generated file for a grammar.
pub open spec fn grammar_text(g: Grammar) -> Seq<char> {
    header_text(initializer_text(g)) + rules_text(g.rules@)
}

/// `e` is the error that translating the rules `rs` reports: it names the
/// first rule with a problem, and that rule's first problem.
pub open spec fn reports(rs: Seq<Rule>, e: TranslateError) -> bool {
    match first_bad_rule(rs, 0) {
        Some(j) => e.rule@ == rs[j].name@ && rule_issue(rs[j]) == Some(e.kind),
        None => false,
    }
}

pub open spec fn kind_text(k: ErrorKind) -> Seq<char> {
    match k {
        ErrorKind::Unimplemented => "delimited and stringify expressions are not implemented"@,
        ErrorKind::InvertedRange => "a character range ends before it starts"@,
        ErrorKind::InvalidName => "a name is not an identifier"@,
    }
}

impl TranslateError {
    pub open spec fn message_text(&self) -> Seq<char> {
        "in rule "@ + self.rule@ + ": "@ + kind_text(self.kind)
    }

    /// A message that names the rule and the problem.
    pub fn message(&self) -> (r: String)
        ensures
            r@ == self.message_text(),
    {
        let k = match self.kind {
            ErrorKind::Unimplemented => "delimited and stringify expressions are not implemented",
            ErrorKind::InvertedRange => "a character range ends before it starts",
            ErrorKind::InvalidName => "a name is not an identifier",
        };
        String::from_str("in rule ").concat(self.rule.as_str()).concat(": ").concat(k)
    }
}

fn compile_header(w: &mut CodeWriter, header: &str)
    ensures
        final(w).text() == old(w).text() + BANNER@ + header@ + RUNTIME_HELPERS@,
        final(w).ind() == old(w).ind(),
{
    w.write(BANNER);
    w.write(header);
    w.write(RUNTIME_HELPERS);
}

fn compile_rule_export(w: &mut CodeWriter, rule: &Rule)
    ensures
        final(w).text() == old(w).text() + export_text(*rule),
        final(w).ind() == old(w).ind(),
{
    let mut x = CodeWriter::new();
    let ret = String::from_str("Result<").concat(rule.ret_type.as_str()).concat(", String>");
    let s0 = x.open_fn(true, rule.name.as_str(), "input: &str", ret.as_str());
    let call = String::from_str("parse_").concat(rule.name.as_str()).concat("(input, 0)");
    let s1 = x.open_match(call.as_str());
    let s2 = x.open_case("Ok((pos, value))");
    let s3 = x.open_if("pos == input.len()");
    x.line("Ok(value)");
    let s4 = x.else_branch(s3);
    x.line("Err(format!(\"Expected end of input at line {}\", pos_to_line(input, pos)))");
    x.close(s4, "}");
    x.close(s2, "}");
    x.inline_case("Err(pos)", "Err(format!(\"Error at line {}\", pos_to_line(input, pos)))");
    x.close(s1, "}");
    x.close(s0, "}");
    let text = x.into_string();
    w.write(text.as_str());
}

fn compile_rule(w: &mut CodeWriter, rule: &Rule)
    ensures
        final(w).text() == old(w).text() + rule_text(*rule),
        final(w).ind() == old(w).ind(),
{
    let ghost before = w.text();
    let mut x = CodeWriter::new();
    x.line("#[allow(unused_variables, unused_mut)]");
    let name = String::from_str("parse_").concat(rule.name.as_str());
    let ret = String::from_str("Result<(usize, ").concat(rule.ret_type.as_str()).concat("), usize>");
    let s0 = x.open_fn(false, name.as_str(), "input: &str, pos: usize", ret.as_str());
    let unit = String::from_str("()");
    let used = !(rule.ret_type == unit);
    compile_expr(&mut x, &rule.expr, used);
    x.close(s0, "}");
    let text = x.into_string();
    w.write(text.as_str());
    if rule.exported {
        compile_rule_export(w, rule);
        proof {
            vstd::seq_lib::lemma_concat_associative(before, fn_text(*rule), export_text(*rule));
        }
    } else {
        assert(fn_text(*rule) + Seq::<char>::empty() =~= fn_text(*rule));
    }
}

proof fn lemma_no_bad_prefix(rs: Seq<Rule>, i: int)
    requires
        0 <= i <= rs.len(),
        forall|j: int| 0 <= j < i ==> rule_issue(#[trigger] rs[j]) is None,
    ensures
        first_bad_rule(rs, 0) == first_bad_rule(rs, i),
    decreases i,
{
    if i > 0 {
        lemma_no_bad_prefix(rs, i - 1);
    }
}

/// Translates `grammar` and appends the generated parser to `w`. A grammar
/// with a problem is refused before anything is written.
pub fn compile_grammar(w: &mut CodeWriter, grammar: &Grammar) -> (r: Result<(), TranslateError>)
    ensures
        final(w).ind() == old(w).ind(),
        match r {
            Ok(()) => first_bad_rule(grammar.rules@, 0) is None && final(w).text() == old(w).text()
                + grammar_text(*grammar),
            Err(e) => reports(grammar.rules@, e) && final(w).text() == old(w).text(),
        },
{
    let mut i: usize = 0;
    while i < grammar.rules.len()
        invariant
            i <= grammar.rules@.len(),
            forall|j: int| 0 <= j < i ==> rule_issue(#[trigger] grammar.rules@[j]) is None,
        decreases grammar.rules@.len() - i,
    {
        if let Some(kind) = check_rule(&grammar.rules[i]) {
            proof {
                lemma_no_bad_prefix(grammar.rules@, i as int);
            }
            return Err(TranslateError { rule: grammar.rules[i].name.clone(), kind });
        }
        i = i + 1;
    }
    proof {
        lemma_no_bad_prefix(grammar.rules@, i as int);
    }
    let ghost before = w.text();
    let header = match &grammar.initializer {
        Some(s) => s.as_str(),
        None => "",
    };
    proof {
        reveal_strlit("");
    }
    compile_header(w, header);
    let ghost start = w.text();
    let mut k: usize = 0;
    while k < grammar.rules.len()
        invariant
            k <= grammar.rules@.len(),
            w.text() == start + rules_text(grammar.rules@.take(k as int)),
            w.ind() == old(w).ind(),
        decreases grammar.rules@.len() - k,
    {
        compile_rule(w, &grammar.rules[k]);
        proof {
            let rs = grammar.rules@;
            assert(rs.take(k + 1).drop_last() =~= rs.take(k as int));
            vstd::seq_lib::lemma_concat_associative(
                start,
                rules_text(rs.take(k as int)),
                rule_text(rs[k as int]),
            );
        }
        k = k + 1;
    }
    proof {
        assert(grammar.rules@.take(k as int) =~= grammar.rules@);
        assert(w.text() =~= before + grammar_text(*grammar));
    }
    Ok(())
}

/// What translating `g` may give: its generated file when no rule has a
/// problem, else the first problem.
pub open spec fn translation_outcome(g: Grammar, r: Result<String, TranslateError>) -> bool {
    match r {
        Ok(s) => first_bad_rule(g.rules@, 0) is None && s@ == grammar_text(g),
        Err(e) => reports(g.rules@, e),
    }
}

/// The generated parser for `grammar` as a string, or the first problem in it.
pub fn translate(grammar: &Grammar) -> (r: Result<String, TranslateError>)
    ensures
        translation_outcome(*grammar, r),
{
    let mut w = CodeWriter::new();
    match compile_grammar(&mut w, grammar) {
        Ok(()) => {
            let s = w.into_string();
            assert(s@ =~= grammar_text(*grammar));
            Ok(s)
        },
        Err(e) => Err(e),
    }
}

} // verus!
