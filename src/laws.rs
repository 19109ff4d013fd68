//! Properties of translation as a whole, proved from the definitions of the
//! generated text.
use vstd::prelude::*;
use crate::grammar::{
    expr_issue, first_bad_rule, list_issue, rule_issue, tagged_issue, Expr, Grammar, Rule,
    TaggedExpr, TranslateError,
};
use crate::writer::fn_of;
use crate::translate::{
    export_text, fn_text, grammar_text, header_text, initializer_text, rule_text, rules_text,
    translation_outcome, BANNER, RUNTIME_HELPERS,
};

verus! {

/// Whether a reserved expression (`DelimitedExpr` or `StringifyExpr`) occurs in `e`.
pub open spec fn reserved_in(e: Expr) -> bool
    decreases e, 0int,
{
    match e {
        Expr::DelimitedExpr(_, _) => true,
        Expr::StringifyExpr(_) => true,
        Expr::SequenceExpr(es) => reserved_in_list(es@, 0),
        Expr::ChoiceExpr(es) => reserved_in_list(es@, 0),
        Expr::OptionalExpr(b) => reserved_in(*b),
        Expr::ZeroOrMore(b) => reserved_in(*b),
        Expr::OneOrMore(b) => reserved_in(*b),
        Expr::PosAssertExpr(b) => reserved_in(*b),
        Expr::NegAssertExpr(b) => reserved_in(*b),
        Expr::ActionExpr(ts, _) => reserved_in_tagged(ts@, 0),
        _ => false,
    }
}

pub open spec fn reserved_in_list(es: Seq<Expr>, i: int) -> bool
    decreases es, es.len() - i,
{
    if 0 <= i < es.len() {
        reserved_in(es[i]) || reserved_in_list(es, i + 1)
    } else {
        false
    }
}

pub open spec fn reserved_in_tagged(ts: Seq<TaggedExpr>, i: int) -> bool
    decreases ts, ts.len() - i,
{
    if 0 <= i < ts.len() {
        reserved_in(*ts[i].expr) || reserved_in_tagged(ts, i + 1)
    } else {
        false
    }
}

proof fn lemma_reserved_has_issue(e: Expr)
    requires
        reserved_in(e),
    ensures
        expr_issue(e) is Some,
    decreases e, 0int,
{
    match e {
        Expr::SequenceExpr(es) => lemma_reserved_list(es@, 0),
        Expr::ChoiceExpr(es) => lemma_reserved_list(es@, 0),
        Expr::OptionalExpr(b) => lemma_reserved_has_issue(*b),
        Expr::ZeroOrMore(b) => lemma_reserved_has_issue(*b),
        Expr::OneOrMore(b) => lemma_reserved_has_issue(*b),
        Expr::PosAssertExpr(b) => lemma_reserved_has_issue(*b),
        Expr::NegAssertExpr(b) => lemma_reserved_has_issue(*b),
        Expr::ActionExpr(ts, _) => lemma_reserved_tagged(ts@, 0),
        _ => {},
    }
}

proof fn lemma_reserved_list(es: Seq<Expr>, i: int)
    requires
        reserved_in_list(es, i),
    ensures
        list_issue(es, i) is Some,
    decreases es, es.len() - i,
{
    if expr_issue(es[i]) is None {
        if reserved_in(es[i]) {
            lemma_reserved_has_issue(es[i]);
        } else {
            lemma_reserved_list(es, i + 1);
        }
    }
}

proof fn lemma_reserved_tagged(ts: Seq<TaggedExpr>, i: int)
    requires
        reserved_in_tagged(ts, i),
    ensures
        tagged_issue(ts, i) is Some,
    decreases ts, ts.len() - i,
{
    if expr_issue(*ts[i].expr) is None {
        if reserved_in(*ts[i].expr) {
            lemma_reserved_has_issue(*ts[i].expr);
        } else {
            lemma_reserved_tagged(ts, i + 1);
        }
    }
}

proof fn lemma_bad_rule_found(rs: Seq<Rule>, i: int, k: int)
    requires
        0 <= i <= k < rs.len(),
        rule_issue(rs[k]) is Some,
    ensures
        first_bad_rule(rs, i) is Some,
    decreases k - i,
{
    if rule_issue(rs[i]) is None {
        lemma_bad_rule_found(rs, i + 1, k);
    }
}

/// Translation is a function of the grammar: two translations of one grammar
/// give the same text, or the same error.
pub proof fn lemma_translation_deterministic(
    g: Grammar,
    r1: Result<String, TranslateError>,
    r2: Result<String, TranslateError>,
)
    requires
        translation_outcome(g, r1),
        translation_outcome(g, r2),
    ensures
        r1 is Ok <==> r2 is Ok,
        r1 is Ok ==> r1->Ok_0@ == r2->Ok_0@,
        r1 is Err ==> r1->Err_0.rule@ == r2->Err_0.rule@ && r1->Err_0.kind == r2->Err_0.kind,
{
}

proof fn lemma_rules_text_concat(a: Seq<Rule>, b: Seq<Rule>)
    ensures
        rules_text(a + b) == rules_text(a) + rules_text(b),
    decreases b.len(),
{
    if b.len() == 0 {
        assert(a + b =~= a);
        assert(rules_text(a) + rules_text(b) =~= rules_text(a));
    } else {
        lemma_rules_text_concat(a, b.drop_last());
        assert((a + b).drop_last() =~= a + b.drop_last());
        assert((a + b).last() == b.last());
        vstd::seq_lib::lemma_concat_associative(
            rules_text(a),
            rules_text(b.drop_last()),
            rule_text(b.last()),
        );
    }
}

/// The generated functions come in the order of the rules: the text for the
/// rule at `i` stands between that of the rules before it and that of the
/// rules after it, and consists of its parse function, followed at once by
/// its public wrapper if it is exported.
pub proof fn lemma_rule_order(g: Grammar, i: int)
    requires
        0 <= i < g.rules@.len(),
    ensures
        grammar_text(g) == header_text(initializer_text(g)) + rules_text(g.rules@.take(i))
            + rule_text(g.rules@[i]) + rules_text(g.rules@.skip(i + 1)),
        rule_text(g.rules@[i]) == fn_text(g.rules@[i]) + if g.rules@[i].exported {
            export_text(g.rules@[i])
        } else {
            Seq::empty()
        },
{
    let rs = g.rules@;
    let one = seq![rs[i]];
    let h = header_text(initializer_text(g));
    let a = rules_text(rs.take(i));
    let b = rule_text(rs[i]);
    let c = rules_text(rs.skip(i + 1));
    assert(rs =~= rs.take(i) + one + rs.skip(i + 1));
    lemma_rules_text_concat(rs.take(i) + one, rs.skip(i + 1));
    lemma_rules_text_concat(rs.take(i), one);
    assert(one.drop_last() =~= Seq::<Rule>::empty());
    assert(rules_text(Seq::<Rule>::empty()) == Seq::<char>::empty());
    assert(one.last() == rs[i]);
    assert(rules_text(one) =~= b);
    assert(rules_text(rs) == a + b + c);
    vstd::seq_lib::lemma_concat_associative(h, a + b, c);
    vstd::seq_lib::lemma_concat_associative(h, a, b);
    assert(fn_text(rs[i]) + Seq::<char>::empty() =~= fn_text(rs[i]));
}

/// The generated file starts with the banner, then the user's prelude as it
/// stands, then the runtime helpers; the rules follow them.
pub proof fn lemma_prelude_placement(g: Grammar)
    ensures
        grammar_text(g).subrange(0, BANNER@.len() as int) == BANNER@,
        grammar_text(g).subrange(
            BANNER@.len() as int,
            (BANNER@.len() + initializer_text(g).len()) as int,
        ) == initializer_text(g),
        grammar_text(g).subrange(
            (BANNER@.len() + initializer_text(g).len()) as int,
            (BANNER@.len() + initializer_text(g).len() + RUNTIME_HELPERS@.len()) as int,
        ) == RUNTIME_HELPERS@,
        grammar_text(g).skip(
            (BANNER@.len() + initializer_text(g).len() + RUNTIME_HELPERS@.len()) as int,
        )
            == rules_text(g.rules@),
{
    let t = grammar_text(g);
    let b = BANNER@.len() as int;
    let n = initializer_text(g).len() as int;
    let h = RUNTIME_HELPERS@.len() as int;
    assert(t.subrange(0, b) =~= BANNER@);
    assert(t.subrange(b, b + n) =~= initializer_text(g));
    assert(t.subrange(b + n, b + n + h) =~= RUNTIME_HELPERS@);
    assert(t.skip(b + n + h) =~= rules_text(g.rules@));
}

/// The first line of the public wrapper of `r`.
pub open spec fn wrapper_signature(r: Rule) -> Seq<char> {
    fn_of(
        Seq::empty(),
        Seq::empty(),
        true,
        r.name@,
        "input: &str"@,
        "Result<"@ + r.ret_type@ + ", String>"@,
    )
}

/// An exported rule gets its parse function and then a public wrapper, which
/// opens with `pub fn <name>(input: &str) -> Result<<type>, String> {`; any
/// other rule gets its parse function alone.
pub proof fn lemma_exported_coverage(r: Rule)
    ensures
        r.exported ==> rule_text(r) == fn_text(r) + export_text(r),
        !r.exported ==> rule_text(r) == fn_text(r),
        export_text(r).subrange(0, wrapper_signature(r).len() as int) == wrapper_signature(r),
{
    assert(fn_text(r) + Seq::<char>::empty() =~= fn_text(r));
    assert(export_text(r).subrange(0, wrapper_signature(r).len() as int) =~= wrapper_signature(r));
}

/// A grammar in which a rule holds a reserved expression is refused: its
/// translation is an error, never a text.
pub proof fn lemma_reserved_refused(g: Grammar, i: int, r: Result<String, TranslateError>)
    requires
        0 <= i < g.rules@.len(),
        reserved_in(*g.rules@[i].expr),
        translation_outcome(g, r),
    ensures
        r is Err,
{
    lemma_reserved_has_issue(*g.rules@[i].expr);
    lemma_bad_rule_found(g.rules@, 0, i);
}

/// A grammar without rules translates to the banner, the prelude and the
/// runtime helpers.
pub proof fn lemma_empty_grammar(g: Grammar, r: Result<String, TranslateError>)
    requires
        g.rules@.len() == 0,
        translation_outcome(g, r),
    ensures
        r is Ok,
        r->Ok_0@ == BANNER@ + initializer_text(g) + RUNTIME_HELPERS@,
{
    assert(rules_text(g.rules@) == Seq::<char>::empty());
    assert(grammar_text(g) =~= BANNER@ + initializer_text(g) + RUNTIME_HELPERS@);
}

} // verus!
