//! The grammar representation: an ordered list of rules, each holding a tree
//! of parsing expressions, and the checks that a grammar must pass before
//! code is generated for it.
use vstd::prelude::*;

verus! {

pub struct Grammar {
    /// Text placed verbatim into the generated file, after the banner.
    pub initializer: Option<String>,
    pub rules: Vec<Rule>,
}

pub struct Rule {
    pub name: String,
    pub expr: Box<Expr>,
    /// The type of the rule's value, as host-language text; `()` for none.
    pub ret_type: String,
    /// Whether a public wrapper that matches the whole input is generated.
    pub exported: bool,
}

/// A range of characters `start..=end`; a single character when both agree.
pub struct CharSetCase {
    pub start: char,
    pub end: char,
}

/// A sub-expression of an action, whose value is bound to `name` if given.
pub struct TaggedExpr {
    pub name: Option<String>,
    pub expr: Box<Expr>,
}

pub enum Expr {
    AnyCharExpr,
    LiteralExpr(String),
    /// Inverted or not, and the ranges.
    CharSetExpr(bool, Vec<CharSetCase>),
    RuleExpr(String),
    SequenceExpr(Vec<Expr>),
    ChoiceExpr(Vec<Expr>),
    OptionalExpr(Box<Expr>),
    ZeroOrMore(Box<Expr>),
    OneOrMore(Box<Expr>),
    /// Reserved: no code can be generated for it.
    DelimitedExpr(Box<Expr>, Box<Expr>),
    PosAssertExpr(Box<Expr>),
    NegAssertExpr(Box<Expr>),
    /// Reserved: no code can be generated for it.
    StringifyExpr(Box<Expr>),
    /// Sub-expressions matched in sequence, then the code, which yields the value.
    ActionExpr(Vec<TaggedExpr>, String),
}

/// Why a rule cannot be translated.
#[derive(PartialEq, Eq, Structural, Clone, Copy, Debug)]
pub enum ErrorKind {
    /// A `DelimitedExpr` or `StringifyExpr` was reached.
    Unimplemented,
    /// A character range whose start lies after its end.
    InvertedRange,
    /// A rule name, a rule reference or a binding name that is no identifier.
    InvalidName,
}

pub struct TranslateError {
    /// The rule in which the problem lies.
    pub rule: String,
    pub kind: ErrorKind,
}

pub open spec fn ident_start(c: char) -> bool {
    ('a' <= c && c <= 'z') || ('A' <= c && c <= 'Z') || c == '_'
}

pub open spec fn ident_continue(c: char) -> bool {
    ident_start(c) || ('0' <= c && c <= '9')
}

/// An identifier of the generated code: a letter or `_`, then letters,
/// digits and `_`.
pub open spec fn is_ident(s: Seq<char>) -> bool {
    &&& s.len() > 0
    &&& ident_start(s[0])
    &&& forall|i: int| 1 <= i < s.len() ==> ident_continue(#[trigger] s[i])
}

pub open spec fn range_ok(c: CharSetCase) -> bool {
    (c.start as u32) <= (c.end as u32)
}

/// The first problem met in a left-to-right, outside-in walk of `e`.
pub open spec fn expr_issue(e: Expr) -> Option<ErrorKind>
    decreases e, 0int,
{
    match e {
        Expr::AnyCharExpr => None,
        Expr::LiteralExpr(_) => None,
        Expr::CharSetExpr(_, cases) => if forall|i: int|
            0 <= i < cases@.len() ==> range_ok(#[trigger] cases@[i]) {
            None
        } else {
            Some(ErrorKind::InvertedRange)
        },
        Expr::RuleExpr(n) => if is_ident(n@) {
            None
        } else {
            Some(ErrorKind::InvalidName)
        },
        Expr::SequenceExpr(es) => list_issue(es@, 0),
        Expr::ChoiceExpr(es) => list_issue(es@, 0),
        Expr::OptionalExpr(b) => expr_issue(*b),
        Expr::ZeroOrMore(b) => expr_issue(*b),
        Expr::OneOrMore(b) => expr_issue(*b),
        Expr::DelimitedExpr(_, _) => Some(ErrorKind::Unimplemented),
        Expr::PosAssertExpr(b) => expr_issue(*b),
        Expr::NegAssertExpr(b) => expr_issue(*b),
        Expr::StringifyExpr(_) => Some(ErrorKind::Unimplemented),
        Expr::ActionExpr(ts, _) => tagged_issue(ts@, 0),
    }
}

/// The first problem among `es[i..]`.
pub open spec fn list_issue(es: Seq<Expr>, i: int) -> Option<ErrorKind>
    decreases es, es.len() - i,
{
    if 0 <= i < es.len() {
        match expr_issue(es[i]) {
            Some(k) => Some(k),
            None => list_issue(es, i + 1),
        }
    } else {
        None
    }
}

/// The first problem among `ts[i..]`: a binding name comes before its expression.
pub open spec fn tagged_issue(ts: Seq<TaggedExpr>, i: int) -> Option<ErrorKind>
    decreases ts, ts.len() - i,
{
    if 0 <= i < ts.len() {
        if ts[i].name is Some && !is_ident(ts[i].name->Some_0@) {
            Some(ErrorKind::InvalidName)
        } else {
            match expr_issue(*ts[i].expr) {
                Some(k) => Some(k),
                None => tagged_issue(ts, i + 1),
            }
        }
    } else {
        None
    }
}

pub open spec fn rule_issue(r: Rule) -> Option<ErrorKind> {
    if !is_ident(r.name@) {
        Some(ErrorKind::InvalidName)
    } else {
        expr_issue(*r.expr)
    }
}

/// The index of the first rule of `rs[i..]` that has a problem.
pub open spec fn first_bad_rule(rs: Seq<Rule>, i: int) -> Option<int>
    decreases rs.len() - i,
{
    if 0 <= i < rs.len() {
        if rule_issue(rs[i]) is Some {
            Some(i)
        } else {
            first_bad_rule(rs, i + 1)
        }
    } else {
        None
    }
}

pub fn check_ident(s: &str) -> (r: bool)
    ensures
        r == is_ident(s@),
{
    let n = s.unicode_len();
    if n == 0 {
        return false;
    }
    let c0 = s.get_char(0);
    if !(('a' <= c0 && c0 <= 'z') || ('A' <= c0 && c0 <= 'Z') || c0 == '_') {
        return false;
    }
    let mut i: usize = 1;
    while i < n
        invariant
            1 <= i <= n,
            n == s@.len(),
            ident_start(s@[0]),
            forall|j: int| 1 <= j < i ==> ident_continue(#[trigger] s@[j]),
        decreases n - i,
    {
        let c = s.get_char(i);
        if !(('a' <= c && c <= 'z') || ('A' <= c && c <= 'Z') || c == '_' || ('0' <= c && c <= '9')) {
            return false;
        }
        i = i + 1;
    }
    true
}

fn check_ranges(cases: &Vec<CharSetCase>) -> (r: bool)
    ensures
        r == forall|i: int| 0 <= i < cases@.len() ==> range_ok(#[trigger] cases@[i]),
{
    let mut i: usize = 0;
    while i < cases.len()
        invariant
            i <= cases@.len(),
            forall|j: int| 0 <= j < i ==> range_ok(#[trigger] cases@[j]),
        decreases cases@.len() - i,
    {
        if (cases[i].start as u32) > (cases[i].end as u32) {
            return false;
        }
        i = i + 1;
    }
    true
}

/// Finds the first problem in `e`, as `expr_issue` orders them.
pub fn check_expr(e: &Expr) -> (r: Option<ErrorKind>)
    ensures
        r == expr_issue(*e),
    decreases *e, 0int,
{
    match e {
        Expr::AnyCharExpr => None,
        Expr::LiteralExpr(_) => None,
        Expr::CharSetExpr(_, cases) => if check_ranges(cases) {
            None
        } else {
            Some(ErrorKind::InvertedRange)
        },
        Expr::RuleExpr(n) => if check_ident(n.as_str()) {
            None
        } else {
            Some(ErrorKind::InvalidName)
        },
        Expr::SequenceExpr(es) => check_list(es, 0),
        Expr::ChoiceExpr(es) => check_list(es, 0),
        Expr::OptionalExpr(b) => check_expr(b),
        Expr::ZeroOrMore(b) => check_expr(b),
        Expr::OneOrMore(b) => check_expr(b),
        Expr::DelimitedExpr(_, _) => Some(ErrorKind::Unimplemented),
        Expr::PosAssertExpr(b) => check_expr(b),
        Expr::NegAssertExpr(b) => check_expr(b),
        Expr::StringifyExpr(_) => Some(ErrorKind::Unimplemented),
        Expr::ActionExpr(ts, _) => check_tagged(ts, 0),
    }
}

fn check_list(es: &Vec<Expr>, i: usize) -> (r: Option<ErrorKind>)
    requires
        i <= es@.len(),
    ensures
        r == list_issue(es@, i as int),
    decreases es@, es@.len() - i,
{
    if i >= es.len() {
        return None;
    }
    match check_expr(&es[i]) {
        Some(k) => Some(k),
        None => check_list(es, i + 1),
    }
}

fn check_tagged(ts: &Vec<TaggedExpr>, i: usize) -> (r: Option<ErrorKind>)
    requires
        i <= ts@.len(),
    ensures
        r == tagged_issue(ts@, i as int),
    decreases ts@, ts@.len() - i,
{
    if i >= ts.len() {
        return None;
    }
    let t = &ts[i];
    if let Some(n) = &t.name {
        if !check_ident(n.as_str()) {
            return Some(ErrorKind::InvalidName);
        }
    }
    match check_expr(&t.expr) {
        Some(k) => Some(k),
        None => check_tagged(ts, i + 1),
    }
}

/// Finds the first problem in a rule: its name, then its expression.
pub fn check_rule(r: &Rule) -> (res: Option<ErrorKind>)
    ensures
        res == rule_issue(*r),
{
    if !check_ident(r.name.as_str()) {
        return Some(ErrorKind::InvalidName);
    }
    check_expr(&r.expr)
}

} // verus!
