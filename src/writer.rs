//! An indenting text sink with the handful of block shapes that generated
//! parsers need. It knows nothing about grammars.
//!
//! Every operation is specified as a transformer on the text written so far:
//! `line_of(out, ind, s)` is `out` after one more line `s` at indentation
//! `ind`. Blocks are opened by a method that hands back the indentation in
//! force before it, and closed by `close`, which restores exactly that
//! indentation, so nesting stays balanced on every path.
use vstd::prelude::*;
use vstd::string::StringExecFns;

verus! {

/// One level of indentation.
pub open spec fn tab() -> Seq<char> {
    "    "@
}

pub open spec fn nl() -> Seq<char> {
    "\n"@
}

/// `out` followed by the line `s` at indentation `ind`.
pub open spec fn line_of(out: Seq<char>, ind: Seq<char>, s: Seq<char>) -> Seq<char> {
    out + ind + s + nl()
}

/// `let <name> = <value>;`
pub open spec fn let_of(out: Seq<char>, ind: Seq<char>, name: Seq<char>, value: Seq<char>) -> Seq<char> {
    out + ind + "let "@ + name + " = "@ + value + ";"@ + nl()
}

/// `let mut <name> = <value>;`
pub open spec fn let_mut_of(out: Seq<char>, ind: Seq<char>, name: Seq<char>, value: Seq<char>) -> Seq<char> {
    out + ind + "let mut "@ + name + " = "@ + value + ";"@ + nl()
}

/// The opening line of `let <name> = { ... };`
pub open spec fn let_block_of(out: Seq<char>, ind: Seq<char>, name: Seq<char>) -> Seq<char> {
    out + ind + "let "@ + name + " = {"@ + nl()
}

/// The opening line of `match <scrutinee> { ... }`
pub open spec fn match_of(out: Seq<char>, ind: Seq<char>, scrutinee: Seq<char>) -> Seq<char> {
    out + ind + "match "@ + scrutinee + " {"@ + nl()
}

/// The opening line of a match arm with a block body.
pub open spec fn case_of(out: Seq<char>, ind: Seq<char>, pat: Seq<char>) -> Seq<char> {
    out + ind + pat + " => {"@ + nl()
}

/// A match arm whose body is one expression.
pub open spec fn inline_case_of(out: Seq<char>, ind: Seq<char>, pat: Seq<char>, e: Seq<char>) -> Seq<char> {
    out + ind + pat + " => "@ + e + ","@ + nl()
}

/// The opening line of `if <cond> { ... }`
pub open spec fn if_of(out: Seq<char>, ind: Seq<char>, cond: Seq<char>) -> Seq<char> {
    out + ind + "if "@ + cond + " {"@ + nl()
}

/// The opening line of a function definition.
pub open spec fn fn_of(
    out: Seq<char>,
    ind: Seq<char>,
    public: bool,
    name: Seq<char>,
    params: Seq<char>,
    ret: Seq<char>,
) -> Seq<char> {
    out + ind + (if public { "pub fn "@ } else { "fn "@ }) + name + "("@ + params + ") -> "@ + ret
        + " {"@ + nl()
}

pub struct CodeWriter {
    out: String,
    indent: String,
}

impl CodeWriter {
    /// The text written so far.
    pub closed spec fn text(&self) -> Seq<char> {
        self.out@
    }

    /// The indentation that the next line gets.
    pub closed spec fn ind(&self) -> Seq<char> {
        self.indent@
    }

    pub fn new() -> (w: CodeWriter)
        ensures
            w.text() == Seq::<char>::empty(),
            w.ind() == Seq::<char>::empty(),
    {
        CodeWriter { out: String::new(), indent: String::new() }
    }

    /// Hands back the text written.
    pub fn into_string(self) -> (s: String)
        ensures
            s@ == self.text(),
    {
        self.out
    }

    /// Writes `s` as it stands, with no indentation and no line end.
    pub fn write(&mut self, s: &str)
        ensures
            final(self).text() == old(self).text() + s@,
            final(self).ind() == old(self).ind(),
    {
        self.out.append(s);
    }

    /// Writes the current indentation.
    pub fn write_indent(&mut self)
        ensures
            final(self).text() == old(self).text() + old(self).ind(),
            final(self).ind() == old(self).ind(),
    {
        self.out.append(self.indent.as_str());
    }

    pub fn line(&mut self, s: &str)
        ensures
            final(self).text() == line_of(old(self).text(), old(self).ind(), s@),
            final(self).ind() == old(self).ind(),
    {
        self.write_indent();
        self.write(s);
        self.write("\n");
    }

    /// Enters a block: the lines that follow get one more level.
    fn enter(&mut self) -> (saved: String)
        ensures
            saved@ == old(self).ind(),
            final(self).text() == old(self).text(),
            final(self).ind() == old(self).ind() + tab(),
    {
        let saved = self.indent.clone();
        self.indent.append("    ");
        saved
    }

    /// Leaves a block opened by one of the `open_` methods: restores the
    /// indentation `saved` and writes the closing line `s`.
    pub fn close(&mut self, saved: String, s: &str)
        ensures
            final(self).text() == line_of(old(self).text(), saved@, s@),
            final(self).ind() == saved@,
    {
        self.indent = saved;
        self.line(s);
    }

    pub fn let_stmt(&mut self, name: &str, value: &str)
        ensures
            final(self).text() == let_of(old(self).text(), old(self).ind(), name@, value@),
            final(self).ind() == old(self).ind(),
    {
        self.write_indent();
        self.write("let ");
        self.write(name);
        self.write(" = ");
        self.write(value);
        self.write(";");
        self.write("\n");
    }

    pub fn let_mut_stmt(&mut self, name: &str, value: &str)
        ensures
            final(self).text() == let_mut_of(old(self).text(), old(self).ind(), name@, value@),
            final(self).ind() == old(self).ind(),
    {
        self.write_indent();
        self.write("let mut ");
        self.write(name);
        self.write(" = ");
        self.write(value);
        self.write(";");
        self.write("\n");
    }

    /// Opens `let <name> = {`; close it with `"};"`.
    pub fn open_let_block(&mut self, name: &str) -> (saved: String)
        ensures
            saved@ == old(self).ind(),
            final(self).text() == let_block_of(old(self).text(), old(self).ind(), name@),
            final(self).ind() == old(self).ind() + tab(),
    {
        self.write_indent();
        self.write("let ");
        self.write(name);
        self.write(" = {");
        self.write("\n");
        self.enter()
    }

    /// Opens `match <scrutinee> {`; close it with `"}"`.
    pub fn open_match(&mut self, scrutinee: &str) -> (saved: String)
        ensures
            saved@ == old(self).ind(),
            final(self).text() == match_of(old(self).text(), old(self).ind(), scrutinee@),
            final(self).ind() == old(self).ind() + tab(),
    {
        self.write_indent();
        self.write("match ");
        self.write(scrutinee);
        self.write(" {");
        self.write("\n");
        self.enter()
    }

    /// Opens the arm `<pat> => {`; close it with `"}"`.
    pub fn open_case(&mut self, pat: &str) -> (saved: String)
        ensures
            saved@ == old(self).ind(),
            final(self).text() == case_of(old(self).text(), old(self).ind(), pat@),
            final(self).ind() == old(self).ind() + tab(),
    {
        self.write_indent();
        self.write(pat);
        self.write(" => {");
        self.write("\n");
        self.enter()
    }

    pub fn inline_case(&mut self, pat: &str, e: &str)
        ensures
            final(self).text() == inline_case_of(old(self).text(), old(self).ind(), pat@, e@),
            final(self).ind() == old(self).ind(),
    {
        self.write_indent();
        self.write(pat);
        self.write(" => ");
        self.write(e);
        self.write(",");
        self.write("\n");
    }

    /// Opens `if <cond> {`; go on with `else_branch`, then close with `"}"`.
    pub fn open_if(&mut self, cond: &str) -> (saved: String)
        ensures
            saved@ == old(self).ind(),
            final(self).text() == if_of(old(self).text(), old(self).ind(), cond@),
            final(self).ind() == old(self).ind() + tab(),
    {
        self.write_indent();
        self.write("if ");
        self.write(cond);
        self.write(" {");
        self.write("\n");
        self.enter()
    }

    /// Ends the `then` branch of a block opened by `open_if` and opens the
    /// `else` branch.
    pub fn else_branch(&mut self, saved: String) -> (saved_again: String)
        ensures
            saved_again@ == saved@,
            final(self).text() == line_of(old(self).text(), saved@, "} else {"@),
            final(self).ind() == saved@ + tab(),
    {
        self.close(saved, "} else {");
        self.enter()
    }

    /// Opens `loop {`; close it with `"}"`.
    pub fn open_loop(&mut self) -> (saved: String)
        ensures
            saved@ == old(self).ind(),
            final(self).text() == line_of(old(self).text(), old(self).ind(), "loop {"@),
            final(self).ind() == old(self).ind() + tab(),
    {
        self.line("loop {");
        self.enter()
    }

    /// Opens a function definition; close it with `"}"`.
    pub fn open_fn(&mut self, public: bool, name: &str, params: &str, ret: &str) -> (saved: String)
        ensures
            saved@ == old(self).ind(),
            final(self).text() == fn_of(
                old(self).text(),
                old(self).ind(),
                public,
                name@,
                params@,
                ret@,
            ),
            final(self).ind() == old(self).ind() + tab(),
    {
        self.write_indent();
        if public {
            self.write("pub fn ");
        } else {
            self.write("fn ");
        }
        self.write(name);
        self.write("(");
        self.write(params);
        self.write(") -> ");
        self.write(ret);
        self.write(" {");
        self.write("\n");
        self.enter()
    }
}

} // verus!
