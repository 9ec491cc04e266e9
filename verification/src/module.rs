//! The translation unit: a whole shader source file, with its fixed
//! emission order.

use vstd::prelude::*;

use crate::builder::CodeBuilder;
use crate::expr::Block;
use crate::expr::Expr;
use crate::expr::Identifier;
use crate::stmt::Function;
use crate::stmt::PrecisionDecl;
use crate::stmt::Statement;
use crate::stmt::function_code;
use crate::stmt::precision_decl_code;
use crate::stmt::statement_code;
use crate::types::PrimType;
use crate::types::Type;
use crate::vars::GlobalVar;
use crate::vars::global_var_code;

verus! {

/// A whole translation unit: precision declarations, global variables,
/// free top-level statements, and the entry-point function, which is
/// always present and always renders last.
#[derive(Debug)]
pub struct Module {
    pub prec_decls: Vec<PrecisionDecl>,
    pub global_vars: Vec<GlobalVar>,
    pub statements: Vec<Statement>,
    pub main: Function,
}

/// The precision declaration group: each declaration on its own line.
pub open spec fn prec_decls_code(ds: Seq<PrecisionDecl>) -> Seq<char>
    decreases ds,
{
    if ds.len() == 0 {
        Seq::empty()
    } else {
        prec_decls_code(ds.drop_last()) + precision_decl_code(ds.last()) + "\n"@
    }
}

/// The global variable group: each declaration terminated, on its own line.
pub open spec fn global_vars_code(gs: Seq<GlobalVar>) -> Seq<char>
    decreases gs,
{
    if gs.len() == 0 {
        Seq::empty()
    } else {
        global_vars_code(gs.drop_last()) + global_var_code(gs.last()) + ";\n"@
    }
}

/// The free statement group: each statement on its own line, at
/// indentation level zero.
pub open spec fn statements_code(ss: Seq<Statement>) -> Seq<char>
    decreases ss,
{
    if ss.len() == 0 {
        Seq::empty()
    } else {
        statements_code(ss.drop_last()) + statement_code(ss.last(), 0) + "\n"@
    }
}

/// The whole rendered translation unit, in fixed order: the version
/// pragma and a blank line; the precision group and a blank line; the
/// global variable group and a blank line; the free statements; the
/// entry-point function.
pub open spec fn module_code(m: Module) -> Seq<char> {
    "#version 300 es\n\n"@ + prec_decls_code(m.prec_decls@) + "\n"@ + global_vars_code(
        m.global_vars@,
    ) + "\n"@ + statements_code(m.statements@) + function_code(m.main, 0)
}

impl Module {
    /// Appends the whole translation unit to the buffer.
    pub fn build(&self, builder: &mut CodeBuilder)
        requires
            old(builder).indent == 0,
        ensures
            final(builder).code@ == old(builder).code@ + module_code(*self),
            final(builder).indent == old(builder).indent,
    {
        builder.write("#version 300 es\n\n");

        let ghost mark0: Seq<char> = builder.code@;
        let n0: usize = self.prec_decls.len();
        let mut i: usize = 0;
        while i < n0
            invariant
                n0 == self.prec_decls@.len(),
                i <= n0,
                builder.code@ == mark0 + prec_decls_code(self.prec_decls@.take(i as int)),
                builder.indent == old(builder).indent,
            decreases n0 - i,
        {
            self.prec_decls[i].build(builder);
            builder.newline();
            proof {
                let post = self.prec_decls@.take(i + 1);
                assert(post.drop_last() =~= self.prec_decls@.take(i as int));
                assert(post.last() == self.prec_decls@[i as int]);
                assert(builder.code@ =~= mark0 + prec_decls_code(post));
            }
            i = i + 1;
        }
        proof {
            assert(self.prec_decls@.take(n0 as int) =~= self.prec_decls@);
        }
        builder.newline();

        let ghost mark1: Seq<char> = builder.code@;
        let n1: usize = self.global_vars.len();
        let mut j: usize = 0;
        while j < n1
            invariant
                n1 == self.global_vars@.len(),
                j <= n1,
                builder.code@ == mark1 + global_vars_code(self.global_vars@.take(j as int)),
                builder.indent == old(builder).indent,
            decreases n1 - j,
        {
            self.global_vars[j].build(builder);
            builder.terminator();
            builder.newline();
            proof {
                reveal_strlit(";\n");
                reveal_strlit(";");
                reveal_strlit("\n");
                let post = self.global_vars@.take(j + 1);
                assert(post.drop_last() =~= self.global_vars@.take(j as int));
                assert(post.last() == self.global_vars@[j as int]);
                assert(builder.code@ =~= mark1 + global_vars_code(post));
            }
            j = j + 1;
        }
        proof {
            assert(self.global_vars@.take(n1 as int) =~= self.global_vars@);
        }
        builder.newline();

        let ghost mark2: Seq<char> = builder.code@;
        let n2: usize = self.statements.len();
        let mut k: usize = 0;
        while k < n2
            invariant
                n2 == self.statements@.len(),
                k <= n2,
                builder.code@ == mark2 + statements_code(self.statements@.take(k as int)),
                builder.indent == old(builder).indent,
                old(builder).indent == 0,
            decreases n2 - k,
        {
            self.statements[k].build(builder);
            builder.newline();
            proof {
                let post = self.statements@.take(k + 1);
                assert(post.drop_last() =~= self.statements@.take(k as int));
                assert(post.last() == self.statements@[k as int]);
                assert(builder.code@ =~= mark2 + statements_code(post));
            }
            k = k + 1;
        }
        proof {
            assert(self.statements@.take(n2 as int) =~= self.statements@);
        }

        self.main.build(builder);
        proof {
            assert(builder.code@ =~= old(builder).code@ + module_code(*self));
        }
    }

    /// Renders the translation unit. The text is a function of the module
    /// value alone, so rendering the same module twice yields the same
    /// text.
    pub fn to_code(&self) -> (r: String)
        ensures
            r@ == module_code(*self),
    {
        let mut builder = CodeBuilder::new();
        self.build(&mut builder);
        proof {
            assert(builder.code@ =~= module_code(*self));
        }
        builder.into_code()
    }

    /// Appends a precision declaration to its group.
    pub fn add_prec_decl(&mut self, t: PrecisionDecl)
        ensures
            final(self).prec_decls@ == old(self).prec_decls@.push(t),
            final(self).global_vars == old(self).global_vars,
            final(self).statements == old(self).statements,
            final(self).main == old(self).main,
    {
        self.prec_decls.push(t);
    }

    /// Appends a global variable declaration to its group.
    pub fn add_global_var(&mut self, t: GlobalVar)
        ensures
            final(self).global_vars@ == old(self).global_vars@.push(t),
            final(self).prec_decls == old(self).prec_decls,
            final(self).statements == old(self).statements,
            final(self).main == old(self).main,
    {
        self.global_vars.push(t);
    }

    /// Appends a free top-level statement.
    pub fn add_statement(&mut self, t: Statement)
        ensures
            final(self).statements@ == old(self).statements@.push(t),
            final(self).prec_decls == old(self).prec_decls,
            final(self).global_vars == old(self).global_vars,
            final(self).main == old(self).main,
    {
        self.statements.push(t);
    }

    /// Appends an expression as the last line of the entry-point
    /// function's body.
    pub fn add_expr(&mut self, t: Expr)
        ensures
            final(self).main.body.exprs@ == old(self).main.body.exprs@.push(t),
            final(self).main.typ == old(self).main.typ,
            final(self).main.ident == old(self).main.ident,
            final(self).prec_decls == old(self).prec_decls,
            final(self).global_vars == old(self).global_vars,
            final(self).statements == old(self).statements,
    {
        self.main.add(t);
    }
}

impl Default for Module {
    /// The empty translation unit: no declarations, no statements, and an
    /// entry-point function named `main` that returns `void` with an
    /// empty body.
    fn default() -> (r: Self)
        ensures
            r.prec_decls@ == Seq::<PrecisionDecl>::empty(),
            r.global_vars@ == Seq::<GlobalVar>::empty(),
            r.statements@ == Seq::<Statement>::empty(),
            r.main.typ == (Type { prim: PrimType::Void, array: None }),
            r.main.ident@ == "main"@,
            r.main.body.exprs@ == Seq::<Expr>::empty(),
    {
        Module {
            prec_decls: Vec::new(),
            global_vars: Vec::new(),
            statements: Vec::new(),
            main: Function {
                typ: Type { prim: PrimType::Void, array: None },
                ident: Identifier::from_ref("main"),
                body: Block { exprs: Vec::new() },
            },
        }
    }
}

} // verus!
