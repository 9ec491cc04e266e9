//! The statement layer: top-level statements, functions and precision
//! declarations.

use vstd::prelude::*;

use crate::builder::CodeBuilder;
use crate::builder::indent_text;
use crate::expr::Block;
use crate::expr::Expr;
use crate::expr::Identifier;
use crate::expr::RawCode;
use crate::expr::block_code;
use crate::types::Precision;
use crate::types::Type;
use crate::types::precision_code;
use crate::types::type_code;

verus! {

// =====================
// === PrecisionDecl ===
// =====================

/// Top-level precision declaration: `precision <qualifier> <type>;`.
#[derive(Clone, Debug)]
pub struct PrecisionDecl {
    pub prec: Precision,
    pub typ: Type,
}

/// The precision declaration text, terminator included.
pub open spec fn precision_decl_code(d: PrecisionDecl) -> Seq<char> {
    "precision "@ + precision_code(d.prec) + " "@ + type_code(d.typ) + ";"@
}

impl PrecisionDecl {
    /// Pairs a precision qualifier with the type it applies to.
    pub fn new(prec: Precision, typ: Type) -> (r: Self)
        ensures
            r.prec == prec,
            r.typ == typ,
    {
        PrecisionDecl { prec, typ }
    }

    /// Appends the declaration to the buffer.
    pub fn build(&self, builder: &mut CodeBuilder)
        ensures
            final(builder).code@ == old(builder).code@ + precision_decl_code(*self),
            final(builder).indent == old(builder).indent,
    {
        builder.write("precision ");
        self.prec.build(builder);
        builder.write(" ");
        self.typ.build(builder);
        builder.terminator();
        proof {
            assert(builder.code@ =~= old(builder).code@ + precision_decl_code(*self));
        }
    }

    /// Renders the declaration alone.
    pub fn to_code(&self) -> (r: String)
        ensures
            r@ == precision_decl_code(*self),
    {
        let mut builder = CodeBuilder::new();
        self.build(&mut builder);
        proof {
            assert(builder.code@ =~= precision_decl_code(*self));
        }
        builder.into_code()
    }
}

// ================
// === Function ===
// ================

/// Top-level function declaration: a return type, a name and a body whose
/// lines render one indentation level deeper.
#[derive(Debug)]
pub struct Function {
    pub typ: Type,
    pub ident: Identifier,
    pub body: Block,
}

/// The function text at indentation level `ind`:
/// `<type> <name>() {`, the body one level deeper, then `}` on its own
/// line at the function's level.
pub open spec fn function_code(f: Function, ind: nat) -> Seq<char> {
    type_code(f.typ) + " "@ + f.ident@ + "() {"@ + block_code(f.body.exprs@, ind + 1) + "\n"@
        + indent_text(ind) + "}"@
}

impl Function {
    /// Appends the function to the buffer.
    pub fn build(&self, builder: &mut CodeBuilder)
        requires
            old(builder).indent < usize::MAX,
        ensures
            final(builder).code@ == old(builder).code@ + function_code(
                *self,
                old(builder).indent as nat,
            ),
            final(builder).indent == old(builder).indent,
    {
        self.typ.build(builder);
        builder.write(" ");
        self.ident.build(builder);
        builder.write("() {");
        builder.inc_indent();
        self.body.build(builder);
        builder.dec_indent();
        builder.newline();
        builder.write_indent();
        builder.write("}");
        proof {
            assert(builder.code@ =~= old(builder).code@ + function_code(
                *self,
                old(builder).indent as nat,
            ));
        }
    }

    /// Renders the function alone, at indentation level zero.
    pub fn to_code(&self) -> (r: String)
        ensures
            r@ == function_code(*self, 0),
    {
        let mut builder = CodeBuilder::new();
        self.build(&mut builder);
        proof {
            assert(builder.code@ =~= function_code(*self, 0));
        }
        builder.into_code()
    }

    /// Appends an expression as the last line of the body.
    pub fn add(&mut self, t: Expr)
        ensures
            final(self).body.exprs@ == old(self).body.exprs@.push(t),
            final(self).typ == old(self).typ,
            final(self).ident == old(self).ident,
    {
        self.body.add(t);
    }
}

// =================
// === Statement ===
// =================

/// Top-level statement: a function, a precision declaration, or raw text.
#[derive(Debug)]
pub enum Statement {
    Function(Function),
    PrecisionDecl(PrecisionDecl),
    Raw(RawCode),
}

/// The statement text at indentation level `ind`.
pub open spec fn statement_code(s: Statement, ind: nat) -> Seq<char> {
    match s {
        Statement::Function(f) => function_code(f, ind),
        Statement::PrecisionDecl(d) => precision_decl_code(d),
        Statement::Raw(r) => r.str@,
    }
}

impl Statement {
    /// Appends the statement to the buffer.
    pub fn build(&self, builder: &mut CodeBuilder)
        requires
            old(builder).indent < usize::MAX,
        ensures
            final(builder).code@ == old(builder).code@ + statement_code(
                *self,
                old(builder).indent as nat,
            ),
            final(builder).indent == old(builder).indent,
    {
        match self {
            Statement::Function(f) => f.build(builder),
            Statement::PrecisionDecl(d) => d.build(builder),
            Statement::Raw(r) => builder.write(r.str.as_str()),
        }
    }
}

impl From<PrecisionDecl> for Statement {
    fn from(d: PrecisionDecl) -> (r: Self) {
        Statement::PrecisionDecl(d)
    }
}

impl vstd::std_specs::convert::FromSpecImpl<PrecisionDecl> for Statement {
    open spec fn obeys_from_spec() -> bool {
        true
    }

    open spec fn from_spec(d: PrecisionDecl) -> Self {
        Statement::PrecisionDecl(d)
    }
}

} // verus!
