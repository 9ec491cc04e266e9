//! The expression layer: a closed union of expression forms, each rendering
//! itself into a [`crate::builder::CodeBuilder`].

use vstd::prelude::*;

use crate::builder::CodeBuilder;
use crate::builder::indent_text;

verus! {

// ==================
// === Identifier ===
// ==================

/// Variable or type identifier, emitted verbatim as a bare token.
#[derive(Clone, Debug, PartialEq, Eq, Hash)]
pub struct Identifier(pub String);

impl View for Identifier {
    type V = Seq<char>;

    open spec fn view(&self) -> Seq<char> {
        self.0@
    }
}

impl Identifier {
    /// Appends the identifier to the buffer.
    pub fn build(&self, builder: &mut CodeBuilder)
        ensures
            final(builder).code@ == old(builder).code@ + self@,
            final(builder).indent == old(builder).indent,
    {
        builder.write(self.0.as_str());
    }
}

impl From<String> for Identifier {
    fn from(s: String) -> (r: Self) {
        Identifier(s)
    }
}

impl vstd::std_specs::convert::FromSpecImpl<String> for Identifier {
    open spec fn obeys_from_spec() -> bool {
        true
    }

    open spec fn from_spec(s: String) -> Self {
        Identifier(s)
    }
}

impl Identifier {
    /// Copies a borrowed piece of text into an identifier.
    pub fn from_ref(s: &str) -> (r: Self)
        ensures
            r@ == s@,
    {
        Identifier(String::from_str(s))
    }
}

// ===============
// === RawCode ===
// ===============

/// Raw, unchecked code, spliced into the output verbatim.
#[derive(Clone, Debug, PartialEq, Eq, Hash)]
pub struct RawCode {
    pub str: String,
}

impl RawCode {
    /// Wraps pre-formatted text.
    pub fn new(str: String) -> (r: Self)
        ensures
            r.str@ == str@,
    {
        RawCode { str }
    }
}

// ============
// === Expr ===
// ============

/// Any expression. The payload is boxed because blocks and assignments
/// nest expressions, and a tagged union must have a fixed size.
#[derive(Debug)]
pub struct Expr(pub Box<ExprUnboxed>);

/// The closed set of expression forms.
#[derive(Debug)]
pub enum ExprUnboxed {
    RawCode(RawCode),
    Identifier(Identifier),
    Block(Block),
    Assignment(Assignment),
}

/// Ordered sequence of expressions, each on its own line. Used as a
/// function body.
#[derive(Debug)]
pub struct Block {
    pub exprs: Vec<Expr>,
}

/// Assignment of one expression to another; renders with a trailing
/// statement terminator.
#[derive(Debug)]
pub struct Assignment {
    pub left: Expr,
    pub right: Expr,
}

/// The text of an expression at indentation level `ind`. Raw code and
/// identifiers are emitted verbatim; a block emits each child on its own
/// line, indented; an assignment renders `left = right;`.
pub open spec fn expr_code(e: ExprUnboxed, ind: nat) -> Seq<char>
    decreases e,
{
    match e {
        ExprUnboxed::RawCode(r) => r.str@,
        ExprUnboxed::Identifier(i) => i@,
        ExprUnboxed::Block(b) => block_code(b.exprs@, ind),
        ExprUnboxed::Assignment(a) => expr_code(*a.left.0, ind) + " = "@ + expr_code(
            *a.right.0,
            ind,
        ) + ";"@,
    }
}

/// The text of the lines of a block: every line is preceded by a line
/// break and the indentation of its level.
pub open spec fn block_code(es: Seq<Expr>, ind: nat) -> Seq<char>
    decreases es,
{
    if es.len() == 0 {
        Seq::empty()
    } else {
        block_code(es.drop_last(), ind) + "\n"@ + indent_text(ind) + expr_code(*es.last().0, ind)
    }
}

impl Expr {
    /// Boxes an expression form.
    pub fn new(t: ExprUnboxed) -> (r: Self)
        ensures
            *r.0 == t,
    {
        Expr(Box::new(t))
    }

    /// Converts a bare piece of text into a name reference, not raw
    /// code: callers that want raw text opt in through [`RawCode`].
    pub fn from_name(s: &str) -> (r: Self)
        ensures
            *r.0 matches ExprUnboxed::Identifier(id) && id@ == s@,
    {
        Expr::new(ExprUnboxed::Identifier(Identifier::from_ref(s)))
    }

    /// Appends the expression to the buffer.
    pub fn build(&self, builder: &mut CodeBuilder)
        ensures
            final(builder).code@ == old(builder).code@ + expr_code(
                *self.0,
                old(builder).indent as nat,
            ),
            final(builder).indent == old(builder).indent,
        decreases *self.0,
    {
        match &*self.0 {
            ExprUnboxed::RawCode(r) => {
                builder.write(r.str.as_str());
            },
            ExprUnboxed::Identifier(i) => {
                i.build(builder);
            },
            ExprUnboxed::Block(b) => {
                b.build(builder);
            },
            ExprUnboxed::Assignment(a) => {
                a.build(builder);
            },
        }
    }

    /// Renders the expression alone, at indentation level zero.
    pub fn to_code(&self) -> (r: String)
        ensures
            r@ == expr_code(*self.0, 0),
    {
        let mut builder = CodeBuilder::new();
        self.build(&mut builder);
        proof {
            assert(builder.code@ =~= expr_code(*self.0, 0));
        }
        builder.into_code()
    }
}

impl Block {
    /// Appends each line of the block, in order, at the buffer's
    /// indentation level.
    pub fn build(&self, builder: &mut CodeBuilder)
        ensures
            final(builder).code@ == old(builder).code@ + block_code(
                self.exprs@,
                old(builder).indent as nat,
            ),
            final(builder).indent == old(builder).indent,
        decreases self.exprs@,
    {
        let ghost ind: nat = builder.indent as nat;
        let n: usize = self.exprs.len();
        let mut i: usize = 0;
        while i < n
            invariant
                n == self.exprs@.len(),
                i <= n,
                builder.code@ == old(builder).code@ + block_code(self.exprs@.take(i as int), ind),
                builder.indent == old(builder).indent,
                ind == old(builder).indent as nat,
            decreases n - i,
        {
            builder.newline();
            builder.write_indent();
            proof {
                assert(decreases_to!(self.exprs@ => self.exprs@[i as int]));
            }
            self.exprs[i].build(builder);
            proof {
                let pre = self.exprs@.take(i as int);
                let post = self.exprs@.take(i + 1);
                assert(post.drop_last() =~= pre);
                assert(post.last() == self.exprs@[i as int]);
                assert(builder.code@ =~= old(builder).code@ + block_code(post, ind));
            }
            i = i + 1;
        }
        proof {
            assert(self.exprs@.take(n as int) =~= self.exprs@);
        }
    }

    /// Appends an expression as the block's last line.
    pub fn add(&mut self, t: Expr)
        ensures
            final(self).exprs@ == old(self).exprs@.push(t),
    {
        self.exprs.push(t);
    }
}

impl Default for Block {
    /// An empty block.
    fn default() -> (r: Self)
        ensures
            r.exprs@ == Seq::<Expr>::empty(),
    {
        Block { exprs: Vec::new() }
    }
}

impl Assignment {
    /// Pairs a left-hand side with a right-hand side.
    pub fn new(left: Expr, right: Expr) -> (r: Self)
        ensures
            r.left == left,
            r.right == right,
    {
        Assignment { left, right }
    }

    /// Appends `left = right;` to the buffer.
    pub fn build(&self, builder: &mut CodeBuilder)
        ensures
            final(builder).code@ == old(builder).code@ + expr_code(
                ExprUnboxed::Assignment(*self),
                old(builder).indent as nat,
            ),
            final(builder).indent == old(builder).indent,
        decreases *self,
    {
        self.left.build(builder);
        builder.write(" = ");
        self.right.build(builder);
        builder.terminator();
        proof {
            assert(builder.code@ =~= old(builder).code@ + expr_code(
                ExprUnboxed::Assignment(*self),
                old(builder).indent as nat,
            ));
        }
    }
}

impl From<RawCode> for Expr {
    fn from(t: RawCode) -> (r: Self) {
        Expr::new(ExprUnboxed::RawCode(t))
    }
}

impl vstd::std_specs::convert::FromSpecImpl<RawCode> for Expr {
    open spec fn obeys_from_spec() -> bool {
        true
    }

    open spec fn from_spec(t: RawCode) -> Self {
        Expr(Box::new(ExprUnboxed::RawCode(t)))
    }
}

impl From<Identifier> for Expr {
    fn from(t: Identifier) -> (r: Self) {
        Expr::new(ExprUnboxed::Identifier(t))
    }
}

impl vstd::std_specs::convert::FromSpecImpl<Identifier> for Expr {
    open spec fn obeys_from_spec() -> bool {
        true
    }

    open spec fn from_spec(t: Identifier) -> Self {
        Expr(Box::new(ExprUnboxed::Identifier(t)))
    }
}

impl From<Block> for Expr {
    fn from(t: Block) -> (r: Self) {
        Expr::new(ExprUnboxed::Block(t))
    }
}

impl vstd::std_specs::convert::FromSpecImpl<Block> for Expr {
    open spec fn obeys_from_spec() -> bool {
        true
    }

    open spec fn from_spec(t: Block) -> Self {
        Expr(Box::new(ExprUnboxed::Block(t)))
    }
}

impl From<Assignment> for Expr {
    fn from(t: Assignment) -> (r: Self) {
        Expr::new(ExprUnboxed::Assignment(t))
    }
}

impl vstd::std_specs::convert::FromSpecImpl<Assignment> for Expr {
    open spec fn obeys_from_spec() -> bool {
        true
    }

    open spec fn from_spec(t: Assignment) -> Self {
        Expr(Box::new(ExprUnboxed::Assignment(t)))
    }
}

} // verus!
