//! The declaration layer: global variable declarations with their
//! qualifiers, and function-local variable declarations.

use vstd::prelude::*;

use crate::builder::CodeBuilder;
use crate::expr::Identifier;
use crate::numeral::dec_digits;
use crate::numeral::dec_usize;
use crate::types::Precision;
use crate::types::Type;
use crate::types::type_code;

verus! {

// ==============
// === Layout ===
// ==============

/// Explicit binding location of a global variable.
#[derive(Clone, Copy, Debug, PartialEq, Eq, Hash)]
pub struct Layout {
    pub location: usize,
}

/// The layout qualifier text, `layout(location=N)`.
pub open spec fn layout_code(l: Layout) -> Seq<char> {
    "layout(location="@ + dec_digits(l.location as nat) + ")"@
}

impl Layout {
    /// Appends the layout qualifier to the buffer.
    pub fn build(&self, builder: &mut CodeBuilder)
        ensures
            final(builder).code@ == old(builder).code@ + layout_code(*self),
            final(builder).indent == old(builder).indent,
    {
        builder.write("layout(location=");
        builder.write(dec_usize(self.location).as_str());
        builder.write(")");
        proof {
            assert(builder.code@ =~= old(builder).code@ + layout_code(*self));
        }
    }
}

impl Default for Layout {
    /// Location zero.
    fn default() -> (r: Self)
        ensures
            r.location == 0,
    {
        Layout { location: 0 }
    }
}

// ===============
// === Storage ===
// ===============

/// Interpolation behavior of an input or output variable.
#[derive(Clone, Copy, Debug, PartialEq, Eq, Hash)]
pub enum InterpolationStorage {
    Smooth,
    Flat,
}

/// The keyword of an interpolation qualifier.
pub open spec fn interpolation_code(i: InterpolationStorage) -> Seq<char> {
    match i {
        InterpolationStorage::Smooth => "smooth"@,
        InterpolationStorage::Flat => "flat"@,
    }
}

/// Linkage modifiers of an input or output variable.
#[derive(Clone, Copy, Debug, PartialEq, Eq, Hash)]
pub struct LinkageStorage {
    pub centroid: bool,
    pub interpolation: Option<InterpolationStorage>,
}

/// The modifier words that follow `in` or `out`, each preceded by a space.
pub open spec fn linkage_code(s: LinkageStorage) -> Seq<char> {
    (if s.centroid {
        " centroid"@
    } else {
        Seq::empty()
    }) + (match s.interpolation {
        Option::None => Seq::empty(),
        Option::Some(i) => " "@ + interpolation_code(i),
    })
}

impl LinkageStorage {
    /// Appends the linkage modifiers to the buffer.
    pub fn build(&self, builder: &mut CodeBuilder)
        ensures
            final(builder).code@ == old(builder).code@ + linkage_code(*self),
            final(builder).indent == old(builder).indent,
    {
        if self.centroid {
            builder.write(" centroid");
        }
        match self.interpolation {
            Option::None => {},
            Option::Some(i) => {
                match i {
                    InterpolationStorage::Smooth => builder.write(" smooth"),
                    InterpolationStorage::Flat => builder.write(" flat"),
                }
            },
        }
        proof {
            reveal_strlit(" smooth");
            reveal_strlit(" flat");
            reveal_strlit(" ");
            reveal_strlit("smooth");
            reveal_strlit("flat");
            assert(builder.code@ =~= old(builder).code@ + linkage_code(*self));
        }
    }
}

impl Default for LinkageStorage {
    /// No modifiers.
    fn default() -> (r: Self)
        ensures
            r.centroid == false,
            r.interpolation == Option::<InterpolationStorage>::None,
    {
        LinkageStorage { centroid: false, interpolation: None }
    }
}

/// Storage class of a global variable.
#[derive(Clone, Copy, Debug, PartialEq, Eq, Hash)]
pub enum GlobalVarStorage {
    ConstStorage,
    InStorage(LinkageStorage),
    OutStorage(LinkageStorage),
    UniformStorage,
}

/// The storage qualifier text: `const`, `uniform`, or `in`/`out` followed
/// by their linkage modifiers.
pub open spec fn storage_code(s: GlobalVarStorage) -> Seq<char> {
    match s {
        GlobalVarStorage::ConstStorage => "const"@,
        GlobalVarStorage::UniformStorage => "uniform"@,
        GlobalVarStorage::InStorage(q) => "in"@ + linkage_code(q),
        GlobalVarStorage::OutStorage(q) => "out"@ + linkage_code(q),
    }
}

impl GlobalVarStorage {
    /// Appends the storage qualifier to the buffer.
    pub fn build(&self, builder: &mut CodeBuilder)
        ensures
            final(builder).code@ == old(builder).code@ + storage_code(*self),
            final(builder).indent == old(builder).indent,
    {
        match self {
            GlobalVarStorage::ConstStorage => builder.write("const"),
            GlobalVarStorage::UniformStorage => builder.write("uniform"),
            GlobalVarStorage::InStorage(q) => {
                builder.write("in");
                q.build(builder);
            },
            GlobalVarStorage::OutStorage(q) => {
                builder.write("out");
                q.build(builder);
            },
        }
        proof {
            assert(builder.code@ =~= old(builder).code@ + storage_code(*self));
        }
    }
}

// =================
// === GlobalVar ===
// =================

/// A top-level variable declaration. The precision qualifier is carried
/// for callers to inspect but takes no part in the rendered text.
#[derive(Clone, Debug)]
pub struct GlobalVar {
    pub layout: Option<Layout>,
    pub storage: Option<GlobalVarStorage>,
    pub prec: Option<Precision>,
    pub typ: Type,
    pub ident: Identifier,
}

/// The declaration text, without its terminator, in fixed order: layout
/// qualifier, storage qualifier, type, identifier.
pub open spec fn global_var_code(g: GlobalVar) -> Seq<char> {
    (match g.layout {
        Option::None => Seq::empty(),
        Option::Some(l) => layout_code(l) + " "@,
    }) + (match g.storage {
        Option::None => Seq::empty(),
        Option::Some(s) => storage_code(s) + " "@,
    }) + type_code(g.typ) + " "@ + g.ident@
}

impl GlobalVar {
    /// Appends the declaration to the buffer.
    pub fn build(&self, builder: &mut CodeBuilder)
        ensures
            final(builder).code@ == old(builder).code@ + global_var_code(*self),
            final(builder).indent == old(builder).indent,
    {
        match self.layout {
            Option::None => {},
            Option::Some(l) => {
                l.build(builder);
                builder.write(" ");
            },
        }
        match &self.storage {
            Option::None => {},
            Option::Some(s) => {
                s.build(builder);
                builder.write(" ");
            },
        }
        self.typ.build(builder);
        builder.write(" ");
        self.ident.build(builder);
        proof {
            assert(builder.code@ =~= old(builder).code@ + global_var_code(*self));
        }
    }

    /// Renders the declaration alone.
    pub fn to_code(&self) -> (r: String)
        ensures
            r@ == global_var_code(*self),
    {
        let mut builder = CodeBuilder::new();
        self.build(&mut builder);
        proof {
            assert(builder.code@ =~= global_var_code(*self));
        }
        builder.into_code()
    }
}

// ================
// === LocalVar ===
// ================

/// A function-local variable declaration. It renders without a terminator:
/// the terminator belongs to the statement that embeds it.
#[derive(Clone, Debug)]
pub struct LocalVar {
    pub constant: bool,
    pub typ: Type,
    pub ident: Identifier,
}

/// The local declaration text: `[const] <type> <identifier>`.
pub open spec fn local_var_code(v: LocalVar) -> Seq<char> {
    (if v.constant {
        "const "@
    } else {
        Seq::empty()
    }) + type_code(v.typ) + " "@ + v.ident@
}

impl LocalVar {
    /// Appends the declaration to the buffer.
    pub fn build(&self, builder: &mut CodeBuilder)
        ensures
            final(builder).code@ == old(builder).code@ + local_var_code(*self),
            final(builder).indent == old(builder).indent,
    {
        if self.constant {
            builder.write("const ");
        }
        self.typ.build(builder);
        builder.write(" ");
        self.ident.build(builder);
        proof {
            assert(builder.code@ =~= old(builder).code@ + local_var_code(*self));
        }
    }

    /// Renders the declaration alone.
    pub fn to_code(&self) -> (r: String)
        ensures
            r@ == local_var_code(*self),
    {
        let mut builder = CodeBuilder::new();
        self.build(&mut builder);
        proof {
            assert(builder.code@ =~= local_var_code(*self));
        }
        builder.into_code()
    }
}

} // verus!
